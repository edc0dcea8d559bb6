//! Verified logic of a tic-tac-toe game client: the game rules, the queue of actions waiting
//! for confirmation by the server, and the decisions that the client's systems take on events.

pub mod action_queue;
pub mod app_state;
pub mod board;
pub mod bot;
pub mod common;
pub mod game_error;
pub mod game_events;
pub mod game_flow;
pub mod game_info;
pub mod info_panel;
pub mod menu;
pub mod pending_action;
pub mod session;
pub mod small_lists;
pub mod tic_tac_toe;
pub mod ttt_flow;
