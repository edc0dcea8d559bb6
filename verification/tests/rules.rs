use client::action_queue::PendingActionQueue;
use client::app_state::{AppState, MenuState};
use client::board::{find_winning_line, winning_combinations, BoardCell, GridIndex, TTTBoard};
use client::bot::{
    empty_cell_at, get_random_action, get_random_position, random_delay_ms, BotDifficulty,
    Strategy,
};
use client::game_events::{GameAction, StateEvent, StateUpdated};
use client::game_flow::handle_state_updated;
use client::game_info::{
    create_reply_context, join_reply_context, CreateGameContext, EnemyType, FullGameInfo, GameInfo,
    ProtobufError,
};
use client::info_panel::PlayerTags;
use client::menu::{
    create_bot_game_context, difficulty_after_strategy_update, find_network_game,
    game_list_action, network_game_request, strategy_difficulty_options, BotGameError,
    GameListAction, NetworkGameError, StrategyUpdated,
};
use client::pending_action::{ConfirmationStatus, PendingAction};
use client::session::{
    can_send_action, connection_status_update, session_finished, session_opening,
    ConnectionEvent, SessionOpening,
};
use client::game_events::OpenSession;
use client::tic_tac_toe::{FinishedState, GameState, MoveError, TicTacToe};
use client::ttt_flow::{
    animation_step, apply_confirmed, dropped_reason, insert_pending_action, player_mark,
    player_roles, sync_reply, sync_with_server, tile_press_action, AnimationStep, ApplyOutcome,
    PlayerMark,
    Side,
};

fn pos(row: usize, col: usize) -> GridIndex {
    GridIndex::new(row, col)
}

fn board_of(cells: [Option<u8>; 9]) -> TTTBoard {
    TTTBoard::from_cells(cells.iter().map(|c| BoardCell(*c)).collect()).unwrap()
}

#[test]
fn first_player_wins_with_a_row() {
    let mut game = TicTacToe::new();
    assert_eq!(game.state(), GameState::Turn(0));
    assert_eq!(game.update(0, pos(0, 0)), Ok(GameState::Turn(1)));
    assert_eq!(game.update(1, pos(1, 0)), Ok(GameState::Turn(0)));
    assert_eq!(game.update(0, pos(0, 1)), Ok(GameState::Turn(1)));
    assert_eq!(game.update(1, pos(1, 1)), Ok(GameState::Turn(0)));
    assert_eq!(
        game.update(0, pos(0, 2)),
        Ok(GameState::Finished(FinishedState::Win(0)))
    );
    assert_eq!(
        find_winning_line(game.board()),
        Some((pos(0, 0), pos(0, 1), pos(0, 2)))
    );
    // a finished game rejects every move
    assert_eq!(game.update(1, pos(2, 2)), Err(MoveError::GameFinished));
}

#[test]
fn full_board_without_line_is_a_draw() {
    let mut game = TicTacToe::new();
    // X O X / X O O / O X X
    let moves = [
        (0, pos(0, 0)),
        (1, pos(0, 1)),
        (0, pos(0, 2)),
        (1, pos(1, 1)),
        (0, pos(1, 0)),
        (1, pos(1, 2)),
        (0, pos(2, 1)),
        (1, pos(2, 0)),
    ];
    for (player, p) in moves {
        assert!(matches!(game.update(player, p), Ok(GameState::Turn(_))));
    }
    assert_eq!(
        game.update(0, pos(2, 2)),
        Ok(GameState::Finished(FinishedState::Draw))
    );
    assert_eq!(find_winning_line(game.board()), None);
}

#[test]
fn rejected_moves_leave_the_game_unchanged() {
    let mut game = TicTacToe::new();
    assert_eq!(game.update(1, pos(0, 0)), Err(MoveError::NotPlayerTurn));
    assert_eq!(game.update(0, pos(3, 0)), Err(MoveError::InvalidPosition));
    assert_eq!(game.update(0, pos(1, 1)), Ok(GameState::Turn(1)));
    assert_eq!(game.update(1, pos(1, 1)), Err(MoveError::CellOccupied));
    assert_eq!(game.state(), GameState::Turn(1));
    assert_eq!(game.board().get(pos(1, 1)), BoardCell(Some(0)));
    assert_eq!(game.board().empty_cells().len(), 8);
}

#[test]
fn winning_lines_cover_rows_columns_and_diagonals() {
    let lines = winning_combinations();
    assert_eq!(lines.len(), 8);
    assert_eq!(lines[3], (pos(0, 0), pos(1, 0), pos(2, 0)));
    assert_eq!(lines[7], (pos(0, 2), pos(1, 1), pos(2, 0)));
    let board = board_of([None, None, Some(1), None, Some(1), None, Some(1), None, None]);
    assert_eq!(find_winning_line(&board), Some((pos(0, 2), pos(1, 1), pos(2, 0))));
    assert!(board.player_has_line(1));
    assert!(!board.player_has_line(0));
}

#[test]
fn move_error_messages() {
    assert_eq!(
        dropped_reason(MoveError::CellOccupied),
        "game update failed after confirmation: cell is already filled"
    );
    assert_eq!(MoveError::GameFinished.message(), "game is finished");
}

#[test]
fn apply_confirmed_applies_the_leading_confirmed_run_in_order() {
    let mut game = TicTacToe::new();
    let mut queue = PendingActionQueue::from(vec![
        PendingAction::new(0, pos(0, 0), ConfirmationStatus::Confirmed),
        PendingAction::new(1, pos(0, 0), ConfirmationStatus::Confirmed),
        PendingAction::new(1, pos(2, 2), ConfirmationStatus::WaitingConfirmation),
        PendingAction::new(0, pos(1, 1), ConfirmationStatus::Confirmed),
    ]);
    let outcomes = apply_confirmed(&mut game, &mut queue);
    assert_eq!(
        outcomes,
        vec![
            ApplyOutcome::Applied { player: 0, action: pos(0, 0), state: GameState::Turn(1) },
            ApplyOutcome::Dropped {
                player: 1,
                action: pos(0, 0),
                error: MoveError::CellOccupied
            },
        ]
    );
    assert_eq!(queue.len(), 2);
    assert_eq!(queue.as_slice()[0].action, pos(2, 2));
    assert_eq!(game.state(), GameState::Turn(1));
}

#[test]
fn apply_confirmed_stops_at_first_unconfirmed() {
    let mut game = TicTacToe::new();
    let mut queue = PendingActionQueue::from(vec![
        PendingAction::new(1, pos(1, 1), ConfirmationStatus::NotConfirmed),
        PendingAction::new(0, pos(2, 2), ConfirmationStatus::Confirmed),
    ]);
    let outcomes = apply_confirmed(&mut game, &mut queue);
    assert!(outcomes.is_empty());
    assert_eq!(queue.len(), 2);
    assert_eq!(game.board().get(pos(2, 2)), BoardCell(None));
}

#[test]
fn sync_fills_cells_missing_locally() {
    let game_entity = 11u64;
    let mut local = TicTacToe::new();
    local.update(0, pos(0, 0)).unwrap();
    let server = FullGameInfo::try_from_parts(
        7,
        vec![1, 2],
        Some(GameState::Turn(0)),
        [Some(0), None, None, None, Some(1), None, None, None, None]
            .iter()
            .map(|c| BoardCell(*c))
            .collect(),
    )
    .unwrap();
    let result = sync_with_server(game_entity, &mut local, &server);
    assert_eq!(result.applied, vec![GameAction::new(game_entity, 1, pos(1, 1))]);
    assert_eq!(
        result.state_updated,
        Some(StateUpdated { game: game_entity, state: GameState::Turn(0) })
    );
    assert_eq!(local.board().get(pos(1, 1)), BoardCell(Some(1)));
    assert_eq!(local.state(), GameState::Turn(0));
    // a second synchronisation applies nothing
    let again = sync_with_server(game_entity, &mut local, &server);
    assert!(again.applied.is_empty());
    assert_eq!(again.state_updated, None);
}

#[test]
fn game_info_from_server_message() {
    let info = GameInfo::try_from_parts(3, vec![10, 20], Some(GameState::Turn(1))).unwrap();
    assert_eq!(info.get_user_id(0), Some(10));
    assert_eq!(info.get_user_id(1), Some(20));
    assert_eq!(info.get_user_id(2), None);
    assert!(matches!(
        GameInfo::try_from_parts(3, vec![10], Some(GameState::Turn(1))),
        Err(ProtobufError::InvalidPlayersLength { expected: 2, found: 1 })
    ));
    match GameInfo::try_from_parts(3, vec![10, 20], None) {
        Err(ProtobufError::MessageDataMissing { missing_field }) => {
            assert_eq!(missing_field, "game_state")
        }
        other => panic!("unexpected {:?}", other),
    }
    match FullGameInfo::try_from_parts(3, vec![10, 20], Some(GameState::Turn(0)), vec![]) {
        Err(ProtobufError::MessageDataMissing { missing_field }) => {
            assert_eq!(missing_field, "board")
        }
        other => panic!("unexpected {:?}", other),
    }
    assert!(matches!(
        FullGameInfo::try_from_parts(
            3,
            vec![10, 20],
            Some(GameState::Turn(0)),
            vec![BoardCell(None); 4]
        ),
        Err(ProtobufError::InvalidBoardLength { expected: 9, found: 4 })
    ));
}

#[test]
fn create_game_context_from_game_info() {
    let info = GameInfo::try_from_parts(3, vec![10, 20], Some(GameState::Turn(0))).unwrap();
    let ctx = CreateGameContext::new_from_game_info(20, info).unwrap();
    assert_eq!(ctx.enemy(), EnemyType::User(10));
    assert!(!ctx.user_first());
    assert!(ctx.game().is_none());
    let ctx = CreateGameContext::new_from_game_info(10, info).unwrap();
    assert_eq!(ctx.enemy(), EnemyType::User(20));
    assert!(ctx.user_first());
    assert!(CreateGameContext::new_from_game_info(30, info).is_none());

    let full = FullGameInfo::try_from_parts(
        3,
        vec![10, 20],
        Some(GameState::Turn(1)),
        vec![BoardCell(None); 9],
    )
    .unwrap();
    let ctx = CreateGameContext::new_from_full_game_info(10, full).unwrap();
    assert_eq!(ctx.game().unwrap().state(), GameState::Turn(1));
}

#[test]
fn roles_of_new_game() {
    let roles = player_roles(true, GameState::Turn(0));
    assert_eq!((roles.user_position, roles.enemy_position), (0, 1));
    assert_eq!(roles.current, Some(Side::User));
    assert_eq!(roles.winner, None);
    let roles = player_roles(false, GameState::Finished(FinishedState::Win(0)));
    assert_eq!((roles.user_position, roles.enemy_position), (1, 0));
    assert_eq!(roles.current, None);
    assert_eq!(roles.winner, Some(Side::Enemy));
    assert_eq!(player_roles(true, GameState::Finished(FinishedState::Draw)).winner, None);
}

#[test]
fn pending_action_is_inserted_only_into_an_empty_queue() {
    let mut queue = PendingActionQueue::new();
    assert!(insert_pending_action(&mut queue, true, 1, pos(0, 1)));
    assert_eq!(queue.len(), 1);
    assert_eq!(queue.as_slice()[0].status(), ConfirmationStatus::NotConfirmed);
    assert!(!insert_pending_action(&mut queue, true, 0, pos(1, 1)));
    assert_eq!(queue.len(), 1);
    assert_eq!(queue.as_slice()[0].action, pos(0, 1));

    let mut local = PendingActionQueue::new();
    assert!(insert_pending_action(&mut local, false, 1, pos(0, 1)));
    assert_eq!(local.as_slice()[0].status(), ConfirmationStatus::Confirmed);
}

fn tags(position: u8, current_user: bool, current_player: bool) -> PlayerTags {
    PlayerTags {
        position,
        user_authority: if current_user { Some(5) } else { None },
        bot_authority: None,
        current_user,
        current_player,
        winner: false,
    }
}

#[test]
fn tile_press_needs_the_users_turn_a_running_game_and_an_empty_cell() {
    let game_entity = 4u64;
    let mut game = TicTacToe::new();
    let users_turn = [tags(0, true, true), tags(1, false, false)];
    let enemys_turn = [tags(0, true, false), tags(1, false, true)];
    assert_eq!(
        tile_press_action(game_entity, &game, &users_turn, pos(0, 0)),
        Some(GameAction::new(game_entity, 0, pos(0, 0)))
    );
    // the opponent holds the turn: nothing happens
    assert_eq!(tile_press_action(game_entity, &game, &enemys_turn, pos(0, 0)), None);
    // no players known: nothing happens
    assert_eq!(tile_press_action(game_entity, &game, &[], pos(0, 0)), None);
    game.update(0, pos(0, 0)).unwrap();
    // occupied cell
    assert_eq!(tile_press_action(game_entity, &game, &users_turn, pos(0, 0)), None);
    game.set_state(GameState::Finished(FinishedState::Draw));
    // finished game
    assert_eq!(tile_press_action(game_entity, &game, &users_turn, pos(1, 1)), None);
}

#[test]
fn replies_about_other_games_are_dropped() {
    let info = GameInfo::try_from_parts(9, vec![1, 2], Some(GameState::Turn(0))).unwrap();
    let (id, ctx) = create_reply_context(2, info).unwrap();
    assert_eq!(id, 9);
    assert_eq!(ctx.enemy(), EnemyType::User(1));
    assert!(!ctx.user_first());
    assert!(create_reply_context(3, info).is_none());

    let cells = vec![BoardCell(None); 9];
    let full = FullGameInfo::try_from_parts(9, vec![1, 2], Some(GameState::Turn(0)), cells).unwrap();
    assert!(join_reply_context(1, 8, full.clone()).is_none());
    let ctx = join_reply_context(1, 9, full.clone()).unwrap();
    assert!(ctx.user_first());
    assert_eq!(ctx.enemy(), EnemyType::User(2));

    let mut server_cells = vec![BoardCell(None); 9];
    server_cells[4] = BoardCell(Some(0));
    let server =
        FullGameInfo::try_from_parts(9, vec![1, 2], Some(GameState::Turn(1)), server_cells).unwrap();
    let mut local = TicTacToe::new();
    assert!(sync_reply(3, 8, &mut local, &server).is_none());
    assert_eq!(local.board().get(pos(1, 1)), BoardCell(None));
    let res = sync_reply(3, 9, &mut local, &server).unwrap();
    assert_eq!(res.applied, vec![GameAction::new(3, 0, pos(1, 1))]);
    assert_eq!(local.state(), GameState::Turn(1));
}

#[test]
fn player_marks() {
    assert_eq!(player_mark(0), Some(PlayerMark::X));
    assert_eq!(player_mark(1), Some(PlayerMark::O));
    assert_eq!(player_mark(2), None);
}

#[test]
fn state_update_events() {
    assert_eq!(
        handle_state_updated(&StateUpdated { game: 1, state: GameState::Turn(1) }),
        StateEvent::TurnStart { game: 1, player: 1 }
    );
    assert_eq!(
        handle_state_updated(&StateUpdated {
            game: 1,
            state: GameState::Finished(FinishedState::Win(0))
        }),
        StateEvent::PlayerWon { game: 1, player: 0 }
    );
    assert_eq!(
        handle_state_updated(&StateUpdated {
            game: 2,
            state: GameState::Finished(FinishedState::Draw)
        }),
        StateEvent::Draw { game: 2 }
    );
}

#[test]
fn random_bot_action_picks_an_empty_cell() {
    let full = board_of([Some(0); 9]);
    assert_eq!(get_random_action(&full), None);
    let one = board_of([Some(0), Some(1), Some(0), Some(1), Some(0), Some(1), Some(1), Some(0), None]);
    assert_eq!(get_random_action(&one), Some(pos(2, 2)));
    assert_eq!(get_random_position(&one), pos(2, 2));
    let two = board_of([None, Some(1), Some(0), Some(1), Some(0), Some(1), Some(1), Some(0), None]);
    let mut seen_first = false;
    let mut seen_last = false;
    for _ in 0..200 {
        match get_random_action(&two) {
            Some(p) if p == pos(0, 0) => seen_first = true,
            Some(p) if p == pos(2, 2) => seen_last = true,
            other => panic!("unexpected action {:?}", other),
        }
    }
    assert!(seen_first && seen_last);
}

#[test]
fn random_delay_is_in_range() {
    let mut distinct = std::collections::HashSet::new();
    for _ in 0..100 {
        let d = random_delay_ms();
        assert!((500..1500).contains(&d));
        distinct.insert(d);
    }
    assert!(distinct.len() > 1);
}

#[test]
fn bot_settings() {
    assert_eq!(BotDifficulty::Medium.filename(), "medium");
    assert_eq!(BotDifficulty::Easy.weights_file_name(), "easy.weights");
    assert_eq!(BotDifficulty::Hard.to_string(), "Hard");
    assert!(Strategy::QLearning.has_difficulty());
    assert!(!Strategy::Random.has_difficulty());
    assert_eq!(Strategy::QLearning.to_string(), "QLearning");

    let options = strategy_difficulty_options(Some(Strategy::QLearning), true, false, true);
    let event = StrategyUpdated::new(5, options);
    assert_eq!(event.setting(), 5);
    assert!(event.difficulty_supported(&BotDifficulty::Easy));
    assert!(!event.difficulty_supported(&BotDifficulty::Medium));
    assert!(event.difficulty_supported(&BotDifficulty::Hard));
    assert_eq!(
        difficulty_after_strategy_update(Some(BotDifficulty::Medium), &event),
        None
    );
    assert_eq!(
        difficulty_after_strategy_update(Some(BotDifficulty::Hard), &event),
        Some(BotDifficulty::Hard)
    );
    let random = StrategyUpdated::new(5, strategy_difficulty_options(Some(Strategy::Random), true, true, true));
    assert!(!random.difficulty_supported(&BotDifficulty::Easy));
}

#[test]
fn bot_game_creation_checks_settings() {
    assert!(matches!(
        create_bot_game_context(None, None),
        Err(BotGameError::StrategyNotSet)
    ));
    assert!(matches!(
        create_bot_game_context(Some(Strategy::QLearning), None),
        Err(BotGameError::DifficultyNotSet)
    ));
    let ctx = create_bot_game_context(Some(Strategy::Random), None).unwrap();
    assert_eq!(ctx.enemy(), EnemyType::Bot { strategy: Strategy::Random, difficulty: None });
    assert!(ctx.user_first());
}

#[test]
fn join_and_game_list() {
    let games = vec![(100u64, 1u64), (101, 2), (102, 2)];
    assert_eq!(find_network_game(&games, 2), Some(101));
    assert_eq!(find_network_game(&games, 3), None);
    assert!(matches!(game_list_action(Some(4), true), GameListAction::Request(4)));
    match game_list_action(Some(4), false) {
        GameListAction::Message(m) => assert_eq!(m, "Server is down"),
        other => panic!("unexpected {:?}", other),
    }
    match game_list_action(None, true) {
        GameListAction::Message(m) => assert_eq!(m, "No user id provided"),
        other => panic!("unexpected {:?}", other),
    }
}

#[test]
fn connection_and_sessions() {
    assert_eq!(
        connection_status_update(true, Some(false)),
        (false, Some(ConnectionEvent::Disconnected))
    );
    assert_eq!(
        connection_status_update(false, Some(true)),
        (true, Some(ConnectionEvent::Connected))
    );
    assert_eq!(connection_status_update(true, None), (false, Some(ConnectionEvent::Disconnected)));
    assert_eq!(connection_status_update(true, Some(true)), (true, None));
    assert_eq!(session_finished(3, true), Some(OpenSession::new_delayed(3)));
    assert_eq!(session_finished(3, false), None);
    assert_eq!(session_opening(&OpenSession::new(3)), SessionOpening::Connect);
    assert_eq!(session_opening(&OpenSession::new_delayed(3)), SessionOpening::Reconnect);
    assert!(can_send_action(true, false));
    assert!(!can_send_action(true, true));
    assert!(!can_send_action(false, false));
}

#[test]
fn menu_states() {
    assert!(MenuState::Game.is_game_menu());
    assert!(MenuState::PlayAgainstBot.is_game_menu());
    assert!(MenuState::PlayOverNetwork.is_game_menu());
    assert!(!MenuState::Main.is_game_menu());
    assert!(!MenuState::Settings.is_game_menu());
    assert_eq!(AppState::default(), AppState::Menu(MenuState::Main));
}

#[test]
fn win_animation_steps() {
    assert_eq!(animation_step(0, 19), AnimationStep::Advance(1));
    assert_eq!(animation_step(18, 19), AnimationStep::Advance(19));
    assert_eq!(animation_step(19, 19), AnimationStep::Finish);
}

#[test]
fn play_keeps_marks_balanced() {
    let mut game = TicTacToe::default();
    let moves = [(0u8, pos(1, 1)), (1, pos(0, 0)), (0, pos(2, 2)), (1, pos(0, 2))];
    for (player, p) in moves {
        game.update(player, p).unwrap();
        let cells: Vec<BoardCell> = (0..3)
            .flat_map(|r| (0..3).map(move |c| pos(r, c)))
            .map(|p| game.board().get(p))
            .collect();
        let x = cells.iter().filter(|c| **c == BoardCell(Some(0))).count();
        let o = cells.iter().filter(|c| **c == BoardCell(Some(1))).count();
        match game.state() {
            GameState::Turn(0) => assert_eq!(x, o),
            GameState::Turn(1) => assert_eq!(x, o + 1),
            other => panic!("unexpected {:?}", other),
        }
    }
}

#[test]
fn network_game_request_checks_settings() {
    assert_eq!(network_game_request(Some(1), Some(2), true), Ok((1, 2)));
    assert_eq!(network_game_request(None, Some(2), true), Err(NetworkGameError::NotLoggedIn));
    assert_eq!(network_game_request(Some(1), None, true), Err(NetworkGameError::OpponentNotSet));
    assert_eq!(network_game_request(Some(1), Some(2), false), Err(NetworkGameError::NotConnected));
}

#[test]
fn empty_cells_are_counted_row_by_row() {
    let mut board = TTTBoard::new();
    board.set(pos(0, 0), BoardCell(Some(0)));
    board.set(pos(1, 1), BoardCell(Some(1)));
    assert_eq!(empty_cell_at(&board, 0), Some(pos(0, 1)));
    assert_eq!(empty_cell_at(&board, 3), Some(pos(1, 2)));
    assert_eq!(empty_cell_at(&board, 6), Some(pos(2, 2)));
    assert_eq!(empty_cell_at(&board, 7), None);
}
