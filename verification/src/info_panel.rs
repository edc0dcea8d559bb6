use vstd::prelude::*;

use crate::board::PlayerPosition;
use crate::ttt_flow::Side;

verus! {

/// Tags of a player entity that the in-game information panel reads.
#[derive(Clone, Copy, Debug, PartialEq, Eq, Structural)]
pub struct PlayerTags {
    pub position: PlayerPosition,
    /// Id of the user that manages the player, if any.
    pub user_authority: Option<u64>,
    /// Id of the bot that manages the player, if any.
    pub bot_authority: Option<u64>,
    /// The player is the one of the logged-in user.
    pub current_user: bool,
    /// The player holds the turn.
    pub current_player: bool,
    /// The player won the game.
    pub winner: bool,
}

/// Who manages a player, as the panel names it.
#[derive(Clone, Copy, Debug, PartialEq, Eq, Structural)]
pub enum AuthorityLabel {
    User(u64),
    Bot(u64),
    /// Neither or both authorities: shown as a dash.
    Unknown,
}

/// Colour family of a player's panel.
#[derive(Clone, Copy, Debug, PartialEq, Eq, Structural)]
pub enum PanelColor {
    Friendly,
    Enemy,
}

/// What the box between the two players shows.
#[derive(Clone, Copy, Debug, PartialEq, Eq, Structural)]
pub enum GameStateLabel {
    /// "Next:" and the image of that player.
    Next(Side),
    /// "Winner:" and the image of that player.
    Winner(Side),
    /// "Draw".
    Draw,
}

/// One side of the information panel.
#[derive(Clone, Copy, Debug, PartialEq, Eq, Structural)]
pub struct PanelSide {
    pub tags: PlayerTags,
    pub color: PanelColor,
    pub authority: AuthorityLabel,
    /// The panel of the player that holds the turn is drawn as active.
    pub active: bool,
}

/// The information panel of a game: the user on the left, the enemy on the right, and the
/// state box between them.
#[derive(Clone, Copy, Debug, PartialEq, Eq, Structural)]
pub struct InfoPanel {
    pub user: PanelSide,
    pub enemy: PanelSide,
    pub label: GameStateLabel,
}

pub open spec fn spec_authority_label(tags: PlayerTags) -> AuthorityLabel {
    match (tags.user_authority, tags.bot_authority) {
        (Some(u), None) => AuthorityLabel::User(u),
        (None, Some(b)) => AuthorityLabel::Bot(b),
        _ => AuthorityLabel::Unknown,
    }
}

pub open spec fn spec_panel_side(tags: PlayerTags) -> PanelSide {
    PanelSide {
        tags,
        color: if tags.current_user {
            PanelColor::Friendly
        } else {
            PanelColor::Enemy
        },
        authority: spec_authority_label(tags),
        active: tags.current_player,
    }
}

/// The state box names the player that holds the turn, else the winner, else a draw; the user
/// is looked at before the enemy.
pub open spec fn spec_game_state_label(user: PlayerTags, enemy: PlayerTags) -> GameStateLabel {
    if user.current_player {
        GameStateLabel::Next(Side::User)
    } else if enemy.current_player {
        GameStateLabel::Next(Side::Enemy)
    } else if user.winner {
        GameStateLabel::Winner(Side::User)
    } else if enemy.winner {
        GameStateLabel::Winner(Side::Enemy)
    } else {
        GameStateLabel::Draw
    }
}

/// Who manages a player: a user or a bot when exactly one of them does.
pub fn authority_label(tags: &PlayerTags) -> (r: AuthorityLabel)
    ensures
        r == spec_authority_label(*tags),
{
    match (tags.user_authority, tags.bot_authority) {
        (Some(u), None) => AuthorityLabel::User(u),
        (None, Some(b)) => AuthorityLabel::Bot(b),
        _ => AuthorityLabel::Unknown,
    }
}

/// The panel side of a player: friendly colours for the logged-in user's player.
pub fn panel_side(tags: &PlayerTags) -> (r: PanelSide)
    ensures
        r == spec_panel_side(*tags),
{
    PanelSide {
        tags: *tags,
        color: if tags.current_user {
            PanelColor::Friendly
        } else {
            PanelColor::Enemy
        },
        authority: authority_label(tags),
        active: tags.current_player,
    }
}

/// What the state box shows for the two players.
pub fn game_state_label(user: &PlayerTags, enemy: &PlayerTags) -> (r: GameStateLabel)
    ensures
        r == spec_game_state_label(*user, *enemy),
{
    if user.current_player {
        GameStateLabel::Next(Side::User)
    } else if enemy.current_player {
        GameStateLabel::Next(Side::Enemy)
    } else if user.winner {
        GameStateLabel::Winner(Side::User)
    } else if enemy.winner {
        GameStateLabel::Winner(Side::Enemy)
    } else {
        GameStateLabel::Draw
    }
}

/// The panel of a new game from the players that belong to it. A game needs exactly two
/// players; the second one goes to the left when it is the logged-in user's, the first one
/// otherwise.
pub fn info_panel(players: &[PlayerTags]) -> (r: Option<InfoPanel>)
    ensures
        players@.len() != 2 ==> r is None,
        players@.len() == 2 ==> ({
            let (user, enemy) = if players@[1].current_user {
                (players@[1], players@[0])
            } else {
                (players@[0], players@[1])
            };
            r == Some(
                InfoPanel {
                    user: spec_panel_side(user),
                    enemy: spec_panel_side(enemy),
                    label: spec_game_state_label(user, enemy),
                },
            )
        }),
{
    if players.len() != 2 {
        return None;
    }
    let (user, enemy) = if players[1].current_user {
        (players[1], players[0])
    } else {
        (players[0], players[1])
    };
    Some(
        InfoPanel {
            user: panel_side(&user),
            enemy: panel_side(&enemy),
            label: game_state_label(&user, &enemy),
        },
    )
}

/// When a turn starts, the panel of the player whose turn it is gets a border in its colour
/// and every other panel of the game loses its border.
pub fn turn_border(panel_position: PlayerPosition, color: PanelColor, turn_player: PlayerPosition) -> (r: Option<PanelColor>)
    ensures
        r == if panel_position == turn_player {
            Some(color)
        } else {
            None
        },
{
    if panel_position == turn_player {
        Some(color)
    } else {
        None
    }
}

} // verus!
