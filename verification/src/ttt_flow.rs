use vstd::prelude::*;
use vstd::string::StringExecFns;

use crate::action_queue::PendingActionQueue;
use crate::board::{index_at, BoardCell, GridIndex, PlayerPosition};
use crate::game_events::{ActionInitialized, GameAction, StateUpdated};
use crate::info_panel::PlayerTags;
use crate::game_info::FullGameInfo;
use crate::pending_action::{ConfirmationStatus, PendingAction};
use crate::tic_tac_toe::{spec_update, FinishedState, GameState, GameView, MoveError, TicTacToe};

verus! {

/// What happened to a confirmed action when it was applied to the game.
#[derive(Clone, Copy, Debug, PartialEq, Eq)]
pub enum ApplyOutcome {
    /// The action was applied; the game is now in `state`.
    Applied { player: PlayerPosition, action: GridIndex, state: GameState },
    /// The rules rejected the action; it is dropped.
    Dropped { player: PlayerPosition, action: GridIndex, error: MoveError },
}

/// Apply `actions` in order to the game `g`: the game reached and what happened to each action.
pub open spec fn apply_actions(g: GameView, actions: Seq<PendingAction<GridIndex>>) -> (
    GameView,
    Seq<ApplyOutcome>,
)
    decreases actions.len(),
{
    if actions.len() == 0 {
        (g, Seq::empty())
    } else {
        let (g1, out) = apply_actions(g, actions.drop_last());
        let a = actions.last();
        match spec_update(g1, a.player, a.action) {
            Ok(g2) => (
                g2,
                out.push(ApplyOutcome::Applied { player: a.player, action: a.action, state: g2.1 }),
            ),
            Err(e) => (
                g1,
                out.push(ApplyOutcome::Dropped { player: a.player, action: a.action, error: e }),
            ),
        }
    }
}

/// Apply every action of `actions` to `game`, in order.
fn apply_all(game: &mut TicTacToe, actions: &Vec<PendingAction<GridIndex>>) -> (r: Vec<
    ApplyOutcome,
>)
    ensures
        (final(game)@, r@) == apply_actions(old(game)@, actions@),
{
    let ghost g0 = game@;
    let mut out: Vec<ApplyOutcome> = Vec::new();
    let mut i: usize = 0;
    proof {
        assert(actions@.take(0) =~= Seq::<PendingAction<GridIndex>>::empty());
        assert(out@ =~= Seq::<ApplyOutcome>::empty());
    }
    while i < actions.len()
        invariant
            i <= actions@.len(),
            (game@, out@) == apply_actions(g0, actions@.take(i as int)),
        decreases actions@.len() - i,
    {
        let a = actions[i];
        proof {
            assert(actions@.take(i + 1).drop_last() =~= actions@.take(i as int));
            assert(actions@.take(i + 1).last() == a);
        }
        match game.update(a.player, a.action) {
            Ok(state) => {
                out.push(ApplyOutcome::Applied { player: a.player, action: a.action, state });
            },
            Err(error) => {
                out.push(ApplyOutcome::Dropped { player: a.player, action: a.action, error });
            },
        }
        i += 1;
    }
    assert(actions@.take(actions@.len() as int) =~= actions@);
    out
}

/// Number of confirmed actions at the head of `s`.
pub open spec fn confirmed_prefix_len(s: Seq<PendingAction<GridIndex>>, n: int) -> bool {
    &&& 0 <= n <= s.len()
    &&& forall|j: int| 0 <= j < n ==> (#[trigger] s[j]).spec_is_confirmed()
    &&& n < s.len() ==> !s[n].spec_is_confirmed()
}

/// Whenever an action is confirmed or the next action of the queue changed: take the run of
/// consecutive confirmed actions at the head of the queue, apply them to the game in order and
/// report what happened to each ([`ActionApplied`] with [`StateUpdated`], or [`ActionDropped`]).
/// The rest of the queue stays, a confirmed action behind a not confirmed one included.
pub fn apply_confirmed(
    game: &mut TicTacToe,
    queue: &mut PendingActionQueue<GridIndex>,
) -> (r: Vec<ApplyOutcome>)
    ensures
        r@.len() <= old(queue)@.len(),
        confirmed_prefix_len(old(queue)@, r@.len() as int),
        final(queue)@ == old(queue)@.skip(r@.len() as int),
        (final(game)@, r@) == apply_actions(old(game)@, old(queue)@.take(r@.len() as int)),
{
    let items = queue.as_slice();
    let n = items.len();
    let mut k: usize = 0;
    while k < n
        invariant
            k <= n,
            n == queue@.len(),
            items@ == queue@,
            forall|j: int| 0 <= j < k ==> (#[trigger] queue@[j]).spec_is_confirmed(),
        ensures
            k <= n,
            forall|j: int| 0 <= j < k ==> (#[trigger] queue@[j]).spec_is_confirmed(),
            k < n ==> !queue@[k as int].spec_is_confirmed(),
        decreases n - k,
    {
        if !items[k].is_confirmed() {
            break;
        }
        k += 1;
    }
    let mut prefix: Vec<PendingAction<GridIndex>> = Vec::new();
    let mut rest: Vec<PendingAction<GridIndex>> = Vec::new();
    let mut i: usize = 0;
    while i < n
        invariant
            k <= n,
            i <= n,
            n == queue@.len(),
            items@ == queue@,
            i <= k ==> prefix@ == queue@.take(i as int) && rest@.len() == 0,
            i > k ==> prefix@ == queue@.take(k as int) && rest@ == queue@.subrange(
                k as int,
                i as int,
            ),
        decreases n - i,
    {
        if i < k {
            prefix.push(items[i]);
            assert(prefix@ =~= queue@.take(i + 1));
        } else {
            rest.push(items[i]);
            assert(rest@ =~= queue@.subrange(k as int, i + 1));
        }
        i += 1;
    }
    proof {
        if k == n {
            assert(rest@ =~= queue@.skip(k as int));
        } else {
            assert(rest@ =~= queue@.skip(k as int));
        }
    }
    let ghost before = queue@;
    *queue = PendingActionQueue::from(rest);
    let ghost g0 = game@;
    let r = apply_all(game, &prefix);
    assert(r@.len() == k) by {
        lemma_apply_actions_len(g0, prefix@);
    }
    r
}

/// Applying actions reports one outcome per action.
pub proof fn lemma_apply_actions_len(g: GameView, actions: Seq<PendingAction<GridIndex>>)
    ensures
        apply_actions(g, actions).1.len() == actions.len(),
    decreases actions.len(),
{
    if actions.len() > 0 {
        lemma_apply_actions_len(g, actions.drop_last());
    }
}

/// Reason attached to an [`ActionDropped`] event for an action that the rules rejected.
pub fn dropped_reason(error: MoveError) -> (r: String)
    ensures
        r@ == "game update failed after confirmation: "@ + error.spec_message(),
{
    let message = error.message();
    "game update failed after confirmation: ".to_owned().concat(message.as_str())
}

/// The cells of a local board after synchronisation with the board of the server: every empty
/// local cell that the server has filled takes the server's value.
pub open spec fn synced_cell(local: BoardCell, server: BoardCell) -> BoardCell {
    if local.0 is None && server.0 is Some {
        server
    } else {
        local
    }
}

/// The actions that synchronisation applies within the first `n` cells, in row-major order.
pub open spec fn synced_actions(local: Seq<BoardCell>, server: Seq<BoardCell>, n: int) -> Seq<
    (PlayerPosition, GridIndex),
>
    decreases n,
{
    if n <= 0 {
        Seq::empty()
    } else {
        let prev = synced_actions(local, server, n - 1);
        if local[n - 1].0 is None && server[n - 1].0 is Some {
            prev.push((server[n - 1].0->0, index_at(n - 1)))
        } else {
            prev
        }
    }
}

/// Result of a synchronisation of a game with the server.
#[derive(Debug)]
pub struct SyncResult {
    /// One [`ActionApplied`] event per cell filled locally, in row-major order.
    pub applied: Vec<GameAction<GridIndex>>,
    /// The [`StateUpdated`] event, when at least one cell was filled.
    pub state_updated: Option<StateUpdated>,
}

/// Receive the game held by the server for the network game `game`: fill every empty local
/// cell that the server has filled, one [`ActionApplied`] event each, and when anything was
/// filled take the server's state and send [`StateUpdated`].
pub fn sync_with_server(game: u64, local: &mut TicTacToe, server: &FullGameInfo) -> (r: SyncResult)
    ensures
        final(local)@.0 == Seq::new(
            9,
            |i: int| synced_cell(old(local)@.0[i], server.board@[i]),
        ),
        r.applied@ == synced_actions(old(local)@.0, server.board@, 9).map_values(
            |p: (PlayerPosition, GridIndex)| (GameAction { game, player: p.0, action: p.1 }),
        ),
        r.applied@.len() == 0 ==> r.state_updated is None && final(local)@.1 == old(local)@.1,
        r.applied@.len() > 0 ==> r.state_updated == Some(
            (StateUpdated { game, state: server.info.state }),
        ) && final(local)@.1 == server.info.state,
{
    let ghost l0 = local@.0;
    let ghost s0 = server.board@;
    let ghost to_event = |p: (PlayerPosition, GridIndex)|
        (GameAction { game, player: p.0, action: p.1 });
    let _ = local.board().len();
    let _ = server.board.len();
    let mut applied: Vec<GameAction<GridIndex>> = Vec::new();
    let mut i: usize = 0;
    while i < 9
        invariant
            i <= 9,
            l0.len() == 9,
            s0.len() == 9,
            s0 == server.board@,
            local@.1 == old(local)@.1,
            local@.0.len() == 9,
            forall|j: int| 0 <= j < i ==> #[trigger] local@.0[j] == synced_cell(l0[j], s0[j]),
            forall|j: int| i <= j < 9 ==> #[trigger] local@.0[j] == l0[j],
            to_event == (|p: (PlayerPosition, GridIndex)|
                (GameAction { game, player: p.0, action: p.1 })),
            applied@ == synced_actions(l0, s0, i as int).map_values(to_event),
        decreases 9 - i,
    {
        let pos = GridIndex::new(i / 3, i % 3);
        assert(pos.flat() == i);
        let cell = server.board.get_flat(i);
        let local_cell = local.board().get_flat(i);
        match cell.0 {
            Some(player) => {
                if local_cell.is_none() {
                    local.set_cell(pos, cell);
                    applied.push(GameAction::new(game, player, pos));
                    assert(applied@ =~= synced_actions(l0, s0, i + 1).map_values(to_event));
                } else {
                    assert(applied@ =~= synced_actions(l0, s0, i + 1).map_values(to_event));
                }
            },
            None => {
                assert(applied@ =~= synced_actions(l0, s0, i + 1).map_values(to_event));
            },
        }
        i += 1;
    }
    assert(local@.0 =~= Seq::new(9, |i: int| synced_cell(l0[i], s0[i])));
    if applied.len() > 0 {
        local.set_state(server.info.state);
        SyncResult {
            applied,
            state_updated: Some(StateUpdated { game, state: server.info.state }),
        }
    } else {
        SyncResult { applied, state_updated: None }
    }
}

/// Receive the GetGame reply while the network game `network_game` (entity `game`) is played:
/// a reply about another game is dropped and changes nothing; otherwise the game is
/// synchronised with the server's board as [`sync_with_server`] does.
pub fn sync_reply(game: u64, network_game: u64, local: &mut TicTacToe, server: &FullGameInfo) -> (r: Option<SyncResult>)
    ensures
        server.info.id != network_game ==> r is None && final(local)@ == old(local)@,
        server.info.id == network_game ==> (r matches Some(res) && ({
            &&& final(local)@.0 == Seq::new(
                9,
                |i: int| synced_cell(old(local)@.0[i], server.board@[i]),
            )
            &&& res.applied@ == synced_actions(old(local)@.0, server.board@, 9).map_values(
                |p: (PlayerPosition, GridIndex)| (GameAction { game, player: p.0, action: p.1 }),
            )
            &&& res.applied@.len() == 0 ==> res.state_updated is None && final(local)@.1 == old(
                local,
            )@.1
            &&& res.applied@.len() > 0 ==> res.state_updated == Some(
                (StateUpdated { game, state: server.info.state }),
            ) && final(local)@.1 == server.info.state
        })),
{
    if server.info.id != network_game {
        return None;
    }
    Some(sync_with_server(game, local, server))
}

/// Which of the two players of a new game a tag goes to.
#[derive(Clone, Copy, Debug, PartialEq, Eq, Structural)]
pub enum Side {
    User,
    Enemy,
}

/// Positions of the user and the enemy in a new game, and who holds the turn or the win.
#[derive(Clone, Copy, Debug, PartialEq, Eq, Structural)]
pub struct PlayerRoles {
    pub user_position: PlayerPosition,
    pub enemy_position: PlayerPosition,
    /// The player that gets the [`CurrentPlayer`] tag.
    pub current: Option<Side>,
    /// The player that gets the [`Winner`] tag.
    pub winner: Option<Side>,
}

/// Side of the player at `position` in a game where the user holds `user` and the enemy
/// holds `enemy`.
pub open spec fn side_of(position: PlayerPosition, user: PlayerPosition, enemy: PlayerPosition) -> Option<Side> {
    if position == user {
        Some(Side::User)
    } else if position == enemy {
        Some(Side::Enemy)
    } else {
        None
    }
}

/// When a game entity is created: the user plays first (position 0) when `user_first`,
/// second otherwise; the state tells who holds the turn or who won.
pub fn player_roles(user_first: bool, state: GameState) -> (r: PlayerRoles)
    ensures
        r.user_position == if user_first {
            0u8
        } else {
            1u8
        },
        r.enemy_position == if user_first {
            1u8
        } else {
            0u8
        },
        r.current == match state {
            GameState::Turn(p) => side_of(p, r.user_position, r.enemy_position),
            _ => None,
        },
        r.winner == match state {
            GameState::Finished(FinishedState::Win(p)) => side_of(
                p,
                r.user_position,
                r.enemy_position,
            ),
            _ => None,
        },
{
    let (user_position, enemy_position): (PlayerPosition, PlayerPosition) = if user_first {
        (0, 1)
    } else {
        (1, 0)
    };
    let side = |p: PlayerPosition| -> (s: Option<Side>)
        ensures
            s == side_of(p, user_position, enemy_position),
        {
            if p == user_position {
                Some(Side::User)
            } else if p == enemy_position {
                Some(Side::Enemy)
            } else {
                None
            }
        };
    let (current, winner) = match state {
        GameState::Turn(p) => (side(p), None),
        GameState::Finished(FinishedState::Win(p)) => (None, side(p)),
        _ => (None, None),
    };
    PlayerRoles { user_position, enemy_position, current, winner }
}

/// Insert the pending action of an [`ActionInitialized`] event when the game has none: it must
/// be confirmed by the server in a network game, and is confirmed at once in a local game.
/// Returns whether it was inserted; a game that already has a pending action is left as it is.
pub fn insert_pending_action(
    queue: &mut PendingActionQueue<GridIndex>,
    network_game: bool,
    player: PlayerPosition,
    action: GridIndex,
) -> (r: bool)
    ensures
        r == (old(queue)@.len() == 0),
        r ==> final(queue)@ == seq![
            PendingAction {
                player,
                action,
                status: if network_game {
                    ConfirmationStatus::NotConfirmed
                } else {
                    ConfirmationStatus::Confirmed
                },
            },
        ],
        !r ==> final(queue)@ == old(queue)@,
{
    if !queue.is_empty() {
        return false;
    }
    let pending = if network_game {
        PendingAction::new_unconfirmed(player, action)
    } else {
        PendingAction::new_confirmed(player, action)
    };
    queue.push(pending);
    assert(queue@ =~= seq![pending]);
    true
}

/// A player that may press a tile: it holds the turn and belongs to the logged-in user.
pub open spec fn is_acting_user(t: PlayerTags) -> bool {
    t.current_player && t.current_user
}

/// Position of the first player among the first `n` of `players` that may press a tile.
pub open spec fn acting_user_in(players: Seq<PlayerTags>, n: int) -> Option<PlayerPosition>
    decreases n,
{
    if n <= 0 {
        None
    } else {
        match acting_user_in(players, n - 1) {
            Some(p) => Some(p),
            None => if is_acting_user(players[n - 1]) {
                Some(players[n - 1].position)
            } else {
                None
            },
        }
    }
}

/// Receive a press of the tile `pos` on the board of the game `game_entity`, whose players
/// carry the tags `players`: the press becomes an [`ActionInitialized`] event for the first
/// player that holds the turn and belongs to the logged-in user, when the game is not finished
/// and the cell is empty; otherwise nothing happens. The game is not changed.
pub fn tile_press_action(
    game_entity: u64,
    game: &TicTacToe,
    players: &[PlayerTags],
    pos: GridIndex,
) -> (r: Option<ActionInitialized<GridIndex>>)
    requires
        pos.is_valid(),
    ensures
        r == if game@.1 is Turn && game@.0[pos.flat()].0 is None {
            match acting_user_in(players@, players@.len() as int) {
                Some(p) => Some(GameAction { game: game_entity, player: p, action: pos }),
                None => None,
            }
        } else {
            None
        },
{
    let open = match game.state() {
        GameState::Finished(_) => false,
        GameState::Turn(_) => game.board().get(pos).is_none(),
    };
    if !open {
        return None;
    }
    let mut found: Option<PlayerPosition> = None;
    let mut i: usize = 0;
    while i < players.len()
        invariant
            i <= players@.len(),
            found == acting_user_in(players@, i as int),
        decreases players@.len() - i,
    {
        if found.is_none() && players[i].current_player && players[i].current_user {
            found = Some(players[i].position);
        }
        i += 1;
    }
    match found {
        Some(p) => Some(GameAction::new(game_entity, p, pos)),
        None => None,
    }
}

/// Next step of a one-time sprite animation when its frame timer fires.
#[derive(Clone, Copy, Debug, PartialEq, Eq, Structural)]
pub enum AnimationStep {
    /// Show the frame at this index.
    Advance(usize),
    /// The last frame was shown: remove the animation.
    Finish,
}

/// The win animation moves to the next frame until it has shown the last one.
pub fn animation_step(index: usize, last_sprite_index: usize) -> (r: AnimationStep)
    ensures
        r == if index < last_sprite_index {
            AnimationStep::Advance((index + 1) as usize)
        } else {
            AnimationStep::Finish
        },
{
    if index < last_sprite_index {
        AnimationStep::Advance(index + 1)
    } else {
        AnimationStep::Finish
    }
}

/// Sign drawn for a player: X for the first player, O for the second.
#[derive(Clone, Copy, Debug, PartialEq, Eq, Structural)]
pub enum PlayerMark {
    X,
    O,
}

/// The sign of `player`, if the player has one.
pub fn player_mark(player: PlayerPosition) -> (r: Option<PlayerMark>)
    ensures
        r == if player == 0 {
            Some(PlayerMark::X)
        } else if player == 1 {
            Some(PlayerMark::O)
        } else {
            None
        },
{
    if player == 0 {
        Some(PlayerMark::X)
    } else if player == 1 {
        Some(PlayerMark::O)
    } else {
        None
    }
}

/// Synchronising a board that was already synchronised with the same server board changes
/// nothing and applies no action.
pub proof fn law_sync_idempotent(local: Seq<BoardCell>, server: Seq<BoardCell>)
    requires
        local.len() == 9,
        server.len() == 9,
    ensures
        ({
            let synced = Seq::new(9, |i: int| synced_cell(local[i], server[i]));
            &&& Seq::new(9, |i: int| synced_cell(synced[i], server[i])) == synced
            &&& synced_actions(synced, server, 9) == Seq::<(PlayerPosition, GridIndex)>::empty()
        }),
{
    let synced = Seq::new(9, |i: int| synced_cell(local[i], server[i]));
    assert(Seq::new(9, |i: int| synced_cell(synced[i], server[i])) =~= synced);
    lemma_synced_actions_none(synced, server, 9);
}

/// No action is applied on cells that the local board already agrees on.
proof fn lemma_synced_actions_none(local: Seq<BoardCell>, server: Seq<BoardCell>, n: int)
    requires
        0 <= n <= local.len(),
        n <= server.len(),
        forall|i: int| 0 <= i < n ==> !((#[trigger] local[i]).0 is None && server[i].0 is Some),
    ensures
        synced_actions(local, server, n) == Seq::<(PlayerPosition, GridIndex)>::empty(),
    decreases n,
{
    if n > 0 {
        lemma_synced_actions_none(local, server, n - 1);
    }
}

/// The player chosen for a tile press among the first `n` players is the position of a player
/// that holds the turn and belongs to the logged-in user, the first such; there is none exactly
/// when no such player is listed.
pub proof fn law_tile_press_acts_for_the_users_player(players: Seq<PlayerTags>, n: int)
    requires
        0 <= n <= players.len(),
    ensures
        acting_user_in(players, n) matches Some(p) ==> exists|i: int|
            0 <= i < n && (#[trigger] players[i]).position == p && players[i].current_player
                && players[i].current_user && forall|j: int|
                0 <= j < i ==> !((#[trigger] players[j]).current_player
                    && players[j].current_user),
        acting_user_in(players, n) is None ==> forall|i: int|
            0 <= i < n ==> !((#[trigger] players[i]).current_player && players[i].current_user),
    decreases n,
{
    if n > 0 {
        law_tile_press_acts_for_the_users_player(players, n - 1);
        if acting_user_in(players, n - 1) is None && players[n - 1].current_player
            && players[n - 1].current_user {
            assert(players[n - 1].position == acting_user_in(players, n)->0);
        }
    }
}

/// Synchronisation applies exactly the cells, in row-major order, that are empty locally and
/// filled on the server: each applied action names a valid cell among the first `n`, empty in
/// the local board, that the server holds for the action's player; every such cell is applied.
pub proof fn law_sync_applies_the_cells_it_fills(
    local: Seq<BoardCell>,
    server: Seq<BoardCell>,
    n: int,
)
    requires
        local.len() == 9,
        server.len() == 9,
        0 <= n <= 9,
    ensures
        forall|k: int|
            0 <= k < synced_actions(local, server, n).len() ==> {
                let (p, a) = #[trigger] synced_actions(local, server, n)[k];
                &&& a.is_valid()
                &&& 0 <= a.flat() < n
                &&& local[a.flat()].0 is None
                &&& server[a.flat()] == BoardCell(Some(p))
            },
        forall|j: int, k: int|
            0 <= j < k < synced_actions(local, server, n).len() ==> (#[trigger] synced_actions(
                local,
                server,
                n,
            )[j]).1.flat() < (#[trigger] synced_actions(local, server, n)[k]).1.flat(),
        forall|i: int|
            0 <= i < n && (#[trigger] local[i]).0 is None && server[i].0 is Some ==> exists|k: int|
                0 <= k < synced_actions(local, server, n).len() && (#[trigger] synced_actions(
                    local,
                    server,
                    n,
                )[k]) == (server[i].0->0, index_at(i)),
    decreases n,
{
    if n > 0 {
        law_sync_applies_the_cells_it_fills(local, server, n - 1);
        let prev = synced_actions(local, server, n - 1);
        let cur = synced_actions(local, server, n);
        let a = index_at(n - 1);
        assert(a.flat() == n - 1 && a.is_valid());
        if local[n - 1].0 is None && server[n - 1].0 is Some {
            assert(cur == prev.push((server[n - 1].0->0, a)));
            assert forall|i: int|
                0 <= i < n && (#[trigger] local[i]).0 is None && server[i].0 is Some implies exists|
                k: int|
                0 <= k < cur.len() && (#[trigger] cur[k]) == (server[i].0->0, index_at(i)) by {
                if i == n - 1 {
                    assert(cur[prev.len() as int] == (server[i].0->0, index_at(i)));
                } else {
                    let k = choose|k: int|
                        0 <= k < prev.len() && (#[trigger] prev[k]) == (
                            server[i].0->0,
                            index_at(i),
                        );
                    assert(cur[k] == prev[k]);
                }
            }
        } else {
            assert(cur == prev);
        }
    }
}

} // verus!
