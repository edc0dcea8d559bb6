use vstd::prelude::*;

use crate::action_queue::{
    confirmed_latest, reverted_single, PendingActionQueue, ServerConfirmation,
};
use crate::board::PlayerPosition;
use crate::game_events::{
    ActionConfirmationFailed, ActionConfirmed, ActionEnqueued, ActionInitialized,
    ActionStatusRevertPolicy, GameAction, SessionActionReadyToSend, SessionActionSendFailed,
    SessionAction, StateEvent, StateUpdated,
};
use crate::pending_action::{reverted_all, ConfirmationStatus, PendingAction};
use crate::small_lists::{
    entity_counts, entity_counts_get, entity_counts_len, entity_counts_new, entity_counts_push,
    entity_counts_set, entity_list, entity_list_contains, entity_list_new, entity_list_push,
};
use crate::board::{has_won, is_full, GridIndex};
use crate::tic_tac_toe::{next_player, spec_update, FinishedState, GameState, GameView};

verus! {

/// The entities of `s` in the order of their first occurrence, each once.
pub open spec fn first_occurrences(s: Seq<u64>) -> Seq<u64>
    decreases s.len(),
{
    if s.len() == 0 {
        s
    } else {
        let d = first_occurrences(s.drop_last());
        if d.contains(s.last()) {
            d
        } else {
            d.push(s.last())
        }
    }
}

/// How many times `e` occurs in `s`.
pub open spec fn occurrences(s: Seq<u64>, e: u64) -> nat
    decreases s.len(),
{
    if s.len() == 0 {
        0
    } else {
        occurrences(s.drop_last(), e) + if s.last() == e {
            1nat
        } else {
            0nat
        }
    }
}

/// Length of the action queue of entity `e`, when `e` has one (the first entry for `e`).
pub open spec fn queue_len_of(lens: Seq<(u64, usize)>, e: u64) -> Option<usize>
    decreases lens.len(),
{
    if lens.len() == 0 {
        None
    } else if lens[0].0 == e {
        Some(lens[0].1)
    } else {
        queue_len_of(lens.drop_first(), e)
    }
}

/// A game whose queue only received new actions has a new first action exactly when the
/// queue holds nothing but the new actions.
pub open spec fn next_changed_by_enqueue(
    dropped: Seq<u64>,
    enqueued: Seq<u64>,
    lens: Seq<(u64, usize)>,
    e: u64,
) -> bool {
    &&& !dropped.contains(e)
    &&& queue_len_of(lens, e) matches Some(n) && n == occurrences(enqueued, e)
}

/// Games whose first pending action changed: every game that dropped an action, then every
/// game that only enqueued actions into an otherwise empty queue; each game once.
pub open spec fn spec_next_changed(
    dropped: Seq<u64>,
    enqueued: Seq<u64>,
    lens: Seq<(u64, usize)>,
) -> Seq<u64> {
    first_occurrences(dropped) + first_occurrences(enqueued).filter(
        enqueue_signal(dropped, enqueued, lens),
    )
}

/// [`next_changed_by_enqueue`] as a predicate on games.
pub open spec fn enqueue_signal(
    dropped: Seq<u64>,
    enqueued: Seq<u64>,
    lens: Seq<(u64, usize)>,
) -> spec_fn(u64) -> bool {
    |e: u64| next_changed_by_enqueue(dropped, enqueued, lens, e)
}

/// `s.push(x)` contains `e` exactly when `s` does or `x` is `e`.
pub proof fn lemma_push_contains(s: Seq<u64>, x: u64, e: u64)
    ensures
        s.push(x).contains(e) <==> (s.contains(e) || x == e),
{
    if s.push(x).contains(e) {
        let i = choose|i: int| 0 <= i < s.push(x).len() && s.push(x)[i] == e;
        if i < s.len() {
            assert(s[i] == e);
        }
    }
    if s.contains(e) {
        let i = choose|i: int| 0 <= i < s.len() && s[i] == e;
        assert(s.push(x)[i] == e);
    }
    if x == e {
        assert(s.push(x)[s.len() as int] == e);
    }
}

/// An entity occurs in the first occurrences of `s` exactly when it occurs in `s`.
pub proof fn lemma_first_occurrences_contains(s: Seq<u64>, e: u64)
    ensures
        first_occurrences(s).contains(e) <==> s.contains(e),
    decreases s.len(),
{
    if s.len() > 0 {
        let dl = s.drop_last();
        lemma_first_occurrences_contains(dl, e);
        lemma_first_occurrences_contains(dl, s.last());
        assert(s =~= dl.push(s.last()));
        lemma_push_contains(dl, s.last(), e);
        let d = first_occurrences(dl);
        lemma_push_contains(d, s.last(), e);
    }
}

/// The first occurrences of `s` hold each entity once.
pub proof fn lemma_first_occurrences_unique(s: Seq<u64>)
    ensures
        first_occurrences(s).no_duplicates(),
    decreases s.len(),
{
    if s.len() > 0 {
        lemma_first_occurrences_unique(s.drop_last());
        let d = first_occurrences(s.drop_last());
        if !d.contains(s.last()) {
            let f = d.push(s.last());
            assert forall|i: int, j: int| 0 <= i < f.len() && 0 <= j < f.len() && i != j implies f[i]
                != f[j] by {
                if i < d.len() && j < d.len() {
                    assert(d[i] != d[j]);
                } else if i < d.len() {
                    assert(f[j] == s.last());
                    assert(f[i] == d[i]);
                } else {
                    assert(f[i] == s.last());
                    assert(f[j] == d[j]);
                }
            }
        }
    }
}

/// Length of the action queue of `e`, looked up in `lens`.
fn lookup_queue_len(lens: &Vec<(u64, usize)>, e: u64) -> (r: Option<usize>)
    ensures
        r == queue_len_of(lens@, e),
{
    let mut i: usize = 0;
    assert(lens@.skip(0) =~= lens@);
    while i < lens.len()
        invariant
            i <= lens@.len(),
            queue_len_of(lens@, e) == queue_len_of(lens@.skip(i as int), e),
        decreases lens@.len() - i,
    {
        let (entity, len) = lens[i];
        assert(lens@.skip(i as int)[0] == lens@[i as int]);
        if entity == e {
            return Some(len);
        }
        assert(lens@.skip(i as int).drop_first() =~= lens@.skip(i + 1));
        i += 1;
    }
    assert(lens@.skip(i as int).len() == 0);
    None
}

/// Receive the games of [`ActionDropped`] and [`ActionEnqueued`] events (in event order) and
/// the length of the action queue of each game; return the games whose first pending action
/// has changed, each once, for [`ActionQueueNextChanged`] events.
pub fn action_queue_next_changed(
    dropped: &Vec<u64>,
    enqueued: &Vec<u64>,
    queue_lens: &Vec<(u64, usize)>,
) -> (r: Vec<u64>)
    ensures
        r@ == spec_next_changed(dropped@, enqueued@, queue_lens@),
{
    let mut out: Vec<u64> = Vec::new();
    let mut dropped_set = entity_list_new();
    let mut i: usize = 0;
    while i < dropped.len()
        invariant
            i <= dropped@.len(),
            out@ == first_occurrences(dropped@.take(i as int)),
            entity_list(dropped_set) == out@,
        decreases dropped@.len() - i,
    {
        let e = dropped[i];
        assert(dropped@.take(i + 1).drop_last() =~= dropped@.take(i as int));
        if !entity_list_contains(&dropped_set, e) {
            out.push(e);
            entity_list_push(&mut dropped_set, e);
        }
        i += 1;
    }
    assert(dropped@.take(dropped@.len() as int) =~= dropped@);
    let ghost head = out@;
    let mut counts = entity_counts_new();
    let mut i: usize = 0;
    while i < enqueued.len()
        invariant
            i <= enqueued@.len(),
            entity_counts(counts).len() <= i,
            entity_counts(counts).map_values(|p: (u64, usize)| p.0) == first_occurrences(
                enqueued@.take(i as int),
            ),
            forall|j: int|
                0 <= j < entity_counts(counts).len() ==> #[trigger] entity_counts(counts)[j].1
                    == occurrences(enqueued@.take(i as int), entity_counts(counts)[j].0),
        decreases enqueued@.len() - i,
    {
        let e = enqueued[i];
        let ghost prefix = enqueued@.take(i as int);
        let ghost next = enqueued@.take(i + 1);
        assert(next.drop_last() =~= prefix);
        assert(next.last() == e);
        let ghost keys = entity_counts(counts).map_values(|p: (u64, usize)| p.0);
        let n = entity_counts_len(&counts);
        let mut j: usize = 0;
        let mut found = false;
        while j < n
            invariant_except_break
                !found,
            invariant
                j <= n,
                n == entity_counts(counts).len(),
                forall|k: int| 0 <= k < j ==> #[trigger] entity_counts(counts)[k].0 != e,
            ensures
                j <= n,
                n == entity_counts(counts).len(),
                found ==> j < n && entity_counts(counts)[j as int].0 == e,
                !found ==> forall|k: int| 0 <= k < n ==> #[trigger] entity_counts(counts)[k].0 != e,
            decreases n - j,
        {
            let (entity, _) = entity_counts_get(&counts, j);
            if entity == e {
                found = true;
                break;
            }
            j += 1;
        }
        if found {
            let (entity, c) = entity_counts_get(&counts, j);
            assert(keys[j as int] == e);
            assert(first_occurrences(prefix).contains(e));
            assert(c == occurrences(prefix, e));
            assert(c <= i) by {
                lemma_occurrences_bound(prefix, e);
            }
            let ghost before = entity_counts(counts);
            entity_counts_set(&mut counts, j, (entity, c + 1));
            assert(entity_counts(counts).map_values(|p: (u64, usize)| p.0) =~= keys);
            proof {
                lemma_first_occurrences_unique(prefix);
            }
            assert forall|k: int| 0 <= k < entity_counts(counts).len() implies #[trigger] entity_counts(
                counts,
            )[k].1 == occurrences(next, entity_counts(counts)[k].0) by {
                assert(before[k].1 == occurrences(prefix, before[k].0));
                assert(keys[k] == before[k].0);
                if k != j {
                    assert(keys[k] != keys[j as int]);
                }
            }
        } else {
            assert(!first_occurrences(prefix).contains(e)) by {
                if first_occurrences(prefix).contains(e) {
                    let k = choose|k: int| 0 <= k < keys.len() && keys[k] == e;
                    assert(entity_counts(counts)[k].0 == e);
                }
            }
            let ghost before = entity_counts(counts);
            entity_counts_push(&mut counts, (e, 1));
            assert(entity_counts(counts).map_values(|p: (u64, usize)| p.0) =~= keys.push(e));
            assert forall|k: int| 0 <= k < entity_counts(counts).len() implies #[trigger] entity_counts(
                counts,
            )[k].1 == occurrences(next, entity_counts(counts)[k].0) by {
                if k < before.len() {
                    assert(before[k].1 == occurrences(prefix, before[k].0));
                    assert(before[k].0 == keys[k]);
                } else {
                    assert(occurrences(prefix, e) == 0) by {
                        lemma_first_occurrences_contains(prefix, e);
                        lemma_occurrences_absent(prefix, e);
                    }
                }
            }
        }
        i += 1;
    }
    assert(enqueued@.take(enqueued@.len() as int) =~= enqueued@);
    let ghost keys = first_occurrences(enqueued@);
    let ghost pred = enqueue_signal(dropped@, enqueued@, queue_lens@);
    let n = entity_counts_len(&counts);
    let mut j: usize = 0;
    proof {
        reveal(Seq::filter);
        assert(keys.take(0) =~= Seq::<u64>::empty());
        assert(out@ =~= head + keys.take(0).filter(pred));
    }
    while j < n
        invariant
            j <= n,
            n == entity_counts(counts).len(),
            entity_counts(counts).map_values(|p: (u64, usize)| p.0) == keys,
            forall|k: int|
                0 <= k < entity_counts(counts).len() ==> #[trigger] entity_counts(counts)[k].1
                    == occurrences(enqueued@, entity_counts(counts)[k].0),
            entity_list(dropped_set) == head,
            head == first_occurrences(dropped@),
            pred == enqueue_signal(dropped@, enqueued@, queue_lens@),
            out@ == head + keys.take(j as int).filter(pred),
        decreases n - j,
    {
        let (e, c) = entity_counts_get(&counts, j);
        assert(keys[j as int] == e);
        assert(c == occurrences(enqueued@, e));
        proof {
            reveal(Seq::filter);
            assert(keys.take(j + 1).drop_last() =~= keys.take(j as int));
            assert(keys.take(j + 1).last() == e);
            lemma_first_occurrences_contains(dropped@, e);
        }
        let ghost prev = out@;
        let in_dropped = entity_list_contains(&dropped_set, e);
        let signal = if in_dropped {
            false
        } else {
            match lookup_queue_len(queue_lens, e) {
                Some(len) => len == c,
                None => false,
            }
        };
        assert(in_dropped == dropped@.contains(e));
        assert(pred(e) == next_changed_by_enqueue(dropped@, enqueued@, queue_lens@, e));
        assert(signal == next_changed_by_enqueue(dropped@, enqueued@, queue_lens@, e));
        if signal {
            out.push(e);
            assert(out@ =~= head + keys.take(j as int).filter(pred).push(e));
        }
        j += 1;
    }
    proof {
        assert(keys.take(n as int) =~= keys);
    }
    out
}

/// An entity absent from `s` occurs zero times in it.
pub proof fn lemma_occurrences_absent(s: Seq<u64>, e: u64)
    requires
        !s.contains(e),
    ensures
        occurrences(s, e) == 0,
    decreases s.len(),
{
    if s.len() > 0 {
        assert(!s.drop_last().contains(e)) by {
            if s.drop_last().contains(e) {
                let i = choose|i: int| 0 <= i < s.drop_last().len() && s.drop_last()[i] == e;
                assert(s[i] == e);
            }
        }
        lemma_occurrences_absent(s.drop_last(), e);
    }
}

/// An entity occurs at most as many times as the sequence is long.
pub proof fn lemma_occurrences_bound(s: Seq<u64>, e: u64)
    ensures
        occurrences(s, e) <= s.len(),
    decreases s.len(),
{
    if s.len() > 0 {
        lemma_occurrences_bound(s.drop_last(), e);
    }
}

/// Failure events for closed sessions and failed sends: every closed session reverts all its
/// waiting actions; a failed send reverts its single action unless its session was closed too.
pub open spec fn spec_confirmation_failed<T>(
    closed: Seq<u64>,
    send_failed: Seq<SessionActionSendFailed<T>>,
) -> Seq<ActionConfirmationFailed<T>> {
    closed.map_values(
        |e: u64| ActionConfirmationFailed { game: e, revert_policy: ActionStatusRevertPolicy::All },
    ) + send_failed.filter(|f: SessionActionSendFailed<T>| !closed.contains(f.session_entity)).map_values(
        |f: SessionActionSendFailed<T>|
            ActionConfirmationFailed {
                game: f.session_entity,
                revert_policy: ActionStatusRevertPolicy::Single(f.action),
            },
    )
}

/// Receive the entities of [`SessionClosed`] events and the [`SessionActionSendFailed`]
/// events; return the [`ActionConfirmationFailed`] events to send, in that order.
/// When one entity has both events the failed send is ignored.
pub fn action_confirmation_failed<T: Copy>(
    closed: &Vec<u64>,
    send_failed: &Vec<SessionActionSendFailed<T>>,
) -> (r: Vec<ActionConfirmationFailed<T>>)
    ensures
        r@ == spec_confirmation_failed(closed@, send_failed@),
{
    let mut out: Vec<ActionConfirmationFailed<T>> = Vec::new();
    let mut closed_sessions = entity_list_new();
    let mut i: usize = 0;
    while i < closed.len()
        invariant
            i <= closed@.len(),
            entity_list(closed_sessions) == closed@.take(i as int),
            out@ == closed@.take(i as int).map_values(
                |e: u64|
                    (ActionConfirmationFailed::<T> {
                        game: e,
                        revert_policy: ActionStatusRevertPolicy::All,
                    }),
            ),
        decreases closed@.len() - i,
    {
        let e = closed[i];
        entity_list_push(&mut closed_sessions, e);
        out.push(ActionConfirmationFailed::revert_all(e));
        proof {
            assert(closed@.take(i + 1) =~= closed@.take(i as int).push(e));
            assert(out@ =~= closed@.take(i + 1).map_values(
                |e: u64|
                    ActionConfirmationFailed::<T> {
                        game: e,
                        revert_policy: ActionStatusRevertPolicy::All,
                    },
            ));
        }
        i += 1;
    }
    assert(closed@.take(closed@.len() as int) =~= closed@);
    let ghost head = out@;
    let ghost keep = |f: SessionActionSendFailed<T>| !closed@.contains(f.session_entity);
    let ghost to_event = |f: SessionActionSendFailed<T>|
        ActionConfirmationFailed {
            game: f.session_entity,
            revert_policy: ActionStatusRevertPolicy::Single(f.action),
        };
    let mut j: usize = 0;
    proof {
        reveal(Seq::filter);
        assert(send_failed@.take(0) =~= Seq::<SessionActionSendFailed<T>>::empty());
        assert(out@ =~= head + send_failed@.take(0).filter(keep).map_values(to_event));
    }
    while j < send_failed.len()
        invariant
            j <= send_failed@.len(),
            entity_list(closed_sessions) == closed@,
            keep == (|f: SessionActionSendFailed<T>| !closed@.contains(f.session_entity)),
            to_event == (|f: SessionActionSendFailed<T>|
                (ActionConfirmationFailed {
                    game: f.session_entity,
                    revert_policy: ActionStatusRevertPolicy::Single(f.action),
                })),
            out@ == head + send_failed@.take(j as int).filter(keep).map_values(to_event),
        decreases send_failed@.len() - j,
    {
        let f = send_failed[j];
        proof {
            reveal(Seq::filter);
            assert(send_failed@.take(j + 1).drop_last() =~= send_failed@.take(j as int));
            assert(send_failed@.take(j + 1).last() == f);
        }
        if !entity_list_contains(&closed_sessions, f.session_entity) {
            out.push(ActionConfirmationFailed::revert_single(f.session_entity, f.action));
            assert(out@ =~= head + send_failed@.take(j + 1).filter(keep).map_values(to_event));
        } else {
            assert(out@ =~= head + send_failed@.take(j + 1).filter(keep).map_values(to_event));
        }
        j += 1;
    }
    assert(send_failed@.take(send_failed@.len() as int) =~= send_failed@);
    out
}

/// For an [`ActionConfirmationFailed`] event, set the status of the action or actions named by
/// its revert policy back to `NotConfirmed`.
pub fn revert_action_status<T: PartialEq>(
    queue: &mut PendingActionQueue<T>,
    policy: &ActionStatusRevertPolicy<T>,
)
    ensures
        match *policy {
            ActionStatusRevertPolicy::All => final(queue)@ == reverted_all(old(queue)@),
            ActionStatusRevertPolicy::Single(action) => reverted_single(
                old(queue)@,
                final(queue)@,
                action,
            ),
        },
{
    match policy {
        ActionStatusRevertPolicy::All => queue.revert_waiting_all(),
        ActionStatusRevertPolicy::Single(action) => queue.revert_waiting_single(action),
    }
}

/// What an action received from the server does to the action queue.
#[derive(Clone, Copy, Debug, PartialEq, Eq)]
pub enum ServerUpdate<T> {
    /// The action of the current user at the head of the queue is confirmed.
    OwnConfirmed(ActionConfirmed<T>),
    /// The action of the current user could not be matched with the head of the queue.
    OwnRejected(ServerConfirmation),
    /// An action of another player was added to the queue, already confirmed.
    ForeignEnqueued { enqueued: ActionEnqueued<T>, confirmed: ActionConfirmed<T> },
}

/// Receive an action executed by the server for the game `session`. If it was made by the
/// current user (`by_current_user`), it confirms the head of the queue; otherwise it is pushed,
/// confirmed, to the queue.
pub fn handle_action_from_server<T: Copy>(
    queue: &mut PendingActionQueue<T>,
    session: u64,
    by_current_user: bool,
    player: PlayerPosition,
    action: T,
) -> (r: ServerUpdate<T>)
    ensures
        by_current_user ==> match r {
            ServerUpdate::OwnConfirmed(ev) => ev == (GameAction { game: session, player, action })
                && old(queue)@.len() > 0 && old(queue)@[0].spec_is_waiting_confirmation() && old(
                queue,
            )@[0].player == player && final(queue)@ == old(queue)@.update(
                0,
                old(queue)@[0].with_status(ConfirmationStatus::Confirmed),
            ),
            ServerUpdate::OwnRejected(reason) => reason != ServerConfirmation::Confirmed
                && !(old(queue)@.len() > 0 && old(queue)@[0].spec_is_waiting_confirmation() && old(
                queue,
            )@[0].player == player) && final(queue)@ == old(queue)@,
            ServerUpdate::ForeignEnqueued { .. } => false,
        },
        !by_current_user ==> r == (ServerUpdate::ForeignEnqueued {
            enqueued: GameAction { game: session, player, action },
            confirmed: GameAction { game: session, player, action },
        }) && final(queue)@ == old(queue)@.push(
            (PendingAction { player, action, status: ConfirmationStatus::Confirmed }),
        ),
{
    if by_current_user {
        match queue.confirm_next(player) {
            ServerConfirmation::Confirmed => ServerUpdate::OwnConfirmed(
                GameAction::new(session, player, action),
            ),
            other => ServerUpdate::OwnRejected(other),
        }
    } else {
        queue.push(PendingAction::new_confirmed(player, action));
        ServerUpdate::ForeignEnqueued {
            enqueued: GameAction::new(session, player, action),
            confirmed: GameAction::new(session, player, action),
        }
    }
}

/// Receive an [`ActionInitialized`] event: insert the action, not confirmed, at the end of the
/// queue and return the [`ActionEnqueued`] event.
pub fn create_pending_action<T: Copy>(
    queue: &mut PendingActionQueue<T>,
    event: &ActionInitialized<T>,
) -> (r: ActionEnqueued<T>)
    ensures
        final(queue)@ == old(queue)@.push(
            (PendingAction {
                player: event.player,
                action: event.action,
                status: ConfirmationStatus::NotConfirmed,
            }),
        ),
        r == *event,
{
    queue.push(PendingAction::new_unconfirmed(event.player, event.action));
    GameAction::new(event.game, event.player, event.action)
}

/// After an action is enqueued in a local game, confirm the run of not confirmed actions at
/// the end of the queue and return one [`ActionConfirmed`] event for each, in queue order.
pub fn confirm_local_game_action<T: Copy>(queue: &mut PendingActionQueue<T>, game: u64) -> (r: Vec<
    ActionConfirmed<T>,
>)
    ensures
        confirmed_latest(old(queue)@, final(queue)@, r@.len() as int),
        forall|i: int|
            0 <= i < r@.len() ==> #[trigger] r@[i] == (GameAction {
                game,
                player: old(queue)@[old(queue)@.len() - r@.len() + i].player,
                action: old(queue)@[old(queue)@.len() - r@.len() + i].action,
            }),
{
    let confirmed = queue.confirm_latest();
    let mut out: Vec<ActionConfirmed<T>> = Vec::new();
    let mut i: usize = 0;
    while i < confirmed.len()
        invariant
            i <= confirmed@.len(),
            out@.len() == i,
            forall|k: int|
                0 <= k < i ==> #[trigger] out@[k] == (GameAction {
                    game,
                    player: confirmed@[k].player,
                    action: confirmed@[k].action,
                }),
        decreases confirmed@.len() - i,
    {
        let a = confirmed[i];
        out.push(GameAction::new(game, a.player, a.action));
        i += 1;
    }
    proof {
        assert forall|k: int| 0 <= k < out@.len() implies #[trigger] out@[k] == GameAction {
            game,
            player: old(queue)@[old(queue)@.len() - out@.len() + k].player,
            action: old(queue)@[old(queue)@.len() - out@.len() + k].action,
        } by {
            let j = old(queue)@.len() - out@.len() + k;
            assert(confirmed@[k] == queue@[j]);
        }
    }
    out
}

/// When the head of the queue of a network game may be sent, mark it as waiting for
/// confirmation and return the [`SessionActionReadyToSend`] event for it.
pub fn send_pending_action<T: Copy>(queue: &mut PendingActionQueue<T>, game: u64) -> (r: Option<
    SessionActionReadyToSend<T>,
>)
    ensures
        old(queue)@.len() > 0 && old(queue)@[0].spec_is_not_confirmed() ==> r == Some(
            (SessionAction { session_entity: game, action: old(queue)@[0].action }),
        ) && final(queue)@ == old(queue)@.update(
            0,
            old(queue)@[0].with_status(ConfirmationStatus::WaitingConfirmation),
        ),
        !(old(queue)@.len() > 0 && old(queue)@[0].spec_is_not_confirmed()) ==> r is None
            && final(queue)@ == old(queue)@,
{
    match queue.take_next_to_send() {
        Some(action) => Some(SessionAction::new(game, action)),
        None => None,
    }
}

/// Event announced by a new game state.
pub open spec fn spec_state_event(event: StateUpdated) -> StateEvent {
    match event.state {
        GameState::Turn(p) => StateEvent::TurnStart { game: event.game, player: p },
        GameState::Finished(FinishedState::Win(p)) => StateEvent::PlayerWon {
            game: event.game,
            player: p,
        },
        GameState::Finished(FinishedState::Draw) => StateEvent::Draw { game: event.game },
    }
}

/// Receive a [`StateUpdated`] event and return the [`TurnStart`], [`PlayerWon`] or [`Draw`]
/// event that the new state announces.
pub fn handle_state_updated(event: &StateUpdated) -> (r: StateEvent)
    ensures
        r == spec_state_event(*event),
{
    match event.state {
        GameState::Turn(p) => StateEvent::TurnStart { game: event.game, player: p },
        GameState::Finished(FinishedState::Win(p)) => StateEvent::PlayerWon {
            game: event.game,
            player: p,
        },
        GameState::Finished(FinishedState::Draw) => StateEvent::Draw { game: event.game },
    }
}

/// Whether the player managed by user `user` belongs to the user that is now logged in.
pub fn is_current_user(new_user_id: Option<u64>, user: u64) -> (r: bool)
    ensures
        r == (new_user_id == Some(user)),
{
    match new_user_id {
        Some(id) => id == user,
        None => false,
    }
}

/// Whether a network game whose players are managed by `player_users` belongs to none of them
/// once the user id changed to `new_user_id`; such games are despawned.
pub fn is_foreign_game(new_user_id: Option<u64>, player_users: &Vec<u64>) -> (r: bool)
    ensures
        r == forall|i: int| 0 <= i < player_users@.len() ==> new_user_id != Some(
            #[trigger] player_users@[i],
        ),
{
    let mut i: usize = 0;
    while i < player_users.len()
        invariant
            i <= player_users@.len(),
            forall|k: int| 0 <= k < i ==> new_user_id != Some(#[trigger] player_users@[k]),
        decreases player_users@.len() - i,
    {
        if is_current_user(new_user_id, player_users[i]) {
            return false;
        }
        i += 1;
    }
    true
}

/// Whether a game the user left is despawned: a local game always, a network game only
/// once it is finished.
pub fn clear_on_exit(is_finished_game: bool, is_network_game: bool) -> (r: bool)
    ensures
        r == (!is_network_game || is_finished_game),
{
    !is_network_game || (is_network_game && is_finished_game)
}

/// Games that become finished: those of the [`Draw`] events, then those of the [`PlayerWon`]
/// events.
pub fn set_game_finished(draws: &Vec<u64>, wins: &Vec<u64>) -> (r: Vec<u64>)
    ensures
        r@ == draws@ + wins@,
{
    let mut out: Vec<u64> = Vec::new();
    let mut i: usize = 0;
    while i < draws.len()
        invariant
            i <= draws@.len(),
            out@ == draws@.take(i as int),
        decreases draws@.len() - i,
    {
        out.push(draws[i]);
        assert(out@ =~= draws@.take(i + 1));
        i += 1;
    }
    let mut j: usize = 0;
    while j < wins.len()
        invariant
            j <= wins@.len(),
            i == draws@.len(),
            out@ == draws@.take(i as int) + wins@.take(j as int),
        decreases wins@.len() - j,
    {
        out.push(wins[j]);
        assert(out@ =~= draws@.take(i as int) + wins@.take(j + 1));
        j += 1;
    }
    assert(draws@.take(i as int) =~= draws@);
    assert(wins@.take(j as int) =~= wins@);
    out
}

/// Filtering keeps a sequence free of duplicates.
pub proof fn lemma_filter_no_duplicates(s: Seq<u64>, pred: spec_fn(u64) -> bool)
    requires
        s.no_duplicates(),
    ensures
        s.filter(pred).no_duplicates(),
    decreases s.len(),
{
    reveal(Seq::filter);
    if s.len() > 0 {
        let d = s.drop_last();
        assert(d.no_duplicates()) by {
            assert forall|i: int, j: int| 0 <= i < d.len() && 0 <= j < d.len() && i != j implies d[i]
                != d[j] by {
                assert(s[i] == d[i] && s[j] == d[j]);
            }
        }
        lemma_filter_no_duplicates(d, pred);
        if pred(s.last()) {
            let f = d.filter(pred);
            assert(!f.contains(s.last())) by {
                if f.contains(s.last()) {
                    d.lemma_filter_contains_rev(pred, s.last());
                    let i = choose|i: int| 0 <= i < d.len() && d[i] == s.last();
                    assert(s[i] == s[s.len() - 1]);
                }
            }
            let g = f.push(s.last());
            assert forall|i: int, j: int| 0 <= i < g.len() && 0 <= j < g.len() && i != j implies g[i]
                != g[j] by {
                if i < f.len() && j < f.len() {
                    assert(g[i] == f[i] && g[j] == f[j]);
                } else if i < f.len() {
                    assert(g[i] == f[i]);
                } else {
                    assert(g[j] == f[j]);
                }
            }
        }
    }
}

/// Each game is announced at most once by [`action_queue_next_changed`], however many
/// actions it dropped or enqueued.
pub proof fn law_next_changed_once(dropped: Seq<u64>, enqueued: Seq<u64>, lens: Seq<(u64, usize)>)
    ensures
        spec_next_changed(dropped, enqueued, lens).no_duplicates(),
{
    let a = first_occurrences(dropped);
    let pred = enqueue_signal(dropped, enqueued, lens);
    let b = first_occurrences(enqueued).filter(pred);
    lemma_first_occurrences_unique(dropped);
    lemma_first_occurrences_unique(enqueued);
    lemma_filter_no_duplicates(first_occurrences(enqueued), pred);
    assert forall|i: int, j: int| 0 <= i < a.len() && 0 <= j < b.len() implies a[i] != b[j] by {
        first_occurrences(enqueued).lemma_filter_pred(pred, j);
        lemma_first_occurrences_contains(dropped, b[j]);
        if a[i] == b[j] {
            assert(a.contains(b[j]));
        }
    }
    vstd::seq_lib::lemma_no_dup_in_concat(a, b);
}

/// A closed session takes precedence: a failure event that reverts a single action never
/// concerns a session that was closed.
pub proof fn law_closed_session_reverts_all<T>(
    closed: Seq<u64>,
    send_failed: Seq<SessionActionSendFailed<T>>,
)
    ensures
        forall|i: int|
            0 <= i < spec_confirmation_failed(closed, send_failed).len() && (#[trigger] spec_confirmation_failed(
                closed,
                send_failed,
            )[i]).revert_policy is Single ==> !closed.contains(
                spec_confirmation_failed(closed, send_failed)[i].game,
            ),
        forall|i: int|
            0 <= i < closed.len() ==> #[trigger] spec_confirmation_failed(closed, send_failed)[i]
                == (ActionConfirmationFailed::<T> {
                game: closed[i],
                revert_policy: ActionStatusRevertPolicy::All,
            }),
{
    let keep = |f: SessionActionSendFailed<T>| !closed.contains(f.session_entity);
    let kept = send_failed.filter(keep);
    let r = spec_confirmation_failed(closed, send_failed);
    assert forall|i: int|
        0 <= i < r.len() && (#[trigger] r[i]).revert_policy is Single implies !closed.contains(
        r[i].game,
    ) by {
        if i >= closed.len() {
            let j = i - closed.len();
            send_failed.lemma_filter_pred(keep, j);
            assert(r[i].game == kept[j].session_entity);
        }
    }
}

/// The event announced for a state names the game of the update and the player of the state:
/// the winner for a win, the player whose turn starts for a turn; a draw names no player.
pub proof fn law_state_event_names_the_player(event: StateUpdated)
    ensures
        event.state matches GameState::Finished(FinishedState::Win(p)) ==> spec_state_event(event)
            == (StateEvent::PlayerWon { game: event.game, player: p }),
        event.state matches GameState::Turn(p) ==> spec_state_event(event) == (
        StateEvent::TurnStart { game: event.game, player: p }),
        event.state == GameState::Finished(FinishedState::Draw) ==> spec_state_event(event) == (
        StateEvent::Draw { game: event.game }),
{
}

/// After a legal move the announced event is the mover's win when the mover owns a line, a
/// draw when the board is full otherwise, and else the start of the other player's turn.
pub proof fn law_move_is_announced(
    game: u64,
    g: GameView,
    player: PlayerPosition,
    pos: GridIndex,
)
    requires
        spec_update(g, player, pos) is Ok,
    ensures
        ({
            let g2 = spec_update(g, player, pos)->Ok_0;
            let e = spec_state_event(StateUpdated { game, state: g2.1 });
            &&& has_won(g2.0, player) ==> e == (StateEvent::PlayerWon { game, player })
            &&& !has_won(g2.0, player) && is_full(g2.0) ==> e == (StateEvent::Draw { game })
            &&& !has_won(g2.0, player) && !is_full(g2.0) ==> e == (StateEvent::TurnStart {
                game,
                player: next_player(player),
            })
        }),
{
}

} // verus!
