use vstd::prelude::*;
use vstd::std_specs::cmp::PartialEqSpec;

use crate::board::PlayerPosition;
use crate::pending_action::{
    confirmed, revert_waiting, reverted_all, unconfirmed, unconfirmed_tail, ConfirmationStatus, PendingAction,
};

verus! {

/// The action of the first waiting element of `s` equal to `target` is at `i`.
pub open spec fn is_first_waiting_match<T: PartialEq>(
    s: Seq<PendingAction<T>>,
    target: T,
    i: int,
) -> bool {
    &&& 0 <= i < s.len()
    &&& s[i].spec_is_waiting_confirmation()
    &&& s[i].action.eq_spec(&target)
    &&& forall|j: int|
        0 <= j < i ==> !((#[trigger] s[j]).spec_is_waiting_confirmation() && s[j].action.eq_spec(
            &target,
        ))
}

/// `new` is `old` with the first waiting action equal to `target` set back to `NotConfirmed`.
/// Which actions equal `target` is decided by `T`'s `PartialEq`; when that impl does not obey
/// its specification, only the first two clauses are promised.
pub open spec fn reverted_single<T: PartialEq>(
    old: Seq<PendingAction<T>>,
    new: Seq<PendingAction<T>>,
    target: T,
) -> bool {
    &&& new.len() == old.len()
    &&& forall|j: int|
        0 <= j < old.len() ==> #[trigger] new[j] == old[j] || (
        old[j].spec_is_waiting_confirmation() && new[j] == old[j].with_status(
            ConfirmationStatus::NotConfirmed,
        ))
    &&& T::obeys_eq_spec() ==> ({
        ||| exists|i: int|
            is_first_waiting_match(old, target, i) && new == old.update(
                i,
                old[i].with_status(ConfirmationStatus::NotConfirmed),
            )
        ||| (forall|i: int|
            0 <= i < old.len() ==> !((#[trigger] old[i]).spec_is_waiting_confirmation()
                && old[i].action.eq_spec(&target))) && new == old
    })
}

/// `new` is `old` with its run of `k` not confirmed actions at the end confirmed.
pub open spec fn confirmed_latest<T>(
    old: Seq<PendingAction<T>>,
    new: Seq<PendingAction<T>>,
    k: int,
) -> bool {
    &&& unconfirmed_tail(old, k)
    &&& new.len() == old.len()
    &&& forall|j: int|
        0 <= j < old.len() ==> #[trigger] new[j] == if j >= old.len() - k {
            old[j].with_status(ConfirmationStatus::Confirmed)
        } else {
            old[j]
        }
}

/// Outcome of checking an action of the current user that the server has executed against
/// the head of the queue.
#[derive(Clone, Copy, Debug, PartialEq, Eq, Structural)]
pub enum ServerConfirmation {
    /// The head of the queue was waiting for this confirmation and is now confirmed.
    Confirmed,
    /// The queue is empty.
    QueueEmpty,
    /// The head of the queue was not waiting for confirmation.
    UnexpectedStatus(ConfirmationStatus),
    /// The head of the queue belongs to another player.
    UnexpectedPlayer(PlayerPosition),
}

/// Contains actions that are waiting to be applied, oldest first.
#[derive(Debug)]
pub struct PendingActionQueue<T> {
    actions: Vec<PendingAction<T>>,
}

impl<T> View for PendingActionQueue<T> {
    type V = Seq<PendingAction<T>>;

    closed spec fn view(&self) -> Seq<PendingAction<T>> {
        self.actions@
    }
}

impl<T> Default for PendingActionQueue<T> {
    fn default() -> (r: Self)
        ensures
            r@ == Seq::<PendingAction<T>>::empty(),
    {
        PendingActionQueue { actions: Vec::new() }
    }
}

impl<T> PendingActionQueue<T> {
    /// An empty queue.
    pub fn new() -> (r: Self)
        ensures
            r@ == Seq::<PendingAction<T>>::empty(),
    {
        PendingActionQueue { actions: Vec::new() }
    }

    /// A queue holding `actions`, oldest first.
    pub fn from(actions: Vec<PendingAction<T>>) -> (r: Self)
        ensures
            r@ == actions@,
    {
        PendingActionQueue { actions }
    }

    pub fn len(&self) -> (r: usize)
        ensures
            r == self@.len(),
    {
        self.actions.len()
    }

    pub fn is_empty(&self) -> (r: bool)
        ensures
            r == (self@.len() == 0),
    {
        self.actions.len() == 0
    }

    /// The actions of the queue, oldest first.
    pub fn as_slice(&self) -> (r: &[PendingAction<T>])
        ensures
            r@ == self@,
    {
        self.actions.as_slice()
    }

    /// The oldest action of the queue.
    pub fn first(&self) -> (r: Option<&PendingAction<T>>)
        ensures
            self@.len() == 0 ==> r is None,
            self@.len() > 0 ==> r == Some(&self@[0]),
    {
        if self.actions.len() == 0 {
            None
        } else {
            Some(&self.actions[0])
        }
    }

    /// Append `action` at the end of the queue.
    pub fn push(&mut self, action: PendingAction<T>)
        ensures
            final(self)@ == old(self)@.push(action),
    {
        self.actions.push(action);
    }

    /// Remove all confirmed actions and return them, in queue order; the not confirmed ones
    /// stay, in queue order.
    pub fn pop_confirmed(&mut self) -> (r: Vec<PendingAction<T>>)
        ensures
            r@ == old(self)@.filter(confirmed()),
            final(self)@ == old(self)@.filter(unconfirmed()),
    {
        let ghost orig = self@;
        let mut rest: Vec<PendingAction<T>> = Vec::new();
        std::mem::swap(&mut rest, &mut self.actions);
        let mut popped: Vec<PendingAction<T>> = Vec::new();
        let mut kept: Vec<PendingAction<T>> = Vec::new();
        let ghost mut k: int = 0;
        proof {
            reveal(Seq::filter);
            assert(orig.take(0) =~= Seq::<PendingAction<T>>::empty());
            assert(rest@ =~= orig.skip(0));
        }
        while rest.len() > 0
            invariant
                0 <= k <= orig.len(),
                rest@ == orig.skip(k),
                popped@ == orig.take(k).filter(confirmed()),
                kept@ == orig.take(k).filter(unconfirmed()),
            decreases rest@.len(),
        {
            let a = rest.remove(0);
            proof {
                reveal(Seq::filter);
                assert(orig.take(k + 1).drop_last() =~= orig.take(k));
                assert(orig.take(k + 1).last() == a);
                assert(rest@ =~= orig.skip(k + 1));
            }
            if a.is_confirmed() {
                popped.push(a);
            } else {
                kept.push(a);
            }
            proof {
                k = k + 1;
            }
        }
        proof {
            assert(orig.take(k) =~= orig);
        }
        self.actions = kept;
        popped
    }

    /// Set every action that waits for confirmation back to `NotConfirmed`.
    pub fn revert_waiting_all(&mut self)
        ensures
            final(self)@ == reverted_all(old(self)@),
    {
        let ghost orig = self@;
        let mut rest: Vec<PendingAction<T>> = Vec::new();
        std::mem::swap(&mut rest, &mut self.actions);
        let mut out: Vec<PendingAction<T>> = Vec::new();
        let ghost mut k: int = 0;
        proof {
            assert(rest@ =~= orig.skip(0));
        }
        while rest.len() > 0
            invariant
                0 <= k <= orig.len(),
                rest@ == orig.skip(k),
                out@ == orig.take(k).map_values(|a: PendingAction<T>| revert_waiting(a)),
            decreases rest@.len(),
        {
            let mut a = rest.remove(0);
            proof {
                assert(a == orig[k]);
                assert(rest@ =~= orig.skip(k + 1));
            }
            if a.is_waiting_confirmation() {
                a.set_status(ConfirmationStatus::NotConfirmed);
            }
            out.push(a);
            proof {
                assert(out@ =~= orig.take(k + 1).map_values(
                    |a: PendingAction<T>| revert_waiting(a),
                ));
                k = k + 1;
            }
        }
        proof {
            assert(orig.take(k) =~= orig);
        }
        self.actions = out;
    }

    /// Set the first action that waits for confirmation and equals `target` back to
    /// `NotConfirmed`.
    pub fn revert_waiting_single(&mut self, target: &T) where T: PartialEq
        ensures
            reverted_single(old(self)@, final(self)@, *target),
    {
        let ghost orig = self@;
        let mut rest: Vec<PendingAction<T>> = Vec::new();
        std::mem::swap(&mut rest, &mut self.actions);
        let mut out: Vec<PendingAction<T>> = Vec::new();
        let ghost mut k: int = 0;
        let ghost mut found: int = -1;
        let mut done = false;
        proof {
            assert(rest@ =~= orig.skip(0));
        }
        while rest.len() > 0
            invariant
                0 <= k <= orig.len(),
                rest@ == orig.skip(k),
                out@.len() == k,
                done == (found >= 0),
                -1 <= found < k,
                forall|j: int|
                    0 <= j < k && j != found ==> #[trigger] out@[j] == orig[j],
                done ==> out@[found] == orig[found].with_status(ConfirmationStatus::NotConfirmed)
                    && orig[found].spec_is_waiting_confirmation(),
                T::obeys_eq_spec() && done ==> is_first_waiting_match(orig, *target, found),
                T::obeys_eq_spec() && !done ==> forall|j: int|
                    0 <= j < k ==> !((#[trigger] orig[j]).spec_is_waiting_confirmation()
                        && orig[j].action.eq_spec(target)),
            decreases rest@.len(),
        {
            let mut a = rest.remove(0);
            proof {
                assert(a == orig[k]);
                assert(rest@ =~= orig.skip(k + 1));
            }
            if !done && a.is_waiting_confirmation() && a.action == *target {
                a.set_status(ConfirmationStatus::NotConfirmed);
                done = true;
                proof {
                    found = k;
                }
            }
            out.push(a);
            proof {
                k = k + 1;
            }
        }
        proof {
            if done {
                assert(out@ =~= orig.update(found, orig[found].with_status(
                    ConfirmationStatus::NotConfirmed,
                )));
            } else {
                assert(out@ =~= orig);
            }
        }
        self.actions = out;
    }
}

impl<T: Copy> PendingActionQueue<T> {
    /// Confirm the run of not confirmed actions at the end of the queue and return them.
    pub fn confirm_latest(&mut self) -> (r: Vec<PendingAction<T>>)
        ensures
            confirmed_latest(old(self)@, final(self)@, r@.len() as int),
            r@ == final(self)@.subrange(old(self)@.len() - r@.len(), old(self)@.len() as int),
    {
        let ghost orig = self@;
        let n = self.actions.len();
        let mut i = n;
        while i > 0
            invariant
                i <= n,
                n == orig.len(),
                self@.len() == n,
                forall|j: int| 0 <= j < i ==> #[trigger] self@[j] == orig[j],
                forall|j: int|
                    i <= j < n ==> #[trigger] self@[j] == orig[j].with_status(
                        ConfirmationStatus::Confirmed,
                    ) && !orig[j].spec_is_confirmed(),
            ensures
                i <= n,
                self@.len() == n,
                forall|j: int| 0 <= j < i ==> #[trigger] self@[j] == orig[j],
                forall|j: int|
                    i <= j < n ==> #[trigger] self@[j] == orig[j].with_status(
                        ConfirmationStatus::Confirmed,
                    ) && !orig[j].spec_is_confirmed(),
                i > 0 ==> orig[i - 1].spec_is_confirmed(),
            decreases i,
        {
            let a = self.actions[i - 1];
            if a.is_confirmed() {
                break;
            }
            self.actions.set(i - 1, PendingAction { status: ConfirmationStatus::Confirmed, ..a });
            i -= 1;
        }
        let mut r: Vec<PendingAction<T>> = Vec::new();
        let mut j = i;
        while j < n
            invariant
                i <= j <= n,
                n == orig.len(),
                self@.len() == n,
                r@ == self@.subrange(i as int, j as int),
                forall|j: int| 0 <= j < i ==> #[trigger] self@[j] == orig[j],
                forall|j: int|
                    i <= j < n ==> #[trigger] self@[j] == orig[j].with_status(
                        ConfirmationStatus::Confirmed,
                    ) && !orig[j].spec_is_confirmed(),
                i > 0 ==> orig[i - 1].spec_is_confirmed(),
            decreases n - j,
        {
            r.push(self.actions[j]);
            proof {
                assert(r@ =~= self@.subrange(i as int, j + 1));
            }
            j += 1;
        }
        proof {
            assert forall|j: int| orig.len() - (n - i) <= j < orig.len() implies !(
            #[trigger] orig[j]).spec_is_confirmed() by {
                assert(self@[j] == orig[j].with_status(ConfirmationStatus::Confirmed));
            }
            assert(unconfirmed_tail(orig, (n - i) as int));
        }
        r
    }

    /// If the oldest action is not confirmed, mark it as waiting for confirmation and return it
    /// so that it can be sent to the server.
    pub fn take_next_to_send(&mut self) -> (r: Option<T>)
        ensures
            old(self)@.len() > 0 && old(self)@[0].spec_is_not_confirmed() ==> r == Some(
                old(self)@[0].action,
            ) && final(self)@ == old(self)@.update(
                0,
                old(self)@[0].with_status(ConfirmationStatus::WaitingConfirmation),
            ),
            !(old(self)@.len() > 0 && old(self)@[0].spec_is_not_confirmed()) ==> r is None
                && final(self)@ == old(self)@,
    {
        if self.actions.len() > 0 && self.actions[0].is_not_confirmed() {
            let a = self.actions[0];
            self.actions.set(
                0,
                PendingAction { status: ConfirmationStatus::WaitingConfirmation, ..a },
            );
            Some(a.action)
        } else {
            None
        }
    }

    /// The server executed an action of the current user `player`: the oldest action must be
    /// waiting for confirmation and belong to `player`; then it becomes confirmed.
    pub fn confirm_next(&mut self, player: PlayerPosition) -> (r: ServerConfirmation)
        ensures
            old(self)@.len() == 0 ==> r == ServerConfirmation::QueueEmpty,
            old(self)@.len() > 0 && !old(self)@[0].spec_is_waiting_confirmation() ==> r
                == ServerConfirmation::UnexpectedStatus(old(self)@[0].status),
            old(self)@.len() > 0 && old(self)@[0].spec_is_waiting_confirmation() && old(
                self,
            )@[0].player != player ==> r == ServerConfirmation::UnexpectedPlayer(
                old(self)@[0].player,
            ),
            r == ServerConfirmation::Confirmed ==> final(self)@ == old(self)@.update(
                0,
                old(self)@[0].with_status(ConfirmationStatus::Confirmed),
            ),
            r != ServerConfirmation::Confirmed ==> final(self)@ == old(self)@,
            r == ServerConfirmation::Confirmed <==> (old(self)@.len() > 0 && old(
                self,
            )@[0].spec_is_waiting_confirmation() && old(self)@[0].player == player),
    {
        if self.actions.len() == 0 {
            return ServerConfirmation::QueueEmpty;
        }
        let a = self.actions[0];
        if !a.is_waiting_confirmation() {
            return ServerConfirmation::UnexpectedStatus(a.status);
        }
        if a.player != player {
            return ServerConfirmation::UnexpectedPlayer(a.player);
        }
        self.actions.set(0, PendingAction { status: ConfirmationStatus::Confirmed, ..a });
        ServerConfirmation::Confirmed
    }
}

/// Popping the confirmed actions splits the queue: the popped and the remaining actions are
/// together as many as before, no confirmed action remains, and popping again yields nothing.
pub proof fn law_pop_confirmed_partition<T>(s: Seq<PendingAction<T>>)
    ensures
        s.filter(confirmed()).len() + s.filter(unconfirmed()).len() == s.len(),
        s.filter(unconfirmed()).filter(confirmed()) == Seq::<PendingAction<T>>::empty(),
        s.filter(unconfirmed()).filter(unconfirmed()) == s.filter(unconfirmed()),
    decreases s.len(),
{
    reveal(Seq::filter);
    if s.len() > 0 {
        law_pop_confirmed_partition(s.drop_last());
        let u = s.filter(unconfirmed());
        let du = s.drop_last().filter(unconfirmed());
        if s.last().status != ConfirmationStatus::Confirmed {
            assert(u == du.push(s.last()));
            assert(u.drop_last() =~= du);
        } else {
            assert(u == du);
        }
    } else {
        assert(s.filter(unconfirmed()).filter(confirmed()) =~= Seq::<PendingAction<T>>::empty());
    }
}

/// After the latest actions are confirmed, the queue is empty or ends with a confirmed
/// action: confirming the latest actions again confirms nothing.
pub proof fn law_confirm_latest_idempotent<T>(
    old: Seq<PendingAction<T>>,
    new: Seq<PendingAction<T>>,
    k: int,
)
    requires
        confirmed_latest(old, new, k),
    ensures
        confirmed_latest(new, new, 0),
{
    if new.len() > 0 {
        let last = new.len() - 1;
        assert(new[last] == if last >= old.len() - k {
            old[last].with_status(ConfirmationStatus::Confirmed)
        } else {
            old[last]
        });
    }
}

/// Reverting all waiting actions leaves no action waiting for confirmation, and every
/// confirmed action stays confirmed.
pub proof fn law_revert_all<T>(s: Seq<PendingAction<T>>)
    ensures
        forall|i: int|
            0 <= i < s.len() ==> !(#[trigger] reverted_all(s)[i]).spec_is_waiting_confirmation(),
        forall|i: int|
            0 <= i < s.len() && (#[trigger] s[i]).spec_is_confirmed() ==> reverted_all(s)[i].spec_is_confirmed(),
{
}

/// Sending the head of the queue and then reverting all waiting actions (its session closed)
/// gives back the queue, when no action was waiting before.
pub proof fn law_send_then_revert_restores<T>(s: Seq<PendingAction<T>>)
    requires
        s.len() > 0,
        s[0].spec_is_not_confirmed(),
        forall|i: int| 0 <= i < s.len() ==> !(#[trigger] s[i]).spec_is_waiting_confirmation(),
    ensures
        reverted_all(s.update(0, s[0].with_status(ConfirmationStatus::WaitingConfirmation))) == s,
{
    let sent = s.update(0, s[0].with_status(ConfirmationStatus::WaitingConfirmation));
    let back = reverted_all(sent);
    assert forall|i: int| 0 <= i < s.len() implies back[i] == s[i] by {
        if i == 0 {
            assert(back[0] == s[0].with_status(ConfirmationStatus::WaitingConfirmation).with_status(
                ConfirmationStatus::NotConfirmed,
            ));
        } else {
            assert(sent[i] == s[i]);
        }
    }
    assert(back =~= s);
}

} // verus!
