use vstd::prelude::*;

use crate::board::PlayerPosition;

verus! {

/// Confirmation status of a [`PendingAction`].
/// In case of a bot game pending actions are created as `Confirmed`.
/// In case of a network game pending actions are created as `NotConfirmed` and need to undergo
/// confirmation process by executing them on the server side.
#[derive(Clone, Copy, Debug, PartialEq, Eq, Structural)]
pub enum ConfirmationStatus {
    NotConfirmed,
    WaitingConfirmation,
    Confirmed,
}

impl ConfirmationStatus {
    /// Name of the status, as it is printed in logs.
    pub fn to_string(&self) -> (r: String)
        ensures
            r@ == match *self {
                ConfirmationStatus::NotConfirmed => "NotConfirmed"@,
                ConfirmationStatus::WaitingConfirmation => "WaitingConfirmation"@,
                ConfirmationStatus::Confirmed => "Confirmed"@,
            },
    {
        match self {
            ConfirmationStatus::NotConfirmed => "NotConfirmed".to_owned(),
            ConfirmationStatus::WaitingConfirmation => "WaitingConfirmation".to_owned(),
            ConfirmationStatus::Confirmed => "Confirmed".to_owned(),
        }
    }
}

/// Player action that is waiting to be applied.
#[derive(Clone, Copy, Debug, PartialEq)]
pub struct PendingAction<T> {
    pub player: PlayerPosition,
    pub action: T,
    pub status: ConfirmationStatus,
}

impl<T> PendingAction<T> {
    pub open spec fn spec_is_confirmed(self) -> bool {
        self.status == ConfirmationStatus::Confirmed
    }

    pub open spec fn spec_is_not_confirmed(self) -> bool {
        self.status == ConfirmationStatus::NotConfirmed
    }

    pub open spec fn spec_is_waiting_confirmation(self) -> bool {
        self.status == ConfirmationStatus::WaitingConfirmation
    }

    /// The same action with another status.
    pub open spec fn with_status(self, status: ConfirmationStatus) -> PendingAction<T> {
        PendingAction { status, ..self }
    }

    pub fn new(player: PlayerPosition, action: T, status: ConfirmationStatus) -> (r: Self)
        ensures
            r == (PendingAction { player, action, status }),
    {
        PendingAction { player, action, status }
    }

    pub fn new_confirmed(player: PlayerPosition, action: T) -> (r: Self)
        ensures
            r == (PendingAction { player, action, status: ConfirmationStatus::Confirmed }),
    {
        Self::new(player, action, ConfirmationStatus::Confirmed)
    }

    pub fn new_unconfirmed(player: PlayerPosition, action: T) -> (r: Self)
        ensures
            r == (PendingAction { player, action, status: ConfirmationStatus::NotConfirmed }),
    {
        Self::new(player, action, ConfirmationStatus::NotConfirmed)
    }

    pub fn is_confirmed(&self) -> (r: bool)
        ensures
            r == self.spec_is_confirmed(),
    {
        self.status == ConfirmationStatus::Confirmed
    }

    pub fn is_not_confirmed(&self) -> (r: bool)
        ensures
            r == self.spec_is_not_confirmed(),
    {
        self.status == ConfirmationStatus::NotConfirmed
    }

    pub fn is_waiting_confirmation(&self) -> (r: bool)
        ensures
            r == self.spec_is_waiting_confirmation(),
    {
        self.status == ConfirmationStatus::WaitingConfirmation
    }

    pub fn action(&self) -> (r: &T)
        ensures
            *r == self.action,
    {
        &self.action
    }

    pub fn player(&self) -> (r: PlayerPosition)
        ensures
            r == self.player,
    {
        self.player
    }

    pub fn status(&self) -> (r: ConfirmationStatus)
        ensures
            r == self.status,
    {
        self.status
    }

    pub fn set_status(&mut self, status: ConfirmationStatus)
        ensures
            *final(self) == old(self).with_status(status),
    {
        self.status = status
    }
}

/// Whether the action is confirmed (closure form, for filters).
pub open spec fn confirmed<T>() -> spec_fn(PendingAction<T>) -> bool {
    |a: PendingAction<T>| a.status == ConfirmationStatus::Confirmed
}

/// Whether the action is not confirmed yet (closure form, for filters).
pub open spec fn unconfirmed<T>() -> spec_fn(PendingAction<T>) -> bool {
    |a: PendingAction<T>| a.status != ConfirmationStatus::Confirmed
}

/// `WaitingConfirmation` goes back to `NotConfirmed`, other statuses stay.
pub open spec fn revert_waiting<T>(a: PendingAction<T>) -> PendingAction<T> {
    if a.status == ConfirmationStatus::WaitingConfirmation {
        a.with_status(ConfirmationStatus::NotConfirmed)
    } else {
        a
    }
}

/// Every waiting action of `s` set back to `NotConfirmed`.
pub open spec fn reverted_all<T>(s: Seq<PendingAction<T>>) -> Seq<PendingAction<T>> {
    s.map_values(|a: PendingAction<T>| revert_waiting(a))
}

/// `k` is the length of the longest run of not confirmed actions at the end of `s`.
pub open spec fn unconfirmed_tail<T>(s: Seq<PendingAction<T>>, k: int) -> bool {
    &&& 0 <= k <= s.len()
    &&& forall|j: int| s.len() - k <= j < s.len() ==> !(#[trigger] s[j]).spec_is_confirmed()
    &&& (k < s.len() ==> s[s.len() - k - 1].spec_is_confirmed())
}

} // verus!
