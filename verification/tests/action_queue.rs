use client::action_queue::{PendingActionQueue, ServerConfirmation};
use client::pending_action::{ConfirmationStatus, PendingAction};

fn statuses<T>(queue: &PendingActionQueue<T>) -> Vec<ConfirmationStatus> {
    queue.as_slice().iter().map(|a| a.status()).collect()
}

#[test]
fn action_queue_pop_confirmed() {
    // remove first two and leave the rest
    let mut queue = PendingActionQueue::from(vec![
        PendingAction::new(0, 0, ConfirmationStatus::Confirmed),
        PendingAction::new(0, 1, ConfirmationStatus::Confirmed),
        PendingAction::new(0, 2, ConfirmationStatus::WaitingConfirmation),
        PendingAction::new(0, 3, ConfirmationStatus::WaitingConfirmation),
        PendingAction::new(0, 4, ConfirmationStatus::NotConfirmed),
        PendingAction::new(0, 5, ConfirmationStatus::NotConfirmed),
    ]);
    assert_eq!(
        queue.pop_confirmed(),
        vec![
            PendingAction::new(0, 0, ConfirmationStatus::Confirmed),
            PendingAction::new(0, 1, ConfirmationStatus::Confirmed),
        ]
    );
    assert_eq!(
        queue.as_slice(),
        &[
            PendingAction::new(0, 2, ConfirmationStatus::WaitingConfirmation),
            PendingAction::new(0, 3, ConfirmationStatus::WaitingConfirmation),
            PendingAction::new(0, 4, ConfirmationStatus::NotConfirmed),
            PendingAction::new(0, 5, ConfirmationStatus::NotConfirmed),
        ]
    );

    // not consecutive confirmed actions will be removed as well in this implementation
    queue = PendingActionQueue::from(vec![
        PendingAction::new(0, 0, ConfirmationStatus::Confirmed),
        PendingAction::new(0, 1, ConfirmationStatus::Confirmed),
        PendingAction::new(0, 2, ConfirmationStatus::WaitingConfirmation),
        PendingAction::new(0, 3, ConfirmationStatus::Confirmed),
        PendingAction::new(0, 4, ConfirmationStatus::NotConfirmed),
        PendingAction::new(0, 5, ConfirmationStatus::Confirmed),
    ]);
    assert_eq!(
        queue.pop_confirmed(),
        vec![
            PendingAction::new(0, 0, ConfirmationStatus::Confirmed),
            PendingAction::new(0, 1, ConfirmationStatus::Confirmed),
            PendingAction::new(0, 3, ConfirmationStatus::Confirmed),
            PendingAction::new(0, 5, ConfirmationStatus::Confirmed),
        ]
    );
    assert_eq!(
        queue.as_slice(),
        &[
            PendingAction::new(0, 2, ConfirmationStatus::WaitingConfirmation),
            PendingAction::new(0, 4, ConfirmationStatus::NotConfirmed),
        ]
    );

    // if there is no confirmed actions - yield nothing and leave the queue unchanged
    queue = PendingActionQueue::from(vec![
        PendingAction::new(0, 1, ConfirmationStatus::WaitingConfirmation),
        PendingAction::new(0, 2, ConfirmationStatus::WaitingConfirmation),
        PendingAction::new(0, 3, ConfirmationStatus::NotConfirmed),
        PendingAction::new(0, 4, ConfirmationStatus::NotConfirmed),
    ]);
    assert!(queue.pop_confirmed().is_empty());
    assert_eq!(
        queue.as_slice(),
        &[
            PendingAction::new(0, 1, ConfirmationStatus::WaitingConfirmation),
            PendingAction::new(0, 2, ConfirmationStatus::WaitingConfirmation),
            PendingAction::new(0, 3, ConfirmationStatus::NotConfirmed),
            PendingAction::new(0, 4, ConfirmationStatus::NotConfirmed),
        ]
    );
}

#[test]
fn action_queue_confirm_latest() {
    // confirm last 4
    let mut queue = PendingActionQueue::from(vec![
        PendingAction::new(0, (), ConfirmationStatus::NotConfirmed),
        PendingAction::new(0, (), ConfirmationStatus::Confirmed),
        PendingAction::new(0, (), ConfirmationStatus::WaitingConfirmation),
        PendingAction::new(0, (), ConfirmationStatus::WaitingConfirmation),
        PendingAction::new(0, (), ConfirmationStatus::NotConfirmed),
        PendingAction::new(0, (), ConfirmationStatus::NotConfirmed),
    ]);
    assert_eq!(queue.confirm_latest().len(), 4);
    let mut expected = vec![ConfirmationStatus::NotConfirmed];
    expected.extend(std::iter::repeat(ConfirmationStatus::Confirmed).take(5));
    assert_eq!(statuses(&queue), expected);

    // the last one is confirmed, so leave the rest unchanged
    queue = PendingActionQueue::from(vec![
        PendingAction::new(0, (), ConfirmationStatus::WaitingConfirmation),
        PendingAction::new(0, (), ConfirmationStatus::NotConfirmed),
        PendingAction::new(0, (), ConfirmationStatus::NotConfirmed),
        PendingAction::new(0, (), ConfirmationStatus::NotConfirmed),
        PendingAction::new(0, (), ConfirmationStatus::Confirmed),
    ]);
    assert_eq!(queue.confirm_latest().len(), 0);
    assert_eq!(
        statuses(&queue),
        vec![
            ConfirmationStatus::WaitingConfirmation,
            ConfirmationStatus::NotConfirmed,
            ConfirmationStatus::NotConfirmed,
            ConfirmationStatus::NotConfirmed,
            ConfirmationStatus::Confirmed,
        ]
    );

    // confirm all
    queue = PendingActionQueue::from(vec![
        PendingAction::new(0, (), ConfirmationStatus::WaitingConfirmation),
        PendingAction::new(0, (), ConfirmationStatus::NotConfirmed),
        PendingAction::new(0, (), ConfirmationStatus::NotConfirmed),
        PendingAction::new(0, (), ConfirmationStatus::NotConfirmed),
    ]);
    assert_eq!(queue.confirm_latest().len(), 4);
    assert_eq!(statuses(&queue), vec![ConfirmationStatus::Confirmed; 4]);
}

#[test]
fn confirm_latest_returns_confirmed_tail() {
    let mut queue = PendingActionQueue::from(vec![
        PendingAction::new(0, 10u64, ConfirmationStatus::Confirmed),
        PendingAction::new(1, 11u64, ConfirmationStatus::NotConfirmed),
        PendingAction::new(0, 12u64, ConfirmationStatus::WaitingConfirmation),
    ]);
    let confirmed = queue.confirm_latest();
    assert_eq!(
        confirmed,
        vec![
            PendingAction::new(1, 11u64, ConfirmationStatus::Confirmed),
            PendingAction::new(0, 12u64, ConfirmationStatus::Confirmed),
        ]
    );
    // a second call confirms nothing
    assert!(queue.confirm_latest().is_empty());
}

#[test]
fn pop_confirmed_twice_yields_nothing() {
    let mut queue = PendingActionQueue::from(vec![
        PendingAction::new(0, 1u64, ConfirmationStatus::Confirmed),
        PendingAction::new(1, 2u64, ConfirmationStatus::NotConfirmed),
    ]);
    assert_eq!(queue.pop_confirmed().len(), 1);
    assert!(queue.pop_confirmed().is_empty());
    assert_eq!(queue.len(), 1);
}

#[test]
fn take_next_to_send_marks_head_waiting() {
    let mut queue = PendingActionQueue::from(vec![
        PendingAction::new(0, 7u64, ConfirmationStatus::NotConfirmed),
        PendingAction::new(1, 8u64, ConfirmationStatus::NotConfirmed),
    ]);
    assert_eq!(queue.take_next_to_send(), Some(7));
    assert_eq!(
        statuses(&queue),
        vec![ConfirmationStatus::WaitingConfirmation, ConfirmationStatus::NotConfirmed]
    );
    // the head is already waiting: nothing to send
    assert_eq!(queue.take_next_to_send(), None);
    // reverting gives back the queue as it was before the send
    queue.revert_waiting_all();
    assert_eq!(
        statuses(&queue),
        vec![ConfirmationStatus::NotConfirmed, ConfirmationStatus::NotConfirmed]
    );
    let mut empty: PendingActionQueue<u64> = PendingActionQueue::new();
    assert_eq!(empty.take_next_to_send(), None);
}

#[test]
fn confirm_next_checks_head() {
    let mut empty: PendingActionQueue<u64> = PendingActionQueue::default();
    assert_eq!(empty.confirm_next(0), ServerConfirmation::QueueEmpty);

    let mut queue = PendingActionQueue::from(vec![PendingAction::new(
        0,
        1u64,
        ConfirmationStatus::NotConfirmed,
    )]);
    assert_eq!(
        queue.confirm_next(0),
        ServerConfirmation::UnexpectedStatus(ConfirmationStatus::NotConfirmed)
    );
    queue = PendingActionQueue::from(vec![PendingAction::new(
        1,
        1u64,
        ConfirmationStatus::WaitingConfirmation,
    )]);
    assert_eq!(queue.confirm_next(0), ServerConfirmation::UnexpectedPlayer(1));
    assert_eq!(queue.confirm_next(1), ServerConfirmation::Confirmed);
    assert!(queue.as_slice()[0].is_confirmed());
}

#[test]
fn pending_action_accessors() {
    let mut a = PendingAction::new_unconfirmed(1, 5u64);
    assert!(a.is_not_confirmed());
    assert_eq!(a.player(), 1);
    assert_eq!(*a.action(), 5);
    a.set_status(ConfirmationStatus::WaitingConfirmation);
    assert!(a.is_waiting_confirmation());
    assert_eq!(a.status(), ConfirmationStatus::WaitingConfirmation);
    assert!(PendingAction::new_confirmed(0, ()).is_confirmed());
    assert_eq!(ConfirmationStatus::WaitingConfirmation.to_string(), "WaitingConfirmation");
}
