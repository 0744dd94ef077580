use unicom_python::error::{UnicomError, UnicomErrorKind};
use unicom_python::pending::PendingController;

fn not_found(id: u64) -> UnicomError {
    UnicomError {
        kind: UnicomErrorKind::NotFound,
        description: format!("pending request not found {}", id),
    }
}

#[test]
fn ids_start_at_one_and_grow_by_one() {
    let mut table = PendingController::new();
    assert_eq!(table.allocate(), Some(1));
    assert_eq!(table.allocate(), Some(2));
    assert_eq!(table.allocate(), Some(3));
    assert_eq!(table.len(), 3);
}

#[test]
fn ids_are_not_reused_after_take_or_abandon() {
    let mut table = PendingController::new();
    let mut seen = Vec::new();
    for round in 0..50u64 {
        let id = table.allocate().unwrap();
        assert!(seen.iter().all(|earlier| *earlier < id));
        seen.push(id);
        if round % 3 == 0 {
            assert_eq!(table.complete(id, Ok(vec![1])), Ok(()));
            assert_eq!(table.take(id), Some(Ok(vec![1])));
        } else if round % 3 == 1 {
            assert!(table.abandon(id));
        }
    }
    assert_eq!(seen, (1..=50).collect::<Vec<u64>>());
}

#[test]
fn zero_never_names_an_entry() {
    let mut table = PendingController::new();
    table.allocate();
    assert!(!table.is_waiting(0));
    assert_eq!(table.complete(0, Ok(vec![])), Err(not_found(0)));
    assert_eq!(table.take(0), Some(Err(not_found(0))));
}

#[test]
fn complete_succeeds_exactly_once() {
    let mut table = PendingController::new();
    let id = table.allocate().unwrap();
    assert_eq!(table.complete(id, Ok(vec![1, 2])), Ok(()));
    assert_eq!(table.complete(id, Ok(vec![3])), Err(not_found(id)));
    assert_eq!(
        table.complete(id, Err(UnicomError::new(UnicomErrorKind::Empty, "late"))),
        Err(not_found(id))
    );
    // The first outcome stays.
    assert_eq!(table.take(id), Some(Ok(vec![1, 2])));
    // Nor does the entry come back once it was taken.
    assert_eq!(table.complete(id, Ok(vec![4])), Err(not_found(id)));
}

#[test]
fn complete_without_entry_is_not_found() {
    let mut table = PendingController::new();
    assert_eq!(table.complete(5, Ok(vec![])), Err(not_found(5)));
    assert_eq!(table.len(), 0);
}

#[test]
fn take_hands_out_the_completion_once() {
    let mut table = PendingController::new();
    let id = table.allocate().unwrap();
    table.complete(id, Ok(vec![9, 8, 7])).unwrap();
    assert_eq!(table.take(id), Some(Ok(vec![9, 8, 7])));
    assert_eq!(table.take(id), Some(Err(not_found(id))));
    assert_eq!(table.len(), 0);
}

#[test]
fn take_hands_out_a_failure_as_it_came() {
    let mut table = PendingController::new();
    let id = table.allocate().unwrap();
    let failure = UnicomError::new(UnicomErrorKind::NotAllowed, "denied");
    table.complete(id, Err(failure.clone())).unwrap();
    assert_eq!(table.take(id), Some(Err(failure)));
    assert_eq!(table.take(id), Some(Err(not_found(id))));
}

#[test]
fn take_before_completion_says_wait() {
    let mut table = PendingController::new();
    let id = table.allocate().unwrap();
    assert!(table.is_waiting(id));
    assert_eq!(table.take(id), None);
    // The entry stays, and is completed later.
    assert_eq!(table.len(), 1);
    table.complete(id, Ok(vec![5])).unwrap();
    assert!(!table.is_waiting(id));
    assert_eq!(table.take(id), Some(Ok(vec![5])));
}

#[test]
fn an_outcome_waits_for_its_caller() {
    let mut table = PendingController::new();
    let first = table.allocate().unwrap();
    table.complete(first, Ok(vec![1])).unwrap();
    // Other traffic in between.
    let second = table.allocate().unwrap();
    table.complete(second, Ok(vec![2])).unwrap();
    assert_eq!(table.take(second), Some(Ok(vec![2])));
    assert_eq!(table.take(first), Some(Ok(vec![1])));
}

#[test]
fn replies_in_permuted_order_reach_their_callers() {
    let mut table = PendingController::new();
    let ids: Vec<u64> = (0..6).map(|_| table.allocate().unwrap()).collect();
    let order = [3usize, 0, 5, 1, 4, 2];
    for position in order {
        let id = ids[position];
        assert_eq!(table.complete(id, Ok(vec![id as u8, 0xAA])), Ok(()));
    }
    for id in ids {
        assert_eq!(table.take(id), Some(Ok(vec![id as u8, 0xAA])));
    }
    assert_eq!(table.len(), 0);
}

#[test]
fn drain_releases_every_waiting_entry() {
    let mut table = PendingController::new();
    let ids: Vec<u64> = (0..5).map(|_| table.allocate().unwrap()).collect();
    table.complete(ids[1], Ok(vec![42])).unwrap();
    table.complete(ids[3], Ok(vec![43])).unwrap();
    assert_eq!(table.take(ids[3]), Some(Ok(vec![43])));
    let closed = UnicomError::new(UnicomErrorKind::Internal, "closed");
    let released = table.drain(&closed);
    assert_eq!(released, vec![ids[0], ids[2], ids[4]]);
    for id in [ids[0], ids[2], ids[4]] {
        assert!(!table.is_waiting(id));
        assert_eq!(table.take(id), Some(Err(closed.clone())));
    }
    // What was stored before the drain stays.
    assert_eq!(table.take(ids[1]), Some(Ok(vec![42])));
    assert_eq!(table.len(), 0);
}

#[test]
fn drain_of_an_empty_table_releases_nobody() {
    let mut table = PendingController::new();
    let closed = UnicomError::new(UnicomErrorKind::Internal, "closed");
    assert_eq!(table.drain(&closed), Vec::<u64>::new());
    assert_eq!(table.len(), 0);
}

#[test]
fn a_reply_after_the_drain_is_refused() {
    let mut table = PendingController::new();
    let id = table.allocate().unwrap();
    let closed = UnicomError::new(UnicomErrorKind::Internal, "closed");
    table.drain(&closed);
    assert_eq!(table.complete(id, Ok(vec![1])), Err(not_found(id)));
    assert_eq!(table.take(id), Some(Err(closed)));
}

#[test]
fn a_reply_to_an_abandoned_request_is_dropped() {
    let mut table = PendingController::new();
    let id = table.allocate().unwrap();
    assert!(table.abandon(id));
    assert!(!table.abandon(id));
    assert_eq!(table.complete(id, Ok(vec![1])), Err(not_found(id)));
    assert_eq!(table.take(id), Some(Err(not_found(id))));
    // The next id is a new one.
    assert_eq!(table.allocate(), Some(id + 1));
}

#[test]
fn abandon_removes_a_stored_outcome_too() {
    let mut table = PendingController::new();
    let id = table.allocate().unwrap();
    table.complete(id, Ok(vec![1])).unwrap();
    assert!(table.abandon(id));
    assert_eq!(table.take(id), Some(Err(not_found(id))));
}
