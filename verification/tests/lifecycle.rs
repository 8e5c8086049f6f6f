use ticket_queue::Error;
use ticket_queue::Status;
use ticket_queue::TicketId;
use ticket_queue::TicketStore;

const BASE: &str = "https://venue.example";

#[test]
fn issue_numbers_count_up_from_one() {
    let mut store = TicketStore::new();
    let mut ids = Vec::new();
    for expected in 1..=5u32 {
        let (t, url) = store.issue(2, BASE).unwrap();
        assert_eq!(t.number, expected);
        assert_eq!(t.group_size, 2);
        assert_eq!(t.status, Status::Waiting);
        assert!(url.starts_with("https://venue.example/guest/"));
        assert!(!ids.contains(&t.id), "fresh ids must not repeat");
        ids.push(t.id);
    }
}

#[test]
fn thousandth_ticket_wraps_to_one() {
    let mut store = TicketStore::new();
    for expected in 1..=999u32 {
        let (t, _) = store.issue(1, BASE).unwrap();
        assert_eq!(t.number, expected);
    }
    let (t, _) = store.issue(1, BASE).unwrap();
    assert_eq!(t.number, 1);
}

#[test]
fn issue_rejects_zero_group_size() {
    let mut store = TicketStore::new();
    assert_eq!(store.issue(0, BASE).unwrap_err(), Error::InvalidInput);
    assert!(store.active_list().is_empty());
}

#[test]
fn issue_with_id_refuses_duplicate_id() {
    let mut store = TicketStore::new();
    let id = TicketId { value: 42 };
    store.issue_with_id(id, 1).unwrap();
    assert_eq!(store.issue_with_id(id, 1).unwrap_err(), Error::StoreFailure);
}

#[test]
fn waiting_count_counts_smaller_waiting_numbers() {
    let mut store = TicketStore::new();
    let (t1, _) = store.issue(1, BASE).unwrap();
    let (t2, _) = store.issue(1, BASE).unwrap();
    let (t3, _) = store.issue(1, BASE).unwrap();
    assert_eq!((t1.number, t2.number, t3.number), (1, 2, 3));
    store.set_status(t3.id, "called").unwrap();

    let (seen3, waiting3) = store.view_for(t3.id).unwrap();
    assert_eq!(seen3.status, Status::Called);
    assert_eq!(waiting3, 2);

    let (seen2, waiting2) = store.view_for(t2.id).unwrap();
    assert_eq!(seen2.status, Status::Waiting);
    assert_eq!(waiting2, 1);

    let (_, waiting1) = store.view_for(t1.id).unwrap();
    assert_eq!(waiting1, 0);
}

#[test]
fn called_ticket_stays_active_completed_leaves() {
    let mut store = TicketStore::new();
    let (t, _) = store.issue(4, BASE).unwrap();

    let called = store.set_status(t.id, "called").unwrap();
    assert_eq!(called.id, t.id);
    assert_eq!(called.status, Status::Called);
    assert_eq!(called.number, t.number);
    assert!(store.active_list().iter().any(|a| a.id == t.id));

    let done = store.set_status(t.id, "completed").unwrap();
    assert_eq!(done.status, Status::Completed);
    assert!(!store.active_list().iter().any(|a| a.id == t.id));
}

#[test]
fn active_list_is_sorted_and_skips_completed() {
    let mut store = TicketStore::new();
    let (t1, _) = store.issue(1, BASE).unwrap();
    let (t2, _) = store.issue(1, BASE).unwrap();
    let (t3, _) = store.issue(1, BASE).unwrap();
    store.set_status(t2.id, "completed").unwrap();
    store.set_status(t3.id, "called").unwrap();

    let active = store.active_list();
    assert_eq!(active.len(), 2);
    assert_eq!(active[0].id, t1.id);
    assert_eq!(active[0].number, 1);
    assert_eq!(active[1].id, t3.id);
    assert_eq!(active[1].number, 3);
}

#[test]
fn unknown_id_is_not_found_not_a_crash() {
    let mut store = TicketStore::new();
    store.issue(1, BASE).unwrap();
    let unknown = TicketId { value: 0xdead_beef };
    assert_eq!(store.view_for(unknown).unwrap_err(), Error::NotFound);
    assert_eq!(store.set_status(unknown, "called").unwrap_err(), Error::NotFound);
}

#[test]
fn unrecognized_status_label_is_invalid_input() {
    let mut store = TicketStore::new();
    let (t, _) = store.issue(1, BASE).unwrap();
    assert_eq!(store.set_status(t.id, "bogus").unwrap_err(), Error::InvalidInput);
    assert_eq!(store.view_for(t.id).unwrap().0.status, Status::Waiting);
}

#[test]
fn reset_empties_store_and_restarts_numbering() {
    let mut store = TicketStore::new();
    for _ in 0..5 {
        store.issue(1, BASE).unwrap();
    }
    store.reset();
    assert!(store.active_list().is_empty());
    let (t, _) = store.issue(1, BASE).unwrap();
    assert_eq!(t.number, 1);
}

#[test]
fn status_labels_round_trip() {
    assert_eq!(Status::parse("waiting").unwrap(), Status::Waiting);
    assert_eq!(Status::parse("called").unwrap(), Status::Called);
    assert_eq!(Status::parse("completed").unwrap(), Status::Completed);
    assert_eq!(Status::parse("Waiting").unwrap_err(), Error::InvalidInput);
    assert_eq!(Status::Waiting.label(), "waiting");
    assert_eq!(Status::Called.label(), "called");
    assert_eq!(Status::Completed.label(), "completed");
    for label in ["waiting", "called", "completed"] {
        assert_eq!(Status::parse(label).unwrap().label(), label);
    }
}
