use ticket_store::data::{Status, TicketDraft, TicketId, TicketPatch};
use ticket_store::store::{StoreError, TicketStore};

fn draft(title: &str, description: &str) -> TicketDraft {
    TicketDraft { title: title.to_string(), description: description.to_string() }
}

fn patch(title: &str, description: &str, status: Status) -> TicketPatch {
    TicketPatch { title: title.to_string(), description: description.to_string(), status }
}

#[test]
fn create_then_fetch_returns_draft_content() {
    let mut store = TicketStore::new();
    let id = store.add_ticket(draft("t1", "d1"));
    assert_eq!(id, TicketId(1));
    let ticket = store.fetch(TicketId(1)).unwrap();
    assert_eq!(ticket.id, TicketId(1));
    assert_eq!(ticket.title, "t1");
    assert_eq!(ticket.description, "d1");
    assert_eq!(ticket.status, Status::ToDo);
}

#[test]
fn update_then_fetch_returns_patched_content() {
    let mut store = TicketStore::new();
    let id = store.add_ticket(draft("t1", "d1"));
    let outcome = store.update(id, patch("t2", "d2", Status::Done));
    assert_eq!(outcome, Ok(()));
    let ticket = store.fetch(TicketId(1)).unwrap();
    assert_eq!(ticket.id, TicketId(1));
    assert_eq!(ticket.title, "t2");
    assert_eq!(ticket.description, "d2");
    assert_eq!(ticket.status, Status::Done);
}

#[test]
fn fetch_on_empty_store_reports_not_found() {
    let store = TicketStore::new();
    assert!(store.fetch(TicketId(999)).is_none());
    assert!(store.get(TicketId(999)).is_none());
}

#[test]
fn issued_ids_are_distinct_and_strictly_increasing() {
    let mut store = TicketStore::new();
    let a = store.add_ticket(draft("a", "da"));
    let b = store.add_ticket(draft("b", "db"));
    let c = store.add_ticket(draft("c", "dc"));
    assert!(a.0 < b.0 && b.0 < c.0);
    assert_ne!(a, b);
    assert_ne!(b, c);
    assert_ne!(a, c);
    assert_eq!(store.highest_issued(), 3);
}

#[test]
fn two_creations_fetch_each_submitted_draft() {
    let mut store = TicketStore::new();
    let first = store.add_ticket(draft("first title", "first description"));
    let second = store.add_ticket(draft("second title", "second description"));
    assert_ne!(first, second);
    let t1 = store.fetch(first).unwrap();
    let t2 = store.fetch(second).unwrap();
    assert_eq!(t1.title, "first title");
    assert_eq!(t1.description, "first description");
    assert_eq!(t2.title, "second title");
    assert_eq!(t2.description, "second description");
}

#[test]
fn unissued_ids_report_not_found() {
    let mut store = TicketStore::new();
    store.add_ticket(draft("a", "da"));
    store.add_ticket(draft("b", "db"));
    assert!(store.fetch(TicketId(3)).is_none());
    let outcome = store.update(TicketId(3), patch("x", "y", Status::InProgress));
    assert_eq!(outcome, Err(StoreError::NotFound));
}

#[test]
fn missed_update_never_creates_a_record() {
    let mut store = TicketStore::new();
    store.add_ticket(draft("a", "da"));
    assert_eq!(store.len(), 1);
    let outcome = store.update(TicketId(42), patch("x", "y", Status::Done));
    assert_eq!(outcome, Err(StoreError::NotFound));
    assert_eq!(store.len(), 1);
    assert!(store.fetch(TicketId(42)).is_none());
}

#[test]
fn update_replaces_all_three_fields_at_once() {
    let mut store = TicketStore::new();
    let id = store.add_ticket(draft("old title", "old description"));
    store.update(id, patch("new title", "new description", Status::InProgress)).unwrap();
    let t = store.fetch(id).unwrap();
    assert_eq!(
        (t.title.as_str(), t.description.as_str(), t.status),
        ("new title", "new description", Status::InProgress)
    );
}

#[test]
fn update_leaves_other_records_alone() {
    let mut store = TicketStore::new();
    let a = store.add_ticket(draft("a", "da"));
    let b = store.add_ticket(draft("b", "db"));
    store.update(a, patch("a2", "da2", Status::Done)).unwrap();
    let tb = store.fetch(b).unwrap();
    assert_eq!(tb.title, "b");
    assert_eq!(tb.description, "db");
    assert_eq!(tb.status, Status::ToDo);
}

#[test]
fn ids_are_not_reused_after_many_creations() {
    let mut store = TicketStore::new();
    let mut last = 0u64;
    for i in 0..100u64 {
        let id = store.add_ticket(draft("t", "d"));
        assert_eq!(id.0, i + 1);
        assert!(id.0 > last);
        last = id.0;
    }
    assert_eq!(store.len(), 100);
}
