use ticket_store::data::{Status, TicketDraft, TicketId, TicketPatch};
use ticket_store::dispatch::{dispatch, status_code, Command, Response};
use ticket_store::store::{StoreError, TicketStore};

fn draft(title: &str, description: &str) -> TicketDraft {
    TicketDraft { title: title.to_string(), description: description.to_string() }
}

#[test]
fn create_command_answers_created_with_fresh_id() {
    let mut store = TicketStore::new();
    let response = dispatch(&mut store, Command::Create(draft("t1", "d1")));
    assert_eq!(response, Response::Created(TicketId(1)));
    assert_eq!(status_code(&response), 201);
}

#[test]
fn patch_command_updates_or_rejects() {
    let mut store = TicketStore::new();
    dispatch(&mut store, Command::Create(draft("t1", "d1")));
    let patch = TicketPatch {
        title: "t2".to_string(),
        description: "d2".to_string(),
        status: Status::Done,
    };
    let hit = dispatch(&mut store, Command::Patch(TicketId(1), patch));
    assert_eq!(hit, Response::Updated(TicketId(1)));
    assert_eq!(status_code(&hit), 200);

    let patch = TicketPatch {
        title: "t3".to_string(),
        description: "d3".to_string(),
        status: Status::InProgress,
    };
    let miss = dispatch(&mut store, Command::Patch(TicketId(7), patch));
    assert_eq!(miss, Response::Rejected(StoreError::NotFound));
    assert_eq!(status_code(&miss), 404);
}

#[test]
fn get_command_fetches_or_rejects() {
    let mut store = TicketStore::new();
    dispatch(&mut store, Command::Create(draft("t1", "d1")));
    let hit = dispatch(&mut store, Command::Get(TicketId(1)));
    match hit {
        Response::Fetched(t) => {
            assert_eq!(t.title, "t1");
            assert_eq!(t.description, "d1");
            assert_eq!(t.status, Status::ToDo);
        }
        other => panic!("expected a fetched record, got {:?}", other),
    }
    let miss = dispatch(&mut store, Command::Get(TicketId(2)));
    assert_eq!(miss, Response::Rejected(StoreError::NotFound));
    assert_eq!(status_code(&miss), 404);
}

#[test]
fn internal_fault_classifies_as_server_fault() {
    let response = Response::Rejected(StoreError::InternalFault);
    assert_eq!(status_code(&response), 500);
}
