//! The dispatch boundary's view of the store: typed commands in, typed
//! responses out, and the classification of each response as a status
//! code. Decoding request bytes and presenting messages stay with the
//! transport; the store core only classifies.

use vstd::prelude::*;
use crate::data::{Status, Ticket, TicketDraft, TicketId, TicketPatch, TicketView};
use crate::store::{StoreError, TicketStore};

verus! {

/// An inbound command, already decoded into typed values.
#[derive(Debug, PartialEq)]
pub enum Command {
    Create(TicketDraft),
    Patch(TicketId, TicketPatch),
    Get(TicketId),
}

/// The outcome a dispatch hands back to the transport.
#[derive(Debug, PartialEq)]
pub enum Response {
    Created(TicketId),
    Updated(TicketId),
    Fetched(Ticket),
    Rejected(StoreError),
}

/// Runs one command against the store and reports the outcome:
/// a creation always succeeds and answers with the fresh identity;
/// a patch replaces the record's mutable fields or is rejected with
/// `NotFound`; a lookup answers with a copy of the record or is
/// rejected with `NotFound`. No command ever rejects with
/// `InternalFault`: that classification is reserved for failures of
/// the machinery around the store.
pub fn dispatch(store: &mut TicketStore, cmd: Command) -> (r: Response)
    requires
        old(store).wf(),
        cmd matches Command::Create(_) ==> old(store).can_issue(),
    ensures
        final(store).wf(),
        match cmd {
            Command::Create(draft) => {
                &&& r matches Response::Created(id)
                &&& id.0 == old(store).spec_highest() + 1
                &&& !old(store)@.contains_key(id.0)
                &&& final(store)@ =~= old(store)@.insert(
                    id.0,
                    TicketView {
                        id,
                        title: draft.title@,
                        description: draft.description@,
                        status: Status::ToDo,
                    },
                )
            },
            Command::Patch(id, patch) => {
                &&& old(store)@.contains_key(id.0) ==> r == Response::Updated(id)
                    && final(store)@ =~= old(store)@.insert(
                    id.0,
                    TicketView {
                        id: old(store)@[id.0].id,
                        title: patch.title@,
                        description: patch.description@,
                        status: patch.status,
                    },
                )
                &&& !old(store)@.contains_key(id.0) ==> r == Response::Rejected(
                    StoreError::NotFound,
                ) && final(store)@ =~= old(store)@
            },
            Command::Get(id) => {
                &&& final(store)@ =~= old(store)@
                &&& old(store)@.contains_key(id.0) ==> (r matches Response::Fetched(t) && t@
                    == old(store)@[id.0])
                &&& !old(store)@.contains_key(id.0) ==> r == Response::Rejected(
                    StoreError::NotFound,
                )
            },
        },
{
    match cmd {
        Command::Create(draft) => {
            let id = store.add_ticket(draft);
            Response::Created(id)
        },
        Command::Patch(id, patch) => {
            match store.update(id, patch) {
                Ok(()) => Response::Updated(id),
                Err(e) => Response::Rejected(e),
            }
        },
        Command::Get(id) => {
            match store.fetch(id) {
                Some(t) => Response::Fetched(t),
                None => Response::Rejected(StoreError::NotFound),
            }
        },
    }
}

/// The status code a response classifies as: a creation reports 201,
/// any other success 200, a missing identity 404, and an internal
/// fault 500.
pub fn status_code(r: &Response) -> (c: u16)
    ensures
        c == (match r {
            Response::Created(_) => 201u16,
            Response::Updated(_) => 200u16,
            Response::Fetched(_) => 200u16,
            Response::Rejected(StoreError::NotFound) => 404u16,
            Response::Rejected(StoreError::InternalFault) => 500u16,
        }),
{
    match r {
        Response::Created(_) => 201,
        Response::Updated(_) => 200,
        Response::Fetched(_) => 200,
        Response::Rejected(StoreError::NotFound) => 404,
        Response::Rejected(StoreError::InternalFault) => 500,
    }
}

} // verus!
