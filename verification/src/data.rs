//! The ticket data model: identity, status, drafts, patches and records.

use vstd::prelude::*;

verus! {

/// Identity of a ticket: an opaque 64-bit value, totally ordered,
/// unique for the lifetime of the store and immutable once assigned.
#[derive(Clone, Copy, Debug, PartialEq, Eq, Structural, Hash, PartialOrd, Ord)]
pub struct TicketId(pub u64);

/// Lifecycle status of a ticket. Transitions are unrestricted: any
/// variant may move to any other through a patch.
#[derive(Clone, Copy, Debug, PartialEq, Eq, Structural, Hash)]
pub enum Status {
    ToDo,
    InProgress,
    Done,
}

/// Input to ticket creation: the textual fields, with no identity yet.
#[derive(Clone, Debug, PartialEq, Eq)]
pub struct TicketDraft {
    pub title: String,
    pub description: String,
}

/// A full replacement for all mutable fields of an existing ticket.
/// This is not a sparse patch: every field is overwritten.
#[derive(Clone, Debug, PartialEq, Eq)]
pub struct TicketPatch {
    pub title: String,
    pub description: String,
    pub status: Status,
}

/// A ticket record: immutable identity plus mutable content fields.
#[derive(Debug, PartialEq)]
pub struct Ticket {
    pub id: TicketId,
    pub title: String,
    pub description: String,
    pub status: Status,
}

/// The mathematical value of a ticket record.
pub ghost struct TicketView {
    pub id: TicketId,
    pub title: Seq<char>,
    pub description: Seq<char>,
    pub status: Status,
}

impl View for Ticket {
    type V = TicketView;

    open spec fn view(&self) -> TicketView {
        TicketView {
            id: self.id,
            title: self.title@,
            description: self.description@,
            status: self.status,
        }
    }
}

impl Clone for Ticket {
    /// A clone carries exactly the value of the original.
    fn clone(&self) -> (t: Ticket)
        ensures
            t@ == self@,
    {
        Ticket {
            id: self.id,
            title: self.title.clone(),
            description: self.description.clone(),
            status: self.status,
        }
    }
}

impl Ticket {
    /// The record a freshly created ticket holds: the draft's text,
    /// the given identity, and status `ToDo`.
    pub fn from_draft(id: TicketId, draft: TicketDraft) -> (t: Ticket)
        ensures
            t@ == (TicketView {
                id,
                title: draft.title@,
                description: draft.description@,
                status: Status::ToDo,
            }),
    {
        Ticket { id, title: draft.title, description: draft.description, status: Status::ToDo }
    }

    /// Replaces title, description and status in one step; the identity
    /// never changes. Readers of the result see all three fields from
    /// this patch, never a mixture with earlier content.
    pub fn apply_patch(&mut self, patch: TicketPatch)
        ensures
            final(self)@ == (TicketView {
                id: old(self)@.id,
                title: patch.title@,
                description: patch.description@,
                status: patch.status,
            }),
    {
        self.title = patch.title;
        self.description = patch.description;
        self.status = patch.status;
    }
}

} // verus!
