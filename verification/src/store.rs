//! The identity allocator and the id-to-record index.

use vstd::prelude::*;
use std::collections::HashMap;
use crate::data::{Status, Ticket, TicketDraft, TicketId, TicketPatch, TicketView};

verus! {

broadcast use vstd::std_specs::hash::group_hash_axioms;

/// Why a store operation did not complete. `NotFound` is an expected,
/// recoverable outcome — the identity simply is not in the index.
/// `InternalFault` stands for an unrecoverable synchronization failure
/// in the machinery around the store (a lock whose holder terminated
/// abnormally); it is kept distinct so that a dispatch boundary never
/// reports a fault as a missing ticket or the other way round.
#[derive(Clone, Copy, Debug, PartialEq, Eq, Structural, Hash)]
pub enum StoreError {
    NotFound,
    InternalFault,
}

/// Produces a strictly increasing, never repeating identity for each
/// new record. Identities start at one; wraparound beyond 2^64
/// allocations is out of scope.
pub struct IdAllocator {
    last: u64,
}

impl IdAllocator {
    /// The highest identity issued so far; zero when none has been.
    pub closed spec fn spec_last(self) -> u64 {
        self.last
    }

    /// The set of identities issued so far.
    pub open spec fn issued(self) -> Set<u64> {
        Set::new(|k: u64| 1 <= k && k <= self.spec_last())
    }

    /// Whether another identity can still be issued.
    pub open spec fn can_issue(self) -> bool {
        self.spec_last() < u64::MAX
    }

    /// An allocator that has issued nothing yet.
    pub fn new() -> (a: IdAllocator)
        ensures
            a.spec_last() == 0,
            a.issued() =~= Set::<u64>::empty(),
    {
        IdAllocator { last: 0 }
    }

    /// Issues the next identity: one past the highest issued so far,
    /// hence never a previously issued value.
    pub fn next(&mut self) -> (id: TicketId)
        requires
            old(self).can_issue(),
        ensures
            id.0 == old(self).spec_last() + 1,
            final(self).spec_last() == id.0,
            !old(self).issued().contains(id.0),
            final(self).issued() =~= old(self).issued().insert(id.0),
    {
        self.last = self.last + 1;
        TicketId(self.last)
    }
}

/// An in-memory index from ticket identity to record, together with the
/// identity allocator that stamps new records. Its view is the map from
/// raw identity to the record's value.
pub struct TicketStore {
    alloc: IdAllocator,
    tickets: HashMap<u64, Ticket>,
}

impl View for TicketStore {
    type V = Map<u64, TicketView>;

    closed spec fn view(&self) -> Map<u64, TicketView> {
        self.tickets@.map_values(|t: Ticket| t@)
    }
}

impl TicketStore {
    /// The highest identity issued so far.
    pub closed spec fn spec_highest(self) -> u64 {
        self.alloc.spec_last()
    }

    /// The set of identities issued so far.
    pub open spec fn issued(self) -> Set<u64> {
        Set::new(|k: u64| 1 <= k && k <= self.spec_highest())
    }

    /// Whether another identity can still be issued.
    pub open spec fn can_issue(self) -> bool {
        self.spec_highest() < u64::MAX
    }

    /// Well-formedness: every key of the index was issued (it lies in
    /// 1..=highest) and every record carries its own key as identity.
    pub open spec fn wf(self) -> bool {
        forall|k: u64| #[trigger]
            self@.contains_key(k) ==> 1 <= k && k <= self.spec_highest() && self@[k].id.0 == k
    }

    /// A store that holds nothing and has issued no identity.
    pub fn new() -> (s: TicketStore)
        ensures
            s.wf(),
            s@ =~= Map::<u64, TicketView>::empty(),
            s.spec_highest() == 0,
    {
        TicketStore { alloc: IdAllocator::new(), tickets: HashMap::new() }
    }

    /// Creates a ticket: allocates a fresh identity, stores the draft's
    /// text with status `ToDo` under it, and returns the identity. The
    /// index grows by exactly this one entry; creation never fails.
    pub fn add_ticket(&mut self, draft: TicketDraft) -> (id: TicketId)
        requires
            old(self).wf(),
            old(self).can_issue(),
        ensures
            final(self).wf(),
            id.0 == old(self).spec_highest() + 1,
            final(self).spec_highest() == id.0,
            !old(self)@.contains_key(id.0),
            final(self)@ =~= old(self)@.insert(
                id.0,
                TicketView {
                    id,
                    title: draft.title@,
                    description: draft.description@,
                    status: Status::ToDo,
                },
            ),
    {
        let id = self.alloc.next();
        let t = Ticket::from_draft(id, draft);
        self.tickets.insert(id.0, t);
        proof {
            assert forall|k: u64| #[trigger] self@.contains_key(k) implies 1 <= k && k
                <= self.spec_highest() && self@[k].id.0 == k by {
                if k != id.0 {
                    assert(old(self)@.contains_key(k));
                }
            }
        }
        id
    }

    /// Point lookup: a reference to the record under `id`, if present.
    pub fn get(&self, id: TicketId) -> (r: Option<&Ticket>)
        ensures
            match r {
                Some(t) => self@.contains_key(id.0) && t@ == self@[id.0],
                None => !self@.contains_key(id.0),
            },
    {
        self.tickets.get(&id.0)
    }

    /// `get` composed with a read of the record: an owned copy of the
    /// current field values, or `None` when the identity is absent.
    pub fn fetch(&self, id: TicketId) -> (r: Option<Ticket>)
        ensures
            match r {
                Some(t) => self@.contains_key(id.0) && t@ == self@[id.0],
                None => !self@.contains_key(id.0),
            },
    {
        match self.tickets.get(&id.0) {
            Some(t) => Some(t.clone()),
            None => None,
        }
    }

    /// `get` composed with a write: replaces title, description and
    /// status of the record under `id` with the patch's fields in one
    /// step, keeping the record's identity. Reports `NotFound`, touching
    /// nothing, when the identity is absent: a missed update never
    /// creates a record, and the index keeps its size either way.
    pub fn update(&mut self, id: TicketId, patch: TicketPatch) -> (r: Result<(), StoreError>)
        requires
            old(self).wf(),
        ensures
            final(self).wf(),
            final(self).spec_highest() == old(self).spec_highest(),
            final(self)@.dom() =~= old(self)@.dom(),
            r is Ok <==> old(self)@.contains_key(id.0),
            old(self)@.contains_key(id.0) ==> final(self)@ =~= old(self)@.insert(
                id.0,
                TicketView {
                    id: old(self)@[id.0].id,
                    title: patch.title@,
                    description: patch.description@,
                    status: patch.status,
                },
            ),
            !old(self)@.contains_key(id.0) ==> r == Result::<(), StoreError>::Err(
                StoreError::NotFound,
            ) && final(self)@ =~= old(self)@,
    {
        let r: Result<(), StoreError> = match self.tickets.remove(&id.0) {
            Some(mut t) => {
                proof {
                    assert(old(self)@.contains_key(id.0));
                }
                t.apply_patch(patch);
                self.tickets.insert(id.0, t);
                Ok(())
            },
            None => Err(StoreError::NotFound),
        };
        proof {
            assert forall|k: u64| #[trigger] self@.contains_key(k) implies 1 <= k && k
                <= self.spec_highest() && self@[k].id.0 == k by {
                assert(old(self)@.contains_key(k));
            }
        }
        r
    }

    /// The raw value of the highest identity issued so far; callers can
    /// test it against `u64::MAX` before creating a ticket.
    pub fn highest_issued(&self) -> (h: u64)
        ensures
            h == self.spec_highest(),
    {
        self.alloc.last
    }

    /// How many records the index holds.
    pub fn len(&self) -> (n: usize)
        ensures
            n == self@.dom().len(),
    {
        proof {
            assert(self@.dom() =~= self.tickets@.dom());
        }
        self.tickets.len()
    }
}

/// One creation step, reduced to what `add_ticket` guarantees about
/// identity allocation alone: the issued id is one past the highest id
/// issued before the step, and afterwards it is the highest.
pub open spec fn creation_issues(pre: TicketStore, post: TicketStore, id: TicketId) -> bool {
    id.0 == pre.spec_highest() + 1 && post.spec_highest() == id.0
}

/// Law: along any chain of creations `stores[0] -> stores[1] -> ...`,
/// where step `n` issued `ids[n]`, identities strictly increase in
/// issuance order — so the ids of a sequence of creations are pairwise
/// distinct.
pub proof fn lemma_creation_ids_strictly_increase(
    stores: Seq<TicketStore>,
    ids: Seq<TicketId>,
    i: int,
    j: int,
)
    requires
        stores.len() == ids.len() + 1,
        forall|n: int| 0 <= n < ids.len() ==> #[trigger] creation_issues(
            stores[n],
            stores[n + 1],
            ids[n],
        ),
        0 <= i < j < ids.len(),
    ensures
        ids[i].0 < ids[j].0,
    decreases j - i,
{
    let n1: int = j - 1;
    assert(creation_issues(stores[n1], stores[n1 + 1], ids[n1]));
    assert(creation_issues(stores[j], stores[j + 1], ids[j]));
    if i < j - 1 {
        lemma_creation_ids_strictly_increase(stores, ids, i, j - 1);
    }
}

/// One successful update step, as `update`'s contract describes it:
/// the record under `id` exists and its whole content is replaced by
/// the patch's fields.
pub open spec fn patch_applied(
    pre: TicketStore,
    post: TicketStore,
    id: TicketId,
    patch: TicketPatch,
) -> bool {
    &&& pre@.contains_key(id.0)
    &&& post@ == pre@.insert(
        id.0,
        TicketView {
            id: pre@[id.0].id,
            title: patch.title@,
            description: patch.description@,
            status: patch.status,
        },
    )
}

/// Law: a patch replaces the record as a whole, so along any chain of
/// successful updates of one identity the record afterwards carries
/// title, description and status all from the chain's last patch —
/// an observer never finds fields of two different patches mixed.
pub proof fn lemma_last_patch_wins(
    stores: Seq<TicketStore>,
    patches: Seq<TicketPatch>,
    id: TicketId,
)
    requires
        stores.len() == patches.len() + 1,
        patches.len() > 0,
        forall|n: int| 0 <= n < patches.len() ==> #[trigger] patch_applied(
            stores[n],
            stores[n + 1],
            id,
            patches[n],
        ),
    ensures
        stores.last()@.contains_key(id.0),
        stores.last()@[id.0].title == patches.last().title@,
        stores.last()@[id.0].description == patches.last().description@,
        stores.last()@[id.0].status == patches.last().status,
{
    let n1: int = patches.len() - 1;
    assert(patch_applied(stores[n1], stores[n1 + 1], id, patches[n1]));
}

/// Law: an identity the allocator has never issued is not a key of a
/// well-formed store; by their contracts, `fetch` then returns `None`
/// and `update` returns `NotFound` for it.
pub proof fn lemma_unissued_id_absent(s: TicketStore, id: TicketId)
    requires
        s.wf(),
        !s.issued().contains(id.0),
    ensures
        !s@.contains_key(id.0),
{
}

} // verus!
