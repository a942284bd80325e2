//! Request/response correlation and the command registry.

use vstd::prelude::*;
use vstd::string::*;

use crate::data::{is_error_payload, Request, Response};
use crate::table::{lists_exactly, NamedTable};
use crate::text::owned;

verus! {

/// Outbound calls waiting for their response, keyed by request id. At most
/// one waiter per id.
pub struct PendingCalls<W> {
    table: NamedTable<W>,
}

impl<W> View for PendingCalls<W> {
    type V = Map<Seq<char>, W>;

    closed spec fn view(&self) -> Map<Seq<char>, W> {
        self.table@
    }
}

/// What a run of responses with the ids `ids`, arriving in that order,
/// hands out from the pending calls `m`: the waiter of a pending id, which
/// then leaves the table, or nothing for an id that is not pending.
pub open spec fn deliveries<W>(m: Map<Seq<char>, W>, ids: Seq<Seq<char>>) -> Seq<Option<W>>
    decreases ids.len(),
{
    if ids.len() == 0 {
        Seq::empty()
    } else if m.contains_key(ids[0]) {
        seq![Some(m[ids[0]])] + deliveries(m.remove(ids[0]), ids.drop_first())
    } else {
        seq![None] + deliveries(m, ids.drop_first())
    }
}

impl<W> PendingCalls<W> {
    pub closed spec fn wf(&self) -> bool {
        self.table.wf()
    }

    /// No call pending.
    pub fn new() -> (r: Self)
        ensures
            r.wf(),
            r@ == Map::<Seq<char>, W>::empty(),
    {
        PendingCalls { table: NamedTable::new() }
    }

    /// Whether a call with this id is pending.
    pub fn is_pending(&self, id: &str) -> (r: bool)
        requires
            self.wf(),
        ensures
            r == self@.contains_key(id@),
    {
        self.table.contains(id)
    }

    /// Records the waiter of the call `id`. An id that already has a waiter
    /// keeps it, and `waiter` is handed back.
    pub fn register(&mut self, id: String, waiter: W) -> (r: Result<(), W>)
        requires
            old(self).wf(),
        ensures
            final(self).wf(),
            old(self)@.contains_key(id@) ==> r == Err::<(), W>(waiter) && final(self)@ == old(
                self,
            )@,
            !old(self)@.contains_key(id@) ==> r is Ok && final(self)@ == old(self)@.insert(
                id@,
                waiter,
            ),
    {
        match self.table.insert_new(id, waiter) {
            Some(w) => Err(w),
            None => Ok(()),
        }
    }

    /// Takes the waiter of the call that `id` answers. A response for an id
    /// that is not pending (unknown, or already timed out) changes nothing.
    pub fn fulfill(&mut self, id: &str) -> (r: Option<W>)
        requires
            old(self).wf(),
        ensures
            final(self).wf(),
            final(self)@ == old(self)@.remove(id@),
            r.is_some() == old(self)@.contains_key(id@),
            r matches Some(w) ==> w == old(self)@[id@],
            deliveries(old(self)@, seq![id@]) == seq![r],
    {
        let r = match self.table.remove(id) {
            Some(e) => Some(e.1),
            None => None,
        };
        proof {
            reveal_with_fuel(deliveries, 2);
            assert(seq![id@].drop_first() =~= Seq::<Seq<char>>::empty());
            if old(self)@.contains_key(id@) {
                assert(seq![Some(old(self)@[id@])] + Seq::<Option<W>>::empty() =~= seq![r]);
            } else {
                assert(seq![None] + Seq::<Option<W>>::empty() =~= seq![r]);
            }
        }
        r
    }

    /// Removes the call `id` whose deadline passed, returning its waiter if
    /// it was still pending.
    pub fn expire(&mut self, id: &str) -> (r: Option<W>)
        requires
            old(self).wf(),
        ensures
            final(self).wf(),
            final(self)@ == old(self)@.remove(id@),
            r.is_some() == old(self)@.contains_key(id@),
            r matches Some(w) ==> w == old(self)@[id@],
    {
        match self.table.remove(id) {
            Some(e) => Some(e.1),
            None => None,
        }
    }

    /// Empties the table on teardown and returns every pending call, each
    /// exactly once, so that each can be failed.
    pub fn fail_all(&mut self) -> (r: Vec<(String, W)>)
        requires
            old(self).wf(),
        ensures
            final(self).wf(),
            final(self)@ == Map::<Seq<char>, W>::empty(),
            lists_exactly(r@, old(self)@),
    {
        self.table.drain()
    }
}

/// Responses arriving in any order, with distinct ids, each reach the waiter
/// registered under their own id, and an id with no pending call reaches
/// nobody.
pub proof fn lemma_correlation<W>(m: Map<Seq<char>, W>, ids: Seq<Seq<char>>)
    requires
        ids.no_duplicates(),
    ensures
        deliveries(m, ids).len() == ids.len(),
        forall|i: int|
            0 <= i < ids.len() ==> #[trigger] deliveries(m, ids)[i] == (if m.contains_key(ids[i]) {
                Some(m[ids[i]])
            } else {
                None
            }),
    decreases ids.len(),
{
    if ids.len() > 0 {
        let rest = ids.drop_first();
        let m2 = if m.contains_key(ids[0]) {
            m.remove(ids[0])
        } else {
            m
        };
        assert(rest.no_duplicates()) by {
            assert forall|a: int, b: int|
                0 <= a < rest.len() && 0 <= b < rest.len() && a != b implies rest[a] != rest[b] by {
                assert(rest[a] == ids[a + 1] && rest[b] == ids[b + 1]);
            }
        }
        lemma_correlation(m2, rest);
        assert forall|i: int| 0 <= i < ids.len() implies #[trigger] deliveries(m, ids)[i] == (
        if m.contains_key(ids[i]) {
            Some(m[ids[i]])
        } else {
            None
        }) by {
            if i > 0 {
                assert(ids[i] == rest[i - 1]);
                assert(ids[i] != ids[0]);
                assert(deliveries(m, ids)[i] == deliveries(m2, rest)[i - 1]);
            }
        }
    }
}

/// Once a call has timed out and left the table, a response with its id,
/// however late and whatever else arrives around it, hands out nothing.
pub proof fn lemma_timeout_exclusive<W>(m: Map<Seq<char>, W>, id: Seq<char>, ids: Seq<Seq<char>>)
    ensures
        deliveries(m.remove(id), ids).len() == ids.len(),
        forall|i: int|
            0 <= i < ids.len() && ids[i] == id ==> #[trigger] deliveries(m.remove(id), ids)[i]
                is None,
{
    lemma_absent_never_delivered(m.remove(id), id, ids);
}

proof fn lemma_absent_never_delivered<W>(m: Map<Seq<char>, W>, id: Seq<char>, ids: Seq<Seq<char>>)
    requires
        !m.contains_key(id),
    ensures
        deliveries(m, ids).len() == ids.len(),
        forall|i: int|
            0 <= i < ids.len() && ids[i] == id ==> #[trigger] deliveries(m, ids)[i] is None,
    decreases ids.len(),
{
    if ids.len() > 0 {
        let rest = ids.drop_first();
        let m2 = if m.contains_key(ids[0]) {
            m.remove(ids[0])
        } else {
            m
        };
        lemma_absent_never_delivered(m2, id, rest);
        assert forall|i: int| 0 <= i < ids.len() && ids[i] == id implies #[trigger] deliveries(
            m,
            ids,
        )[i] is None by {
            if i > 0 {
                assert(ids[i] == rest[i - 1]);
                assert(deliveries(m, ids)[i] == deliveries(m2, rest)[i - 1]);
            }
        }
    }
}

/// The text of the error answer to a request for an unregistered method.
pub open spec fn unknown_method_message(method: Seq<char>) -> Seq<char> {
    "Unknown method: "@ + method
}

/// Command handlers keyed by method name; registering a name again replaces
/// its handler.
pub struct CommandRegistry<H> {
    table: NamedTable<H>,
}

impl<H> View for CommandRegistry<H> {
    type V = Map<Seq<char>, H>;

    closed spec fn view(&self) -> Map<Seq<char>, H> {
        self.table@
    }
}

impl<H> CommandRegistry<H> {
    pub closed spec fn wf(&self) -> bool {
        self.table.wf()
    }

    /// No command registered.
    pub fn new() -> (r: Self)
        ensures
            r.wf(),
            r@ == Map::<Seq<char>, H>::empty(),
    {
        CommandRegistry { table: NamedTable::new() }
    }

    /// Registers `handler` for `name`; the last registration of a name wins.
    pub fn add_command(&mut self, name: &str, handler: H)
        requires
            old(self).wf(),
        ensures
            final(self).wf(),
            final(self)@ == old(self)@.insert(name@, handler),
    {
        let _ = self.table.upsert(owned(name), handler);
    }

    /// The handler of method `name`.
    pub fn get(&self, name: &str) -> (r: Option<&H>)
        requires
            self.wf(),
        ensures
            r.is_some() == self@.contains_key(name@),
            r.is_some() ==> *r.unwrap() == self@[name@],
    {
        self.table.get(name)
    }

    /// Drops every registration.
    pub fn clear(&mut self)
        requires
            old(self).wf(),
        ensures
            final(self).wf(),
            final(self)@ == Map::<Seq<char>, H>::empty(),
    {
        let _ = self.table.drain();
    }

    /// Routes an inbound request: the handler registered for its method, or,
    /// for a method with none, the error answer to send back in its place.
    pub fn dispatch(&self, request: &Request) -> (r: Result<&H, Response>)
        requires
            self.wf(),
        ensures
            r is Ok == self@.contains_key(request.method@),
            r matches Ok(h) ==> *h == self@[request.method@],
            r matches Err(resp) ==> resp.id@ == request.id@ && is_error_payload(
                resp.data,
                unknown_method_message(request.method@),
            ),
    {
        match self.table.get(request.method.as_str()) {
            Some(h) => Ok(h),
            None => {
                let message = owned("Unknown method: ").concat(request.method.as_str());
                Err(Response::from_error(request.id.as_str(), message.as_str()))
            },
        }
    }
}

/// The response that answers `request_id` once its handler has run: the
/// handler's data under the request's id, or, if the handler failed, the
/// error answer carrying its message.
pub fn finish_call(request_id: &str, outcome: Result<Response, String>) -> (r: Response)
    ensures
        r.id@ == request_id@,
        outcome matches Ok(resp) ==> r.data == resp.data,
        outcome matches Err(message) ==> is_error_payload(r.data, message@),
{
    match outcome {
        Ok(resp) => Response::new(request_id, resp.data),
        Err(message) => Response::from_error(request_id, message.as_str()),
    }
}

} // verus!
