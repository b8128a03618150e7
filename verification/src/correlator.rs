//! Correlation table between in-flight request identifiers and the pending
//! completions that are waiting for their replies.
//!
//! The table is a bijection from request ids to single-use completion
//! handles. Registration rejects an id that is already pending instead of
//! overwriting it, so an id-generation anomaly surfaces rather than being
//! masked; resolution removes the entry, so a reply is delivered at most
//! once and a second resolution of the same id is a no-op.

use vstd::prelude::*;

verus! {

broadcast use vstd::std_specs::hash::group_hash_axioms;

/// The registration step found the id already pending: an
/// internal-consistency error, never silently absorbed.
#[derive(Clone, Copy, PartialEq, Eq, Structural, Debug)]
pub enum CorrelationError {
    DuplicateRequestId,
}

/// The set of requests currently awaiting a reply, keyed by request id.
///
/// `C` is the completion handle a waiter left behind; resolving an id hands
/// the handle back so the reply can be delivered to exactly that waiter.
#[verifier::reject_recursive_types(C)]
pub struct ActiveRequests<C> {
    pending: vstd::hash_map::HashMapWithView<u64, C>,
}

impl<C> View for ActiveRequests<C> {
    type V = Map<u64, C>;

    closed spec fn view(&self) -> Map<u64, C> {
        self.pending@
    }
}

impl<C> ActiveRequests<C> {
    /// Creates an empty table: nothing is pending.
    pub fn new() -> (requests: Self)
        ensures
            requests@ == Map::<u64, C>::empty(),
    {
        ActiveRequests { pending: vstd::hash_map::HashMapWithView::new() }
    }

    /// Number of requests currently pending.
    pub fn pending_count(&self) -> (n: usize)
        ensures
            n == self@.len(),
    {
        self.pending.len()
    }

    /// Whether a request with this id is currently pending.
    pub fn is_pending(&self, request_id: u64) -> (pending: bool)
        ensures
            pending == self@.contains_key(request_id),
    {
        self.pending.contains_key(&request_id)
    }

    /// Registers a new pending request.
    ///
    /// Succeeds exactly when the id is not already pending; a duplicate id is
    /// rejected and the table is left unchanged, so no waiter is ever
    /// silently disconnected from its completion.
    pub fn register(&mut self, request_id: u64, completion: C) -> (result: Result<
        (),
        CorrelationError,
    >)
        ensures
            result is Ok <==> !old(self)@.contains_key(request_id),
            result is Ok ==> final(self)@ == old(self)@.insert(request_id, completion),
            result is Err ==> final(self)@ == old(self)@ && result == Err::<(),
            CorrelationError>(CorrelationError::DuplicateRequestId),
    {
        if self.pending.contains_key(&request_id) {
            Err(CorrelationError::DuplicateRequestId)
        } else {
            self.pending.insert(request_id, completion);
            Ok(())
        }
    }

    /// Resolves a pending request: removes the entry and returns the
    /// completion that was registered for it.
    ///
    /// An id that is not pending — a duplicate delivery, a reply after
    /// cancellation, or an id this process never issued — yields `None` and
    /// leaves every other entry untouched; this path never fails loudly,
    /// since the id comes from untrusted network input.
    pub fn resolve(&mut self, request_id: u64) -> (completion: Option<C>)
        ensures
            old(self)@.contains_key(request_id) ==> completion == Some(
                old(self)@[request_id],
            ) && final(self)@ == old(self)@.remove(request_id),
            !old(self)@.contains_key(request_id) ==> completion is None && final(self)@ == old(
                self,
            )@,
    {
        self.pending.remove(&request_id)
    }
}

/// Law: ids pending at the same time never collide. An id that a successful
/// registration just added was, by `register`'s contract, not pending
/// before, so it differs from every id that was already in the table.
pub proof fn lemma_pending_ids_distinct<C>(pending: Map<u64, C>, fresh_id: u64, pending_id: u64)
    requires
        !pending.contains_key(fresh_id),
        pending.contains_key(pending_id),
    ensures
        fresh_id != pending_id,
{
}

/// Law: registering an id and then resolving it delivers the registered
/// completion exactly once. After the first resolution the table is exactly
/// what it was before registration, so a second resolution of the same id
/// finds nothing and, by `resolve`'s contract, is a no-op.
pub proof fn lemma_register_then_resolve_once<C>(pending: Map<u64, C>, request_id: u64, completion: C)
    requires
        !pending.contains_key(request_id),
    ensures
        pending.insert(request_id, completion)[request_id] == completion,
        pending.insert(request_id, completion).remove(request_id) == pending,
        !pending.insert(request_id, completion).remove(request_id).contains_key(request_id),
{
    assert(pending.insert(request_id, completion).remove(request_id) =~= pending);
}

/// Law: resolving an id that was never registered leaves every pending
/// entry unaffected: each other id is still pending, with the same
/// completion.
pub proof fn lemma_resolve_unknown_id_harmless<C>(pending: Map<u64, C>, unknown_id: u64)
    requires
        !pending.contains_key(unknown_id),
    ensures
        forall|id: u64| #[trigger]
            pending.remove(unknown_id).contains_key(id) <==> pending.contains_key(id),
        forall|id: u64| pending.contains_key(id) ==> #[trigger] pending.remove(unknown_id)[id]
            == pending[id],
        pending.remove(unknown_id) == pending,
{
    assert(pending.remove(unknown_id) =~= pending);
}

} // verus!
