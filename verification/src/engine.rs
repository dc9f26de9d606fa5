//! The correlation engine: ties identifier allocation to pending-call
//! bookkeeping.
//!
//! `Correlator<H>` is generic over the completion handle `H` (any one-shot
//! delivery primitive the caller waits on). Beginning a call allocates a
//! fresh identifier and registers the caller's handle under it; resolving an
//! identifier removes and returns exactly the handle registered under it, or
//! nothing when the identifier is unknown, leaving every other pending call
//! untouched.

use crate::codec::{self, Reply};
use crate::errors::CallError;
use crate::ids::IdGen;
use crate::json;
use std::collections::HashMap;
use vstd::prelude::*;
use vstd::string::StringExecFns;

verus! {

broadcast use vstd::std_specs::hash::group_hash_axioms;

/// Correlation state: the identifier generator and the table of pending
/// calls, keyed by request identifier.
pub struct Correlator<H> {
    ids: IdGen,
    pending: HashMap<u64, H>,
}

impl<H> Correlator<H> {
    /// The pending-call table: which handle waits on which identifier.
    pub closed spec fn pending(self) -> Map<u64, H> {
        self.pending@
    }

    /// Every identifier allocated so far, oldest first.
    pub closed spec fn issued(self) -> Seq<u64> {
        self.ids.issued()
    }

    /// The identifier the next call will receive.
    pub closed spec fn next_id(self) -> u64 {
        self.ids.next_id()
    }

    /// Every pending identifier was allocated before the next one, so a
    /// freshly allocated identifier can never collide with a waiter.
    pub closed spec fn wf(self) -> bool {
        &&& self.ids.wf()
        &&& forall|id: u64| #[trigger] self.pending().contains_key(id) ==> id < self.next_id()
    }

    pub fn new() -> (c: Correlator<H>)
        ensures
            c.wf(),
            c.pending() == Map::<u64, H>::empty(),
            c.issued() == Seq::<u64>::empty(),
            c.next_id() == 1,
    {
        Correlator { ids: IdGen::new(), pending: HashMap::new() }
    }

    /// Begins a call: allocates a fresh identifier, distinct from every
    /// identifier ever allocated, and registers `handle` as the one waiter
    /// on it. No other pending entry is disturbed.
    pub fn begin_call(&mut self, handle: H) -> (id: u64)
        requires
            old(self).wf(),
            old(self).next_id() < u64::MAX,
        ensures
            final(self).wf(),
            id == old(self).next_id(),
            !old(self).pending().contains_key(id),
            final(self).pending() == old(self).pending().insert(id, handle),
            final(self).issued() == old(self).issued().push(id),
            final(self).next_id() == id + 1,
    {
        let id = self.ids.fresh();
        self.pending.insert(id, handle);
        proof {
            assert forall|k: u64| #[trigger] self.pending@.contains_key(k) implies k
                < self.ids.next_id() by {
                if k != id {
                    assert(old(self).pending().contains_key(k));
                }
            }
        }
        id
    }

    /// Delivers a reply identifier to the table: if a waiter is registered
    /// under `id`, it is removed and returned — exactly the handle that
    /// `begin_call` registered under `id`. An unknown identifier returns
    /// nothing and leaves the table exactly as it was, so stale or duplicate
    /// replies affect no pending call.
    pub fn resolve(&mut self, id: u64) -> (r: Option<H>)
        requires
            old(self).wf(),
        ensures
            final(self).wf(),
            old(self).pending().contains_key(id) ==> r == Some(old(self).pending()[id])
                && final(self).pending() == old(self).pending().remove(id),
            !old(self).pending().contains_key(id) ==> r is None && final(self).pending()
                == old(self).pending(),
            final(self).issued() == old(self).issued(),
            final(self).next_id() == old(self).next_id(),
    {
        let r = self.pending.remove(&id);
        proof {
            if !old(self).pending().contains_key(id) {
                assert(old(self).pending().remove(id) =~= old(self).pending());
            }
        }
        r
    }

    /// The identifier the next call will receive; `begin_call` asks for
    /// headroom below `u64::MAX`, which this lets a caller check.
    pub fn peek_next_id(&self) -> (n: u64)
        ensures
            n == self.next_id(),
    {
        self.ids.peek_next()
    }

    /// How many calls are still waiting for a reply.
    pub fn pending_len(&self) -> (n: usize)
        ensures
            n == self.pending().dom().len(),
    {
        self.pending.len()
    }

    /// One step of the reply listener: decodes an inbound event and, exactly
    /// when it is a well-formed reply (integer `id`, boolean `success`, no
    /// ill-typed `error`) whose identifier has a waiter, removes and returns
    /// that waiter — the one registered under the reply's identifier —
    /// together with the reply, whose fields are the text's own. Whenever
    /// nothing is returned (malformed event, or no matching waiter), every
    /// pending call is left exactly as it was; no event can disturb another
    /// caller.
    pub fn handle_event(&mut self, text: &str) -> (r: Option<(H, Reply)>)
        requires
            old(self).wf(),
        ensures
            final(self).wf(),
            final(self).issued() == old(self).issued(),
            final(self).next_id() == old(self).next_id(),
            (r is Some) == (match json::wire_id(text@) {
                Some(i) => json::wire_success(text@) is Some && !json::wire_error_malformed(
                    text@,
                ) && old(self).pending().contains_key(i),
                None => false,
            }),
            r matches Some((h, rep)) ==> {
                &&& json::wire_id(text@) == Some(rep.id)
                &&& json::wire_success(text@) == Some(rep.success)
                &&& (rep.data is Some) == json::wire_data_present(text@)
                &&& (match json::wire_error_text(text@) {
                    Some(t) => rep.error matches Some(e) && e@ == t,
                    None => rep.error is None,
                })
                &&& old(self).pending().contains_key(rep.id)
                &&& h == old(self).pending()[rep.id]
                &&& final(self).pending() == old(self).pending().remove(rep.id)
            },
            r is None ==> final(self).pending() == old(self).pending(),
    {
        match codec::decode_reply(text) {
            Some(rep) => match self.resolve(rep.id) {
                Some(h) => Some((h, rep)),
                None => None,
            },
            None => None,
        }
    }
}

/// Interprets a resolved reply for the caller of `method`. A successful
/// reply yields its data (no data stands for JSON null, which the caller
/// decodes); a failed reply yields a method-scoped error carrying the
/// remote message, or `"unknown error"` when the reply supplied none.
pub fn interpret_reply(method: &str, reply: Reply) -> (r: Result<
    Option<serde_json::Value>,
    CallError,
>)
    ensures
        reply.success ==> r == Ok::<Option<serde_json::Value>, CallError>(reply.data),
        !reply.success ==> (r matches Err(e) && (e matches CallError::Failed {
            method: m,
            message: msg,
        } && m@ == method@ && (reply.error matches Some(t) ==> msg == t) && (reply.error is None
            ==> msg@ == "unknown error"@))),
{
    if reply.success {
        Ok(reply.data)
    } else {
        let message = match reply.error {
            Some(t) => t,
            None => String::from_str("unknown error"),
        };
        Err(CallError::Failed { method: String::from_str(method), message })
    }
}

/// The error a call ends in when its completion handle is released without
/// a reply ever arriving.
pub fn dropped_error(method: &str) -> (e: CallError)
    ensures
        e matches CallError::Dropped { method: m } && m@ == method@,
{
    CallError::Dropped { method: String::from_str(method) }
}

/// The channel on which encoded requests are published.
pub fn request_channel() -> (r: &'static str)
    ensures
        r@ == "astrobox://frontinvoke/request"@,
{
    "astrobox://frontinvoke/request"
}

/// The channel on which reply events arrive.
pub fn response_channel() -> (r: &'static str)
    ensures
        r@ == "astrobox://frontinvoke/response"@,
{
    "astrobox://frontinvoke/response"
}

/// The table built by registering a sequence of calls in order.
pub open spec fn table_of<H>(calls: Seq<(u64, H)>) -> Map<u64, H>
    decreases calls.len(),
{
    if calls.len() == 0 {
        Map::empty()
    } else {
        table_of(calls.drop_last()).insert(calls.last().0, calls.last().1)
    }
}

/// Law: for any sequence of concurrent calls whose identifiers are pairwise
/// distinct, the table maps each call's identifier to that call's own
/// handle — so every reply reaches exactly the caller whose identifier it
/// bears, regardless of how many other calls are in flight.
pub proof fn lemma_each_call_keeps_own_handle<H>(calls: Seq<(u64, H)>, k: int)
    requires
        forall|i: int, j: int|
            0 <= i < j < calls.len() ==> (#[trigger] calls[i]).0 != (#[trigger] calls[j]).0,
        0 <= k < calls.len(),
    ensures
        table_of(calls).contains_key(calls[k].0),
        table_of(calls)[calls[k].0] == calls[k].1,
    decreases calls.len(),
{
    if k == calls.len() - 1 {
    } else {
        assert(calls.drop_last()[k] == calls[k]);
        lemma_each_call_keeps_own_handle(calls.drop_last(), k);
        assert(calls[k].0 != calls.last().0);
    }
}

/// Law: of two replies bearing the same identifier, the first resolves the
/// matching call and removes its entry, so the second finds no pending
/// entry and is discarded as unmatched.
pub proof fn lemma_second_reply_is_unmatched<H>(pending: Map<u64, H>, id: u64)
    requires
        pending.contains_key(id),
    ensures
        !pending.remove(id).contains_key(id),
{
}

} // verus!

