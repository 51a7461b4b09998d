//! Mock execution adapter: order submission with a monotone, resettable
//! order-id allocator, and a stub pre-trade check.
//!
//! No network I/O happens here; the adapter preserves only the identity and
//! ordering contract that a future real implementation must honor.

use crate::text::contains_seq;
use vstd::prelude::*;
use vstd::string::StringExecFns;

verus! {

/// Order acknowledgment result.
#[derive(Debug, Clone, PartialEq, Eq)]
pub struct OrderAck {
    /// Unique order ID, monotone within a reset epoch.
    pub order_id: u64,
    /// Whether the order was accepted. Every ack produced here carries `true`;
    /// the field exists for future exchange-level soft rejects.
    pub accepted: bool,
    /// Optional rejection reason; never set on the accepted path.
    pub reason: Option<String>,
}

/// Execution error taxonomy.
#[derive(Debug, Clone, PartialEq, Eq)]
pub enum ExecError {
    /// Order validation failed; the message is human-readable and stable in
    /// its leading token.
    ValidationFailed(String),
    /// Reserved for a network-backed implementation; no path here produces it.
    ConnectionError(String),
    /// Reserved for a network-backed implementation; no path here produces it.
    Timeout,
}

/// The message carried by the rejection of an empty payload.
pub open spec fn empty_payload_msg() -> Seq<char> {
    "Order payload cannot be empty"@
}

/// The order-id allocator: a monotone counter starting at 1, resettable for
/// test isolation.
pub struct ExecAdapter {
    /// The id the next accepted order will take.
    pub next_id: u64,
}

/// One accepted submission: the ack takes the allocator's current id and the
/// allocator moves up by one.
pub open spec fn sent_ok(pre: ExecAdapter, post: ExecAdapter, ack: OrderAck) -> bool {
    &&& ack.order_id == pre.next_id
    &&& ack.accepted == true
    &&& ack.reason is None
    &&& post.next_id == pre.next_id + 1
}

impl ExecAdapter {
    /// Ids start at 1.
    pub open spec fn wf(self) -> bool {
        self.next_id >= 1
    }

    pub fn new() -> (r: ExecAdapter)
        ensures
            r.next_id == 1,
            r.wf(),
    {
        ExecAdapter { next_id: 1 }
    }

    /// Reset the order ID counter (for deterministic testing).
    pub fn reset_order_id_counter(&mut self)
        ensures
            final(self).next_id == 1,
            final(self).wf(),
    {
        self.next_id = 1;
    }

    /// Get the next order ID (deterministic within a reset epoch).
    pub fn next_order_id(&mut self) -> (id: u64)
        requires
            old(self).next_id < u64::MAX,
        ensures
            id == old(self).next_id,
            final(self).next_id == old(self).next_id + 1,
    {
        let id = self.next_id;
        self.next_id = self.next_id + 1;
        id
    }

    /// Send an order and receive an acknowledgment.
    ///
    /// A deterministic mock: empty orders are rejected with a validation
    /// error; non-empty orders are accepted with the next sequential id.
    pub fn send_order(&mut self, order: Vec<u8>) -> (r: Result<OrderAck, ExecError>)
        requires
            old(self).wf(),
            old(self).next_id < u64::MAX,
        ensures
            final(self).wf(),
            order@.len() == 0 <==> r is Err,
            r is Err ==> *final(self) == *old(self),
            r is Err ==> r->Err_0 is ValidationFailed && (
            r->Err_0)->ValidationFailed_0@ == empty_payload_msg(),
            r is Ok ==> sent_ok(*old(self), *final(self), r->Ok_0),
            r is Ok ==> r->Ok_0.order_id >= 1,
    {
        if order.len() == 0 {
            return Err(
                ExecError::ValidationFailed(String::from_str("Order payload cannot be empty")),
            );
        }
        let order_id = self.next_order_id();
        Ok(OrderAck { order_id, accepted: true, reason: None })
    }
}

/// Pre-trade check stub: validates an order before submission. Empty payloads
/// are rejected; further risk checks are future work and invent no semantics.
pub fn pre_trade_check(order: &[u8]) -> (r: Result<(), ExecError>)
    ensures
        order@.len() == 0 <==> r is Err,
        r is Err ==> r->Err_0 is ValidationFailed && (
        r->Err_0)->ValidationFailed_0@ == empty_payload_msg(),
{
    if order.len() == 0 {
        return Err(ExecError::ValidationFailed(String::from_str("Order payload cannot be empty")));
    }
    Ok(())
}

/// Within one reset epoch, the ids of any chain of accepted sends are
/// strictly increasing: `states` walks the allocator through the epoch,
/// `acks[k]` acknowledges the send taking `states[k]` to `states[k + 1]`, and
/// a later ack always carries a greater id.
pub proof fn lemma_order_ids_strictly_increase(
    states: Seq<ExecAdapter>,
    acks: Seq<OrderAck>,
    i: int,
    j: int,
)
    requires
        states.len() == acks.len() + 1,
        forall|k: int| 0 <= k < acks.len() ==> sent_ok(states[k], states[k + 1], acks[k]),
        0 <= i < j < acks.len(),
    ensures
        acks[i].order_id < acks[j].order_id,
    decreases j - i,
{
    if j > i + 1 {
        lemma_order_ids_strictly_increase(states, acks, i, j - 1);
    }
    assert(sent_ok(states[j - 1], states[j], acks[j - 1]));
    assert(sent_ok(states[j], states[j + 1], acks[j]));
}

/// The rejection raised for an empty payload names the token "empty".
pub proof fn lemma_rejection_message_contains_empty()
    ensures
        contains_seq(empty_payload_msg(), "empty"@),
{
    reveal_strlit("Order payload cannot be empty");
    reveal_strlit("empty");
    assert(empty_payload_msg().subrange(24, 24 + "empty"@.len() as int) =~= "empty"@);
}

} // verus!
