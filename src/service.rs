//! The two request handlers. A get-quote request is handled in two steps
//! around the one outbound call to the pricing collaborator: `plan_get_quote`
//! decides what to send, `finish_get_quote` turns the answer into a response.

use vstd::prelude::*;
use crate::cart::{quantity_sum, quote_request_body, quote_request_json, total_item_count};
use crate::quote::{create_quote_from_reading, money_of, quote_of, PriceReading};
use crate::trace::{
    child_context, child_of, extract_parent, fresh_ids, header_lookup, inbound_parent,
    is_header_for, outbound_traceparent, traceparent_text, TraceContext,
};
use crate::tracking::{create_tracking_id, is_uuid_v4_text};
use crate::types::{GetQuoteRequest, GetQuoteResponse, QuoteError, ShipOrderRequest, ShipOrderResponse};

verus! {

/// The outbound call that prices a cart.
#[derive(Debug, Clone, PartialEq, Eq)]
pub struct QuoteCall {
    /// The total item count sent to the pricing collaborator.
    pub item_count: u32,
    /// The JSON body of the call.
    pub body: String,
    /// The `traceparent` header of the call, when its span context is valid.
    pub traceparent: Option<String>,
    /// The context of the span that makes the call.
    pub context: TraceContext,
}

/// `c` is the call for a cart whose total is `count`, made from `cx`.
pub open spec fn is_call_for(c: QuoteCall, count: nat, cx: TraceContext) -> bool {
    &&& c.item_count == count
    &&& c.body@ == quote_request_json(count)
    &&& c.context == cx
    &&& is_header_for(c.traceparent, cx)
}

/// `r` is the get-quote response for a successful reading.
pub open spec fn is_response_for(r: GetQuoteResponse, reading: PriceReading) -> bool {
    r.cost_usd is Some && money_of(quote_of(reading), r.cost_usd.unwrap())
}

/// The shipping service; it holds no state across requests.
#[derive(Debug, Clone, Copy, PartialEq, Eq, Default)]
pub struct ShippingServer {}

impl ShippingServer {
    /// Decides the pricing call for `req`, made by a span whose parent is
    /// `parent` and whose fresh identifiers are given. Fails with
    /// `InvalidInput` exactly when the total quantity exceeds `u32::MAX`.
    pub fn plan_get_quote(
        &self,
        req: &GetQuoteRequest,
        parent: Option<TraceContext>,
        fresh_trace: u128,
        fresh_span: u64,
    ) -> (r: Result<QuoteCall, QuoteError>)
        ensures
            quantity_sum(req.items@) <= u32::MAX ==> r is Ok && is_call_for(
                r->Ok_0,
                quantity_sum(req.items@),
                child_of(parent, fresh_trace, fresh_span),
            ),
            quantity_sum(req.items@) > u32::MAX ==> r matches Err(QuoteError::InvalidInput(_)),
    {
        match total_item_count(&req.items) {
            None => Err(QuoteError::InvalidInput(String::from_str("total item count exceeds u32::MAX"))),
            Some(count) => {
                let cx = child_context(parent, fresh_trace, fresh_span);
                let traceparent = outbound_traceparent(&cx);
                Ok(QuoteCall { item_count: count, body: quote_request_body(count), traceparent, context: cx })
            },
        }
    }

    /// Starts a get-quote request: reads the parent trace context from the
    /// inbound headers, draws identifiers for the outbound span, and plans
    /// the pricing call.
    pub fn start_get_quote(&self, req: &GetQuoteRequest, inbound: &Vec<(String, String)>) -> (r: Result<QuoteCall, QuoteError>)
        ensures
            quantity_sum(req.items@) <= u32::MAX ==> r is Ok && r->Ok_0.item_count == quantity_sum(req.items@)
                && r->Ok_0.body@ == quote_request_json(quantity_sum(req.items@))
                && is_header_for(r->Ok_0.traceparent, r->Ok_0.context)
                && (inbound_parent(inbound@) matches Some(p) ==> r->Ok_0.context.trace_id == p.trace_id
                    && r->Ok_0.context.sampled == p.sampled)
                && (inbound_parent(inbound@) is None ==> r->Ok_0.context.sampled),
            forall|t: u128, s: u64, b: bool|
                t != 0 && s != 0 && header_lookup(inbound@, "traceparent"@) is Some
                    && header_lookup(inbound@, "traceparent"@).unwrap() == #[trigger] traceparent_text(t, s, b)
                    && r is Ok
                    ==> r->Ok_0.context.trace_id == t && r->Ok_0.context.sampled == b,
            quantity_sum(req.items@) > u32::MAX ==> r matches Err(QuoteError::InvalidInput(_)),
    {
        let parent = extract_parent(inbound);
        let (fresh_trace, fresh_span) = fresh_ids();
        self.plan_get_quote(req, parent, fresh_trace, fresh_span)
    }

    /// Finishes a get-quote request from what the pricing call produced: a
    /// price reading gives its quote as US-dollar money; an error is passed
    /// on unchanged, with no partial response.
    pub fn finish_get_quote(&self, outcome: Result<PriceReading, QuoteError>) -> (r: Result<GetQuoteResponse, QuoteError>)
        ensures
            outcome matches Ok(reading) ==> r is Ok && is_response_for(r->Ok_0, reading),
            outcome matches Err(e) ==> r == Err::<GetQuoteResponse, QuoteError>(e),
    {
        match outcome {
            Ok(reading) => {
                let q = create_quote_from_reading(&reading);
                Ok(GetQuoteResponse { cost_usd: Some(q.to_money()) })
            },
            Err(e) => Err(e),
        }
    }

    /// Ships an order: the request is not inspected, and the response holds a
    /// fresh tracking identifier.
    pub fn ship_order(&self, req: &ShipOrderRequest) -> (r: ShipOrderResponse)
        ensures
            is_uuid_v4_text(r.tracking_id@),
    {
        ShipOrderResponse { tracking_id: create_tracking_id() }
    }
}

/// The health service; it always reports that it is serving.
#[derive(Debug, Clone, Copy, PartialEq, Eq, Default)]
pub struct HealthCheckServer {}

impl HealthCheckServer {
    /// The health status text.
    pub fn check(&self) -> (r: &'static str)
        ensures
            r@ == "healthy: SERVING"@,
    {
        "healthy: SERVING"
    }
}

} // verus!
