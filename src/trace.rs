//! Trace-context bridge: reads the W3C `traceparent` header of an inbound
//! request and derives the header that the outbound pricing call carries.

use std::collections::HashMap;
use opentelemetry::propagation::TextMapPropagator;
use opentelemetry::trace::{SpanContext, SpanId, TraceContextExt, TraceFlags, TraceId, TraceState};
use opentelemetry::Context;
use opentelemetry_sdk::propagation::TraceContextPropagator;
use opentelemetry_sdk::trace::{IdGenerator, RandomIdGenerator};
use vstd::prelude::*;
use crate::text::hex_digits;

verus! {

/// The identifiers that tie a span to a distributed trace.
#[derive(Debug, Clone, Copy, PartialEq, Eq)]
pub struct TraceContext {
    pub trace_id: u128,
    pub span_id: u64,
    pub sampled: bool,
}

impl TraceContext {
    /// A context is valid when neither identifier is zero.
    pub open spec fn is_valid(&self) -> bool {
        self.trace_id != 0 && self.span_id != 0
    }
}

/// The canonical version-00 `traceparent` text:
/// `00-<32 hex digits>-<16 hex digits>-<01 when sampled, else 00>`.
pub open spec fn traceparent_text(trace_id: u128, span_id: u64, sampled: bool) -> Seq<char> {
    seq!['0', '0', '-'] + hex_digits(trace_id as nat, 32) + seq!['-'] + hex_digits(span_id as nat, 16)
        + seq!['-'] + hex_digits(if sampled { 1 } else { 0 }, 2)
}

/// What the W3C trace-context propagator reads from a `traceparent` value:
/// trace id, span id and sampled flag, all zero where it reads no valid context.
pub uninterp spec fn traceparent_ids(header: Seq<char>) -> (u128, u64, bool);

/// Relies on opentelemetry_sdk's TraceContextPropagator::extract_with_context,
/// started from an empty context: it yields a remote span context only for a
/// well-formed value with non-zero ids, and the empty context (all zero) else.
#[verifier::external_body]
fn extract_traceparent(header: &str) -> (r: (u128, u64, bool))
    ensures
        r == traceparent_ids(header@),
        (r.0 != 0) == (r.1 != 0),
        forall|t: u128, s: u64, b: bool|
            t != 0 && s != 0 && header@ == #[trigger] traceparent_text(t, s, b) ==> r == (t, s, b),
{
    let mut carrier: HashMap<String, String> = HashMap::new();
    carrier.insert("traceparent".to_string(), header.to_string());
    let cx = TraceContextPropagator::new().extract_with_context(&Context::new(), &carrier);
    let span = cx.span();
    let sc = span.span_context();
    (u128::from_be_bytes(sc.trace_id().to_bytes()), u64::from_be_bytes(sc.span_id().to_bytes()), sc.is_sampled())
}

/// Relies on opentelemetry_sdk's TraceContextPropagator::inject_context, which
/// writes the canonical `traceparent` text for a valid span context and
/// nothing for an invalid one.
#[verifier::external_body]
fn inject_traceparent(trace_id: u128, span_id: u64, sampled: bool) -> (r: Option<String>)
    ensures
        trace_id != 0 && span_id != 0 ==> r is Some && r.unwrap()@ == traceparent_text(trace_id, span_id, sampled),
        trace_id == 0 || span_id == 0 ==> r is None,
{
    let flags = TraceFlags::new(sampled as u8);
    let sc = SpanContext::new(TraceId::from(trace_id), SpanId::from(span_id), flags, true, TraceState::default());
    let cx = Context::new().with_remote_span_context(sc);
    let mut carrier: HashMap<String, String> = HashMap::new();
    TraceContextPropagator::new().inject_context(&cx, &mut carrier);
    carrier.remove("traceparent")
}

/// Relies on opentelemetry_sdk's RandomIdGenerator::new_trace_id: a random
/// 128-bit trace id.
#[verifier::external_body]
fn random_trace_id() -> (r: u128) {
    u128::from_be_bytes(RandomIdGenerator::default().new_trace_id().to_bytes())
}

/// Relies on opentelemetry_sdk's RandomIdGenerator::new_span_id: a random
/// 64-bit span id.
#[verifier::external_body]
fn random_span_id() -> (r: u64) {
    u64::from_be_bytes(RandomIdGenerator::default().new_span_id().to_bytes())
}

/// The value under `key` in header pairs: the first pair whose name is `key`.
pub open spec fn header_lookup(headers: Seq<(String, String)>, key: Seq<char>) -> Option<Seq<char>>
    decreases headers.len(),
{
    if headers.len() == 0 {
        None
    } else if headers[0].0@ == key {
        Some(headers[0].1@)
    } else {
        header_lookup(headers.drop_first(), key)
    }
}

/// Looks up the first header named `key`.
pub fn header_value(headers: &Vec<(String, String)>, key: &String) -> (r: Option<String>)
    ensures
        r is Some == header_lookup(headers@, key@) is Some,
        r is Some ==> r.unwrap()@ == header_lookup(headers@, key@).unwrap(),
{
    let mut i: usize = 0;
    assert(headers@.skip(0) =~= headers@);
    while i < headers.len()
        invariant
            0 <= i <= headers@.len(),
            header_lookup(headers@, key@) == header_lookup(headers@.skip(i as int), key@),
        decreases headers@.len() - i,
    {
        assert(headers@.skip(i as int).drop_first() =~= headers@.skip(i as int + 1));
        if headers[i].0 == *key {
            return Some(headers[i].1.clone());
        }
        i = i + 1;
    }
    None
}

/// The context that a set of read identifiers stands for: none when they are
/// zero.
pub open spec fn context_of_ids(ids: (u128, u64, bool)) -> Option<TraceContext> {
    if ids.0 != 0 && ids.1 != 0 {
        Some(TraceContext { trace_id: ids.0, span_id: ids.1, sampled: ids.2 })
    } else {
        None
    }
}

/// The parent context that inbound headers carry.
pub open spec fn inbound_parent(headers: Seq<(String, String)>) -> Option<TraceContext> {
    match header_lookup(headers, "traceparent"@) {
        Some(v) => context_of_ids(traceparent_ids(v)),
        None => None,
    }
}

/// Reads the parent trace context from inbound headers. An absent or
/// malformed `traceparent` yields `None`, a fresh root.
pub fn extract_parent(headers: &Vec<(String, String)>) -> (r: Option<TraceContext>)
    ensures
        r == inbound_parent(headers@),
        r matches Some(p) ==> p.is_valid(),
        forall|t: u128, s: u64, b: bool|
            t != 0 && s != 0 && header_lookup(headers@, "traceparent"@) is Some
                && header_lookup(headers@, "traceparent"@).unwrap() == #[trigger] traceparent_text(t, s, b)
                ==> r == Some(TraceContext { trace_id: t, span_id: s, sampled: b }),
{
    let key = String::from_str("traceparent");
    match header_value(headers, &key) {
        None => None,
        Some(v) => {
            let ids = extract_traceparent(v.as_str());
            if ids.0 != 0 && ids.1 != 0 {
                Some(TraceContext { trace_id: ids.0, span_id: ids.1, sampled: ids.2 })
            } else {
                None
            }
        },
    }
}

/// The context of the span that makes the outbound call: a child of `parent`
/// (same trace and sampling, new span id), or a sampled root with a fresh
/// trace id when there is no parent.
pub open spec fn child_of(parent: Option<TraceContext>, fresh_trace: u128, fresh_span: u64) -> TraceContext {
    match parent {
        Some(p) => TraceContext { trace_id: p.trace_id, span_id: fresh_span, sampled: p.sampled },
        None => TraceContext { trace_id: fresh_trace, span_id: fresh_span, sampled: true },
    }
}

/// Derives the outbound span's context from the parent and fresh identifiers.
pub fn child_context(parent: Option<TraceContext>, fresh_trace: u128, fresh_span: u64) -> (r: TraceContext)
    ensures
        r == child_of(parent, fresh_trace, fresh_span),
{
    match parent {
        Some(p) => TraceContext { trace_id: p.trace_id, span_id: fresh_span, sampled: p.sampled },
        None => TraceContext { trace_id: fresh_trace, span_id: fresh_span, sampled: true },
    }
}

/// `h` is the outbound header for `cx`: its canonical text when `cx` is
/// valid, and no header when it is not.
pub open spec fn is_header_for(h: Option<String>, cx: TraceContext) -> bool {
    &&& cx.is_valid() ==> h is Some && h.unwrap()@ == traceparent_text(cx.trace_id, cx.span_id, cx.sampled)
    &&& !cx.is_valid() ==> h is None
}

/// The `traceparent` header value to send for `cx`.
pub fn outbound_traceparent(cx: &TraceContext) -> (r: Option<String>)
    ensures
        is_header_for(r, *cx),
{
    inject_traceparent(cx.trace_id, cx.span_id, cx.sampled)
}

/// Draws fresh trace and span identifiers for a new span.
pub fn fresh_ids() -> (r: (u128, u64)) {
    (random_trace_id(), random_span_id())
}

/// When an inbound `traceparent` names trace `t`, and the outbound span is a
/// valid context in that trace, the outbound header carries the same trace id
/// text, in the same place.
pub proof fn lemma_outbound_keeps_trace_id(
    inbound: Seq<char>,
    t: u128,
    s: u64,
    b: bool,
    cx: TraceContext,
    out: Option<String>,
)
    requires
        t != 0,
        s != 0,
        inbound == traceparent_text(t, s, b),
        cx.trace_id == t,
        cx.span_id != 0,
        is_header_for(out, cx),
    ensures
        out is Some,
        out.unwrap()@.subrange(3, 35) == inbound.subrange(3, 35),
        out.unwrap()@.subrange(3, 35) == hex_digits(t as nat, 32),
{
    lemma_hex_digits_len(t as nat, 32);
    lemma_hex_digits_len(s as nat, 16);
    lemma_hex_digits_len(cx.span_id as nat, 16);
    lemma_hex_digits_len(if b { 1 } else { 0 }, 2);
    lemma_hex_digits_len(if cx.sampled { 1 } else { 0 }, 2);
    let h = out.unwrap()@;
    assert(h.subrange(3, 35) =~= hex_digits(t as nat, 32));
    assert(inbound.subrange(3, 35) =~= hex_digits(t as nat, 32));
}

/// A hexadecimal rendering has exactly the requested width.
pub proof fn lemma_hex_digits_len(n: nat, width: nat)
    ensures
        hex_digits(n, width).len() == width,
    decreases width,
{
    if width > 0 {
        lemma_hex_digits_len(n / 16, (width - 1) as nat);
    }
}

} // verus!
