//! The request context: the deadline and the trace identity that every call
//! carries from client to server, where the deadline is enforced.
//!
//! A context is made once per call and never changed. It is either inherited
//! from the call that is being served at the moment, which the tracing span
//! in scope knows, or made afresh with a default deadline and a new trace.

use crate::absolute_to_relative_time::decode;
use crate::absolute_to_relative_time::decode_spec;
use crate::absolute_to_relative_time::encode;
use crate::absolute_to_relative_time::encode_spec;
use crate::time::max_nanos;
use crate::time::AbsoluteTime;
use crate::time::Clock;
use crate::time::RelativeTime;
use crate::trace;
use crate::trace::SamplingDecision;
use crate::trace::SpanId;
use crate::trace::TraceId;
use vstd::prelude::*;

verus! {

/// Seconds that a call is given when no deadline is inherited.
pub const DEFAULT_WINDOW_SECS: u64 = 10;

/// The default window in nanoseconds.
pub open spec fn default_window() -> nat {
    10_000_000_000
}

/// The deadline of a call that starts at the reading `now` and inherits
/// none: the default window later, or the last reading that can be
/// represented where that comes first.
pub open spec fn default_deadline(now: nat) -> nat {
    if now + default_window() <= max_nanos() {
        now + default_window()
    } else {
        max_nanos()
    }
}

/// Whether a call is served within the process or sent to another one. The
/// value informs; no rule depends on it.
#[derive(Clone, Copy, Debug, PartialEq, Eq, Structural)]
pub enum CallType {
    /// Local procedure call.
    LPC,
    /// Remote procedure call.
    RPC,
}

/// The call type that the one-byte tag `tag` stands for.
pub open spec fn call_type_of(tag: u8) -> Option<CallType> {
    if tag == 0 {
        Some(CallType::LPC)
    } else if tag == 1 {
        Some(CallType::RPC)
    } else {
        None
    }
}

impl CallType {
    /// The one-byte tag of the call type on the wire.
    pub fn tag(&self) -> (tag: u8)
        ensures
            call_type_of(tag) == Some(*self),
    {
        match self {
            CallType::LPC => 0,
            CallType::RPC => 1,
        }
    }

    /// The call type with the tag `tag`; `None` for a tag that stands for no
    /// call type.
    pub fn from_tag(tag: u8) -> (call_type: Option<CallType>)
        ensures
            call_type == call_type_of(tag),
    {
        if tag == 0 {
            Some(CallType::LPC)
        } else if tag == 1 {
            Some(CallType::RPC)
        } else {
            None
        }
    }
}

/// A request context. It is sent from client to server with every request,
/// and the server enforces its deadline.
///
/// A context belongs to one request and should not be stored by a server
/// beyond it.
#[derive(Clone, Copy, Debug, PartialEq, Eq, Structural)]
pub struct Context {
    /// The reading of the local clock by which the client expects the
    /// request to be complete. The server stops waiting for a request that
    /// is not complete by then.
    pub deadline: AbsoluteTime,
    /// Ties the request to the logical operation it belongs to. Requests
    /// made while serving a request carry the same trace id as that request.
    pub trace_context: trace::Context,
    /// Whether the call is local or remote.
    pub call_type: CallType,
}

/// A request context as it crosses from one process to another: the deadline
/// as the time that was left when the context was sent, the trace identity,
/// and the call type as its one-byte tag.
#[derive(Clone, Copy, Debug, PartialEq, Eq, Structural)]
pub struct WireContext {
    /// The time that was left until the deadline when the context was sent.
    pub deadline: RelativeTime,
    /// The trace that the request belongs to.
    pub trace_id: u128,
    /// The span of the request within the trace.
    pub span_id: u64,
    /// Whether the trace is recorded.
    pub sampled: bool,
    /// The tag of the call type.
    pub call_type: u8,
}

/// Why a context that has come over the wire is refused.
#[derive(Clone, Copy, Debug, PartialEq, Eq, Structural)]
pub enum WireError {
    /// The tag stands for no call type.
    UnknownCallType(u8),
    /// The deadline lies beyond the last reading the local clock can show.
    DeadlineOutOfRange,
}

/// The context that `wire` stands for when it is received at the reading
/// `now` of the local clock.
pub open spec fn received(wire: WireContext, now: nat) -> Result<(nat, trace::Context, CallType), WireError> {
    match call_type_of(wire.call_type) {
        None => Err(WireError::UnknownCallType(wire.call_type)),
        Some(call_type) => if decode_spec(wire.deadline@, now) <= max_nanos() {
            Ok(
                (
                    decode_spec(wire.deadline@, now),
                    trace::Context {
                        trace_id: TraceId(wire.trace_id),
                        span_id: SpanId(wire.span_id),
                        sampling_decision: if wire.sampled {
                            SamplingDecision::Sampled
                        } else {
                            SamplingDecision::Unsampled
                        },
                    },
                    call_type,
                ),
            )
        } else {
            Err(WireError::DeadlineOutOfRange)
        },
    }
}

/// The deadline as it is kept among the values of a telemetry context, where
/// a value is found by its type.
#[derive(Clone, Copy, Debug)]
struct Deadline(AbsoluteTime);

#[verifier::external_type_specification]
#[verifier::external_body]
pub struct ExSpan(tracing::Span);

/// A telemetry context of opentelemetry: a collection that holds at most one
/// span and, found by their types, any number of values.
#[verifier::external_body]
pub struct TelemetryContext {
    inner: opentelemetry::Context,
}

/// The span that a telemetry context holds, as trace id, span id and
/// sampling flag: one entry where it holds a span, none where it does not.
pub uninterp spec fn held_span(cx: TelemetryContext) -> Seq<(u128, u64, bool)>;

/// The deadline that a telemetry context holds among its values, in
/// nanoseconds from the clock's origin: one entry where it holds one, none
/// where it does not.
pub uninterp spec fn held_deadline(cx: TelemetryContext) -> Seq<nat>;

/// `tracing::Span::current`: the span that the subscriber takes to be in
/// scope on this thread. Nothing is claimed of it.
#[verifier::external_body]
fn span_current() -> tracing::Span {
    tracing::Span::current()
}

/// `OpenTelemetrySpanExt::context` of tracing-opentelemetry: the telemetry
/// context that the subscriber keeps for `span`, or an empty one. Nothing is
/// claimed of it.
#[verifier::external_body]
fn span_context(span: &tracing::Span) -> TelemetryContext {
    TelemetryContext { inner: tracing_opentelemetry::OpenTelemetrySpanExt::context(span) }
}

/// `OpenTelemetrySpanExt::set_parent` of tracing-opentelemetry: hands `cx`
/// to the subscriber as the parent context of `span`.
#[verifier::external_body]
fn span_set_parent(span: &tracing::Span, cx: TelemetryContext) {
    tracing_opentelemetry::OpenTelemetrySpanExt::set_parent(span, cx.inner)
}

/// `tracing::Span::in_scope`: enters `span`, runs `body` once, leaves the
/// span again and returns what `body` has returned.
#[verifier::external_body]
fn span_in_scope<T, F: FnOnce() -> T>(span: &tracing::Span, body: F) -> (out: T)
    requires
        call_requires(body, ()),
    ensures
        call_ensures(body, (), out),
{
    span.in_scope(body)
}

/// `opentelemetry::Context::new`: a context that holds no span and no
/// values.
#[verifier::external_body]
fn context_new() -> (cx: TelemetryContext)
    ensures
        held_span(cx) == Seq::<(u128, u64, bool)>::empty(),
        held_deadline(cx) == Seq::<nat>::empty(),
{
    TelemetryContext { inner: opentelemetry::Context::new() }
}

/// `TraceContextExt::with_remote_span_context` of opentelemetry, on a span
/// context made by `SpanContext::new`: a copy of `cx` that holds the span
/// with the given ids and sampling flag in place of any other span, and the
/// values of `cx`. The span is marked as remote and has an empty trace
/// state; no clause speaks of either.
#[verifier::external_body]
fn context_with_remote_span(
    cx: &TelemetryContext,
    trace_id: u128,
    span_id: u64,
    sampled: bool,
) -> (out: TelemetryContext)
    ensures
        held_span(out) == seq![(trace_id, span_id, sampled)],
        held_deadline(out) == held_deadline(*cx),
{
    let span = opentelemetry::trace::SpanContext::new(
        opentelemetry::trace::TraceId::from(trace_id),
        opentelemetry::trace::SpanId::from(span_id),
        opentelemetry::trace::TraceFlags::default().with_sampled(sampled),
        true,
        opentelemetry::trace::TraceState::default(),
    );
    let inner = opentelemetry::trace::TraceContextExt::with_remote_span_context(&cx.inner, span);
    TelemetryContext { inner }
}

/// `opentelemetry::Context::with_value`, on a deadline: a copy of `cx` that
/// holds `deadline` in place of any other deadline, and the span of `cx`.
#[verifier::external_body]
fn context_with_deadline(cx: &TelemetryContext, deadline: AbsoluteTime) -> (out: TelemetryContext)
    ensures
        held_deadline(out) == seq![deadline@],
        held_span(out) == held_span(*cx),
{
    TelemetryContext { inner: cx.inner.with_value(Deadline(deadline)) }
}

/// `opentelemetry::Context::get`, for a deadline: the deadline that `cx`
/// holds, if it holds one.
#[verifier::external_body]
fn context_deadline(cx: &TelemetryContext) -> (deadline: Option<AbsoluteTime>)
    ensures
        deadline.is_some() <==> held_deadline(*cx).len() > 0,
        deadline matches Some(d) ==> d.wf() && d@ == held_deadline(*cx)[0],
{
    cx.inner.get::<Deadline>().map(|held| held.0)
}

/// `TraceContextExt::has_active_span` of opentelemetry: whether `cx` holds a
/// span.
#[verifier::external_body]
fn context_has_active_span(cx: &TelemetryContext) -> (active: bool)
    ensures
        active == (held_span(*cx).len() > 0),
{
    opentelemetry::trace::TraceContextExt::has_active_span(&cx.inner)
}

/// `SpanContext::trace_id` of opentelemetry, on the span of `cx`: the trace
/// id of the span that `cx` holds.
#[verifier::external_body]
fn context_trace_id(cx: &TelemetryContext) -> (trace_id: u128)
    ensures
        held_span(*cx).len() > 0 ==> trace_id == held_span(*cx)[0].0,
{
    let span = opentelemetry::trace::TraceContextExt::span(&cx.inner);
    u128::from_be_bytes(span.span_context().trace_id().to_bytes())
}

/// `SpanContext::span_id` of opentelemetry, on the span of `cx`: the span id
/// of the span that `cx` holds.
#[verifier::external_body]
fn context_span_id(cx: &TelemetryContext) -> (span_id: u64)
    ensures
        held_span(*cx).len() > 0 ==> span_id == held_span(*cx)[0].1,
{
    let span = opentelemetry::trace::TraceContextExt::span(&cx.inner);
    u64::from_be_bytes(span.span_context().span_id().to_bytes())
}

/// `SpanContext::is_sampled` of opentelemetry, on the span of `cx`: the
/// sampling flag of the span that `cx` holds.
#[verifier::external_body]
fn context_is_sampled(cx: &TelemetryContext) -> (sampled: bool)
    ensures
        held_span(*cx).len() > 0 ==> sampled == held_span(*cx)[0].2,
{
    let span = opentelemetry::trace::TraceContextExt::span(&cx.inner);
    span.span_context().is_sampled()
}

/// The trace identity that a telemetry context hands to a call made under
/// it.
pub open spec fn ambient_trace(cx: TelemetryContext) -> Option<trace::Context> {
    if held_span(cx).len() > 0 {
        Some(
            trace::Context {
                trace_id: TraceId(held_span(cx)[0].0),
                span_id: SpanId(held_span(cx)[0].1),
                sampling_decision: if held_span(cx)[0].2 {
                    SamplingDecision::Sampled
                } else {
                    SamplingDecision::Unsampled
                },
            },
        )
    } else {
        None
    }
}

/// The deadline, in nanoseconds from the clock's origin, that a telemetry
/// context hands to a call made under it.
pub open spec fn ambient_deadline(cx: TelemetryContext) -> Option<nat> {
    if held_deadline(cx).len() > 0 {
        Some(held_deadline(cx)[0])
    } else {
        None
    }
}

/// The trace identity of a context that is resolved against the ambient
/// identity `ambient`: a child of the ambient call where there is one, and
/// the root of the trace `fresh_trace_id` where there is none. Either way
/// `candidate_span` is proposed as span id.
pub open spec fn resolved_trace(
    ambient: Option<trace::Context>,
    fresh_trace_id: u128,
    candidate_span: u64,
) -> trace::Context {
    match ambient {
        Some(parent) => trace::Context {
            trace_id: parent.trace_id,
            span_id: SpanId(trace::fresh_span(parent.span_id.0, candidate_span)),
            sampling_decision: parent.sampling_decision,
        },
        None => trace::Context {
            trace_id: TraceId(fresh_trace_id),
            span_id: SpanId(candidate_span),
            sampling_decision: SamplingDecision::Sampled,
        },
    }
}

/// The deadline of a context that is resolved at the reading `now` against
/// the ambient deadline `ambient`: the ambient one where there is one, and
/// the default one where there is none.
pub open spec fn resolved_deadline(ambient: Option<AbsoluteTime>, now: nat) -> nat {
    match ambient {
        Some(deadline) => deadline@,
        None => default_deadline(now),
    }
}

/// The deadline of a call that starts at the reading `now` and inherits
/// none.
pub fn ten_seconds_from(now: AbsoluteTime) -> (deadline: AbsoluteTime)
    ensures
        deadline.wf(),
        deadline@ == default_deadline(now@),
{
    now.saturating_add(RelativeTime::from_secs(DEFAULT_WINDOW_SECS))
}

/// The deadline of a call that starts now, by `clock`, and inherits none.
/// Whatever the clock shows, the deadline lies at least the default window
/// after the clock's origin.
pub fn ten_seconds_from_now(clock: &Clock) -> (deadline: AbsoluteTime)
    ensures
        deadline.wf(),
        deadline@ >= default_window(),
{
    let now = clock.now();
    proof {
        now.lemma_bounded();
    }
    ten_seconds_from(now)
}

/// Returns the context for the current request, or a default context if no
/// request is active.
pub fn current(clock: &Clock, call_type: CallType) -> (ctx: Context)
    ensures
        ctx.call_type == call_type,
        ctx.deadline.wf(),
{
    Context::current(clock, call_type)
}

/// Returns the context for the current local request, or a default local
/// context if no request is active.
pub fn lpc_current(clock: &Clock) -> (ctx: Context)
    ensures
        ctx.call_type == CallType::LPC,
        ctx.deadline.wf(),
{
    Context::current(clock, CallType::LPC)
}

/// Returns the context for the current remote request, or a default remote
/// context if no request is active.
pub fn rpc_current(clock: &Clock) -> (ctx: Context)
    ensures
        ctx.call_type == CallType::RPC,
        ctx.deadline.wf(),
{
    Context::current(clock, CallType::RPC)
}

/// The telemetry context that stands for `context`: it holds the trace
/// identity of `context` as a remote span, and its deadline.
pub fn parent_context(context: &Context) -> (cx: TelemetryContext)
    ensures
        ambient_trace(cx) == Some(context.trace_context),
        ambient_deadline(cx) == Some(context.deadline@),
{
    let empty = context_new();
    let with_span = context_with_remote_span(
        &empty,
        context.trace_context.trace_id.0,
        context.trace_context.span_id.0,
        context.trace_context.sampling_decision.is_sampled(),
    );
    context_with_deadline(&with_span, context.deadline)
}

/// The trace identity and the deadline that `cx` hands to a call made under
/// it.
pub fn ambient_of(cx: &TelemetryContext) -> (ambient: (
    Option<trace::Context>,
    Option<AbsoluteTime>,
))
    ensures
        ambient.0 == ambient_trace(*cx),
        ambient.1.is_some() <==> ambient_deadline(*cx).is_some(),
        ambient.1 matches Some(d) ==> d.wf() && Some(d@) == ambient_deadline(*cx),
{
    let identity = if context_has_active_span(cx) {
        Some(
            trace::Context {
                trace_id: TraceId(context_trace_id(cx)),
                span_id: SpanId(context_span_id(cx)),
                sampling_decision: SamplingDecision::from_flag(context_is_sampled(cx)),
            },
        )
    } else {
        None
    };
    (identity, context_deadline(cx))
}

/// Sets `context` on `span`: spans made under `span` from now on are
/// children of the trace identity of `context`, and calls made under it
/// inherit its deadline.
pub fn set_context(span: &tracing::Span, context: &Context) {
    span_set_parent(span, parent_context(context));
}

/// Makes `context` the ambient context for as long as `body` runs: sets it
/// on `span`, runs `body` within the span and returns what `body` returns.
/// The span is left again on every way out of `body`, so that what was
/// ambient before is ambient again afterwards.
pub fn set_ambient<T, F: FnOnce() -> T>(context: &Context, span: &tracing::Span, body: F) -> (out: T)
    requires
        call_requires(body, ()),
    ensures
        call_ensures(body, (), out),
{
    set_context(span, context);
    span_in_scope(span, body)
}

impl Context {
    /// The context of a call of type `call_type` that starts at the reading
    /// `now`, given what the call in scope hands on: it joins the ambient
    /// trace as a child and keeps the ambient deadline, and where either is
    /// missing it starts the trace `fresh_trace_id` or takes the default
    /// deadline. `candidate_span` is proposed as its span id.
    pub fn resolve(
        ambient_trace: Option<trace::Context>,
        ambient_deadline: Option<AbsoluteTime>,
        fresh_trace_id: u128,
        candidate_span: u64,
        now: AbsoluteTime,
        call_type: CallType,
    ) -> (ctx: Context)
        ensures
            ctx.call_type == call_type,
            ctx.trace_context == resolved_trace(ambient_trace, fresh_trace_id, candidate_span),
            ctx.deadline.wf(),
            ctx.deadline@ == resolved_deadline(ambient_deadline, now@),
            ambient_deadline matches Some(inherited) ==> ctx.deadline == inherited,
    {
        let trace_context = match ambient_trace {
            Some(parent) => parent.child(candidate_span),
            None => trace::Context::root(fresh_trace_id, candidate_span),
        };
        let deadline = match ambient_deadline {
            Some(inherited) => {
                proof {
                    use_type_invariant(inherited);
                }
                inherited
            },
            None => ten_seconds_from(now),
        };
        Context { deadline, trace_context, call_type }
    }

    /// The context of a call of type `call_type` that starts now, by
    /// `clock`, on its own: it begins a trace that is recorded, with ids
    /// drawn at random, and is given the default window. Whatever the clock
    /// shows, its deadline lies at least the default window after the
    /// clock's origin.
    pub fn default_context(clock: &Clock, call_type: CallType) -> (ctx: Context)
        ensures
            ctx.call_type == call_type,
            ctx.trace_context.sampling_decision == SamplingDecision::Sampled,
            ctx.deadline.wf(),
            ctx.deadline@ >= default_window(),
    {
        let fresh = trace::Context::new_root();
        let now = clock.now();
        proof {
            now.lemma_bounded();
        }
        Context::resolve(None, None, fresh.trace_id.0, fresh.span_id.0, now, call_type)
    }

    /// Returns the context for the current request, or a default context if
    /// no request is active. The span in scope, the clock and the random
    /// ids decide the rest, as [`Context::resolve`] says for each value of
    /// them.
    pub fn current(clock: &Clock, call_type: CallType) -> (ctx: Context)
        ensures
            ctx.call_type == call_type,
            ctx.deadline.wf(),
    {
        let span = span_current();
        let cx = span_context(&span);
        let ambient = ambient_of(&cx);
        let fresh = trace::Context::new_root();
        let now = clock.now();
        Context::resolve(ambient.0, ambient.1, fresh.trace_id.0, fresh.span_id.0, now, call_type)
    }

    /// The wire form of the context when it is sent at the reading `now` of
    /// the local clock: the deadline becomes the time that is left.
    pub fn to_wire(&self, now: AbsoluteTime) -> (wire: WireContext)
        ensures
            wire.deadline.wf(),
            wire.deadline@ == encode_spec(self.deadline@, now@),
            wire.trace_id == self.trace_context.trace_id.0,
            wire.span_id == self.trace_context.span_id.0,
            wire.sampled == (self.trace_context.sampling_decision == SamplingDecision::Sampled),
            call_type_of(wire.call_type) == Some(self.call_type),
    {
        WireContext {
            deadline: encode(self.deadline, now),
            trace_id: self.trace_context.trace_id.0,
            span_id: self.trace_context.span_id.0,
            sampled: self.trace_context.sampling_decision.is_sampled(),
            call_type: self.call_type.tag(),
        }
    }

    /// The context that `wire` stands for when it is received at the reading
    /// `now` of the local clock: the time left is counted from `now`. A tag
    /// that stands for no call type is refused, and so is a deadline that
    /// the local clock cannot show.
    pub fn from_wire(wire: &WireContext, now: AbsoluteTime) -> (ctx: Result<Context, WireError>)
        ensures
            match received(*wire, now@) {
                Ok((deadline, trace_context, call_type)) => ctx matches Ok(c) && c.deadline.wf()
                    && c.deadline@ == deadline && c.trace_context == trace_context && c.call_type
                    == call_type,
                Err(error) => ctx == Err::<Context, WireError>(error),
            },
    {
        let call_type = match CallType::from_tag(wire.call_type) {
            Some(call_type) => call_type,
            None => {
                return Err(WireError::UnknownCallType(wire.call_type));
            },
        };
        match decode(wire.deadline, now) {
            Some(deadline) => Ok(
                Context {
                    deadline,
                    trace_context: trace::Context {
                        trace_id: TraceId(wire.trace_id),
                        span_id: SpanId(wire.span_id),
                        sampling_decision: SamplingDecision::from_flag(wire.sampled),
                    },
                    call_type,
                },
            ),
            None => Err(WireError::DeadlineOutOfRange),
        }
    }

    /// Returns the id of the request-scoped trace.
    pub fn trace_id(&self) -> (id: &TraceId)
        ensures
            *id == self.trace_context.trace_id,
    {
        &self.trace_context.trace_id
    }

    /// Whether the deadline has been reached when the local clock shows
    /// `now`.
    pub fn is_expired(&self, now: AbsoluteTime) -> (expired: bool)
        ensures
            expired == (now@ >= self.deadline@),
    {
        self.deadline.has_passed(now)
    }
}

/// A context that is resolved under an ambient call belongs to the trace of
/// that call, is sampled as that call is, and has a span id of its own.
pub proof fn lemma_trace_is_inherited(parent: trace::Context, fresh_trace_id: u128, candidate_span: u64)
    ensures
        resolved_trace(Some(parent), fresh_trace_id, candidate_span).trace_id == parent.trace_id,
        resolved_trace(Some(parent), fresh_trace_id, candidate_span).sampling_decision
            == parent.sampling_decision,
        resolved_trace(Some(parent), fresh_trace_id, candidate_span).span_id != parent.span_id,
{
}

/// A context that inherits no deadline is given one that lies in the future
/// at the moment it is made, as long as the clock has any future left.
pub proof fn lemma_default_deadline_is_ahead(now: AbsoluteTime)
    requires
        now.wf(),
    ensures
        resolved_deadline(None::<AbsoluteTime>, now@) >= now@,
        now@ < max_nanos() ==> resolved_deadline(None::<AbsoluteTime>, now@) > now@,
        now@ + default_window() <= max_nanos() ==> resolved_deadline(None::<AbsoluteTime>, now@) == now@
            + default_window(),
{
    now.lemma_bounded();
}

/// A context that is sent at the reading `sent_at` and received at the
/// reading `received_at` of whatever clock arrives with its trace identity
/// and its call type as they were, and with the time left that it had when
/// it was sent, as long as the receiver's clock can show the deadline.
pub proof fn lemma_wire_round_trip(ctx: Context, wire: WireContext, sent_at: nat, received_at: nat)
    requires
        ctx.deadline.wf(),
        wire.deadline@ == encode_spec(ctx.deadline@, sent_at),
        wire.trace_id == ctx.trace_context.trace_id.0,
        wire.span_id == ctx.trace_context.span_id.0,
        wire.sampled == (ctx.trace_context.sampling_decision == SamplingDecision::Sampled),
        call_type_of(wire.call_type) == Some(ctx.call_type),
        received_at + encode_spec(ctx.deadline@, sent_at) <= max_nanos(),
    ensures
        received(wire, received_at) matches Ok((deadline, trace_context, call_type))
            && trace_context == ctx.trace_context && call_type == ctx.call_type && encode_spec(
            deadline,
            received_at,
        ) == encode_spec(ctx.deadline@, sent_at),
{
}

} // verus!
