use lrcall::context::ambient_of;
use lrcall::context::current;
use lrcall::context::lpc_current;
use lrcall::context::parent_context;
use lrcall::context::rpc_current;
use lrcall::context::set_context;
use lrcall::context::ten_seconds_from;
use lrcall::context::ten_seconds_from_now;
use lrcall::context::CallType;
use lrcall::context::Context;
use lrcall::time::AbsoluteTime;
use lrcall::time::Clock;
use lrcall::time::RelativeTime;
use lrcall::trace;
use lrcall::trace::SamplingDecision;
use lrcall::trace::SpanId;
use lrcall::trace::TraceId;

fn at_millis(millis: u64) -> AbsoluteTime {
    AbsoluteTime::from_origin(RelativeTime::from_millis(millis))
}

fn sample() -> Context {
    Context {
        deadline: at_millis(2_500),
        trace_context: trace::Context {
            trace_id: TraceId(0x0123_4567_89ab_cdef_0011_2233_4455_6677),
            span_id: SpanId(0x8899_aabb_ccdd_eeff),
            sampling_decision: SamplingDecision::Sampled,
        },
        call_type: CallType::RPC,
    }
}

#[test]
fn call_type_tags_are_zero_and_one() {
    assert_eq!(CallType::LPC.tag(), 0);
    assert_eq!(CallType::RPC.tag(), 1);
    assert_eq!(CallType::from_tag(0), Some(CallType::LPC));
    assert_eq!(CallType::from_tag(1), Some(CallType::RPC));
    assert_eq!(CallType::from_tag(2), None);
    assert_eq!(CallType::from_tag(255), None);
}

#[test]
fn default_deadline_is_ten_seconds_ahead() {
    assert_eq!(ten_seconds_from(at_millis(5_000)), at_millis(15_000));
    assert_eq!(ten_seconds_from(at_millis(0)), at_millis(10_000));
}

#[test]
fn default_deadline_stops_at_the_last_reading() {
    let last = AbsoluteTime::from_origin(RelativeTime::longest());
    let near = AbsoluteTime::from_origin(RelativeTime::from_parts(u64::MAX - 3, 0).unwrap());
    assert_eq!(ten_seconds_from(last), last);
    assert_eq!(ten_seconds_from(near), last);
}

#[test]
fn ten_seconds_from_now_is_ahead_of_the_clock() {
    let clock = Clock::start();
    let before = clock.now();
    let deadline = ten_seconds_from_now(&clock);
    let after = clock.now();
    assert!(deadline.since_origin().as_nanos() >= before.since_origin().as_nanos() + 10_000_000_000);
    assert!(deadline.since_origin().as_nanos() <= after.since_origin().as_nanos() + 10_000_000_000);
}

#[test]
fn resolve_without_ambient_context_starts_afresh() {
    let ctx = Context::resolve(None, None, 42, 7, at_millis(1_000), CallType::LPC);
    assert_eq!(ctx.call_type, CallType::LPC);
    assert_eq!(ctx.deadline, at_millis(11_000));
    assert_eq!(ctx.trace_context, trace::Context::root(42, 7));
    assert_eq!(*ctx.trace_id(), TraceId(42));
}

#[test]
fn resolve_under_an_ambient_context_inherits_trace_and_deadline() {
    let parent = sample();
    let ctx = Context::resolve(Some(parent.trace_context), Some(parent.deadline), 42, 7, at_millis(1_000), CallType::RPC);
    assert_eq!(ctx.deadline, parent.deadline);
    assert_eq!(ctx.trace_context.trace_id, parent.trace_context.trace_id);
    assert_eq!(ctx.trace_context.sampling_decision, parent.trace_context.sampling_decision);
    assert_eq!(ctx.trace_context.span_id, SpanId(7));
    assert_ne!(ctx.trace_context.span_id, parent.trace_context.span_id);
}

#[test]
fn resolve_gives_the_child_a_span_id_of_its_own() {
    let parent = sample();
    let taken = parent.trace_context.span_id.0;
    let ctx = Context::resolve(Some(parent.trace_context), None, 42, taken, at_millis(0), CallType::RPC);
    assert_eq!(ctx.trace_context.span_id, SpanId(taken + 1));
    assert_eq!(ctx.trace_context.trace_id, parent.trace_context.trace_id);
    assert_eq!(ctx.deadline, at_millis(10_000));
}

#[test]
fn resolve_keeps_an_unsampled_trace_unsampled() {
    let mut parent = sample();
    parent.trace_context.sampling_decision = SamplingDecision::Unsampled;
    let ctx = Context::resolve(Some(parent.trace_context), Some(parent.deadline), 1, 2, at_millis(0), CallType::LPC);
    assert_eq!(ctx.trace_context.sampling_decision, SamplingDecision::Unsampled);
}

#[test]
fn context_is_expired_from_its_deadline_on() {
    let ctx = sample();
    assert!(!ctx.is_expired(at_millis(2_499)));
    assert!(ctx.is_expired(at_millis(2_500)));
    assert!(ctx.is_expired(at_millis(9_000)));
}

#[test]
fn telemetry_context_hands_back_what_was_put_in() {
    let ctx = sample();
    let (identity, deadline) = ambient_of(&parent_context(&ctx));
    assert_eq!(identity, Some(ctx.trace_context));
    assert_eq!(deadline, Some(ctx.deadline));
}

#[test]
fn telemetry_context_keeps_the_sampling_flag() {
    let mut ctx = sample();
    ctx.trace_context.sampling_decision = SamplingDecision::Unsampled;
    ctx.trace_context.trace_id = TraceId(1);
    ctx.trace_context.span_id = SpanId(u64::MAX);
    ctx.deadline = at_millis(0);
    let (identity, deadline) = ambient_of(&parent_context(&ctx));
    assert_eq!(identity, Some(ctx.trace_context));
    assert_eq!(deadline, Some(at_millis(0)));
}

#[test]
fn current_without_an_active_request_is_a_default_context() {
    let clock = Clock::start();
    let before = clock.now();
    let ctx = current(&clock, CallType::RPC);
    let after = clock.now();
    assert_eq!(ctx.call_type, CallType::RPC);
    assert!(ctx.deadline.since_origin().as_nanos() >= before.since_origin().as_nanos() + 10_000_000_000);
    assert!(ctx.deadline.since_origin().as_nanos() <= after.since_origin().as_nanos() + 10_000_000_000);
    assert_eq!(ctx.trace_context.sampling_decision, SamplingDecision::Sampled);
    let other = Context::current(&clock, CallType::RPC);
    assert_ne!(other.trace_context.trace_id, ctx.trace_context.trace_id);
}

#[test]
fn lpc_and_rpc_current_set_the_call_type() {
    let clock = Clock::start();
    assert_eq!(lpc_current(&clock).call_type, CallType::LPC);
    assert_eq!(rpc_current(&clock).call_type, CallType::RPC);
    assert_eq!(Context::current(&clock, CallType::LPC).call_type, CallType::LPC);
}

#[test]
fn set_context_on_a_disabled_span_changes_nothing() {
    let clock = Clock::start();
    let span = tracing::Span::none();
    set_context(&span, &sample());
    let ctx = current(&clock, CallType::LPC);
    assert_ne!(ctx.trace_context.trace_id, sample().trace_context.trace_id);
}
