use lrcall::context::current;
use lrcall::context::set_ambient;
use lrcall::context::set_context;
use lrcall::context::CallType;
use lrcall::context::Context;
use lrcall::time::AbsoluteTime;
use lrcall::time::Clock;
use lrcall::time::RelativeTime;
use lrcall::trace;
use lrcall::trace::SamplingDecision;
use lrcall::trace::SpanId;
use lrcall::trace::TraceId;
use std::sync::OnceLock;
use tracing::callsite::Callsite;
use tracing::callsite::Identifier;
use tracing::field::Field;
use tracing::field::FieldSet;
use tracing::metadata::Kind;
use tracing::subscriber::Interest;
use tracing::Level;
use tracing::Metadata;
use tracing::Value;
use tracing_subscriber::layer::SubscriberExt;

struct Site {
    meta: OnceLock<Metadata<'static>>,
}

impl Callsite for Site {
    fn set_interest(&self, _: Interest) {}

    fn metadata(&self) -> &Metadata<'_> {
        self.meta.get().unwrap()
    }
}

fn request_span() -> tracing::Span {
    let site: &'static Site = Box::leak(Box::new(Site { meta: OnceLock::new() }));
    let meta = site.meta.get_or_init(|| {
        Metadata::new("request", "lrcall", Level::INFO, None, None, None, FieldSet::new(&[], Identifier(site)), Kind::SPAN)
    });
    let values: [(&Field, Option<&dyn Value>); 0] = [];
    tracing::Span::new(meta, &meta.fields().value_set(&values))
}

fn parent(sampling_decision: SamplingDecision) -> Context {
    Context {
        deadline: AbsoluteTime::from_origin(RelativeTime::from_millis(123_456)),
        trace_context: trace::Context {
            trace_id: TraceId(0x0123_4567_89ab_cdef_0011_2233_4455_6677),
            span_id: SpanId(0x8899_aabb_ccdd_eeff),
            sampling_decision,
        },
        call_type: CallType::RPC,
    }
}

#[test]
fn trace_inheritance_under_an_active_request() {
    let subscriber = tracing_subscriber::registry().with(tracing_opentelemetry::layer());
    tracing::subscriber::with_default(subscriber, || {
        let clock = Clock::start();
        for sampling_decision in [SamplingDecision::Sampled, SamplingDecision::Unsampled] {
            let served = parent(sampling_decision);
            let span = request_span();
            assert!(!span.is_disabled());
            set_context(&span, &served);
            let _entered = span.enter();
            let nested = current(&clock, CallType::LPC);
            assert_eq!(nested.trace_context.trace_id, served.trace_context.trace_id);
            assert_eq!(nested.trace_context.sampling_decision, sampling_decision);
            assert_ne!(nested.trace_context.span_id, served.trace_context.span_id);
            assert_eq!(nested.deadline, served.deadline);
            assert_eq!(nested.call_type, CallType::LPC);
        }
    });
}

#[test]
fn the_ambient_context_ends_with_its_span() {
    let subscriber = tracing_subscriber::registry().with(tracing_opentelemetry::layer());
    tracing::subscriber::with_default(subscriber, || {
        let clock = Clock::start();
        let served = parent(SamplingDecision::Sampled);
        let span = request_span();
        set_context(&span, &served);
        {
            let _entered = span.enter();
            assert_eq!(current(&clock, CallType::RPC).deadline, served.deadline);
        }
        let outside = current(&clock, CallType::RPC);
        assert_ne!(outside.trace_context.trace_id, served.trace_context.trace_id);
        assert_ne!(outside.deadline, served.deadline);
    });
}

#[test]
fn a_span_without_a_context_set_yields_a_default_context() {
    let subscriber = tracing_subscriber::registry().with(tracing_opentelemetry::layer());
    tracing::subscriber::with_default(subscriber, || {
        let clock = Clock::start();
        let span = request_span();
        let _entered = span.enter();
        let before = clock.now();
        let ctx = current(&clock, CallType::RPC);
        assert!(ctx.deadline.since_origin().as_nanos() >= before.since_origin().as_nanos() + 10_000_000_000);
        assert_eq!(ctx.trace_context.sampling_decision, SamplingDecision::Sampled);
    });
}

#[test]
fn set_ambient_binds_the_context_for_the_body_and_no_longer() {
    let subscriber = tracing_subscriber::registry().with(tracing_opentelemetry::layer());
    tracing::subscriber::with_default(subscriber, || {
        let clock = Clock::start();
        let served = parent(SamplingDecision::Unsampled);
        let span = request_span();
        let inside = set_ambient(&served, &span, || current(&clock, CallType::RPC));
        assert_eq!(inside.trace_context.trace_id, served.trace_context.trace_id);
        assert_eq!(inside.trace_context.sampling_decision, SamplingDecision::Unsampled);
        assert_eq!(inside.deadline, served.deadline);
        let outside = current(&clock, CallType::RPC);
        assert_ne!(outside.trace_context.trace_id, served.trace_context.trace_id);
    });
}

#[test]
fn set_ambient_restores_the_outer_context_after_a_nested_one() {
    let subscriber = tracing_subscriber::registry().with(tracing_opentelemetry::layer());
    tracing::subscriber::with_default(subscriber, || {
        let clock = Clock::start();
        let outer = parent(SamplingDecision::Sampled);
        let mut inner = parent(SamplingDecision::Sampled);
        inner.trace_context.trace_id = TraceId(99);
        inner.deadline = AbsoluteTime::from_origin(RelativeTime::from_millis(5));
        let outer_span = request_span();
        let seen = set_ambient(&outer, &outer_span, || {
            let inner_span = request_span();
            let nested: Result<Context, ()> = set_ambient(&inner, &inner_span, || Ok(current(&clock, CallType::RPC)));
            let failed: Result<Context, ()> = set_ambient(&inner, &request_span(), || Err(()));
            (nested, failed, current(&clock, CallType::RPC))
        });
        assert_eq!(seen.0.unwrap().trace_context.trace_id, TraceId(99));
        assert_eq!(seen.0.unwrap().deadline, inner.deadline);
        assert_eq!(seen.1, Err(()));
        assert_eq!(seen.2.trace_context.trace_id, outer.trace_context.trace_id);
        assert_eq!(seen.2.deadline, outer.deadline);
    });
}
