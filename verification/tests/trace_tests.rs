use lrcall::trace::Context;
use lrcall::trace::SamplingDecision;
use lrcall::trace::SpanId;
use lrcall::trace::TraceId;

#[test]
fn root_starts_a_sampled_trace() {
    let root = Context::root(7, 9);
    assert_eq!(root.trace_id, TraceId(7));
    assert_eq!(root.span_id, SpanId(9));
    assert_eq!(root.sampling_decision, SamplingDecision::Sampled);
}

#[test]
fn child_takes_the_proposed_span_id() {
    let parent = Context { trace_id: TraceId(1), span_id: SpanId(2), sampling_decision: SamplingDecision::Unsampled };
    let child = parent.child(77);
    assert_eq!(child, Context { trace_id: TraceId(1), span_id: SpanId(77), sampling_decision: SamplingDecision::Unsampled });
}

#[test]
fn child_never_takes_the_span_id_of_its_parent() {
    let parent = Context::root(1, 2);
    assert_eq!(parent.child(2).span_id, SpanId(3));
    let last = Context::root(1, u64::MAX);
    assert_eq!(last.child(u64::MAX).span_id, SpanId(0));
    assert_eq!(last.child(u64::MAX).trace_id, TraceId(1));
}

#[test]
fn new_child_inherits_trace_and_sampling() {
    let sampled = Context::root(0xfeed, 5);
    let unsampled = Context { sampling_decision: SamplingDecision::Unsampled, ..sampled };
    for parent in [sampled, unsampled] {
        for _ in 0..32 {
            let child = parent.new_child();
            assert_eq!(child.trace_id, parent.trace_id);
            assert_eq!(child.sampling_decision, parent.sampling_decision);
            assert_ne!(child.span_id, parent.span_id);
        }
    }
}

#[test]
fn new_root_draws_fresh_ids() {
    let a = Context::new_root();
    let b = Context::new_root();
    assert_eq!(a.sampling_decision, SamplingDecision::Sampled);
    assert_ne!(a.trace_id, b.trace_id);
}

#[test]
fn sampling_decision_is_one_bit() {
    assert_eq!(SamplingDecision::from_flag(true), SamplingDecision::Sampled);
    assert_eq!(SamplingDecision::from_flag(false), SamplingDecision::Unsampled);
    assert!(SamplingDecision::Sampled.is_sampled());
    assert!(!SamplingDecision::Unsampled.is_sampled());
}
