//! The identity that ties together all calls of one logical operation.

use vstd::prelude::*;

verus! {

/// Names one logical operation; every call made on its behalf carries the
/// same value.
#[derive(Clone, Copy, Debug, PartialEq, Eq, Hash, Structural)]
pub struct TraceId(pub u128);

/// Names one call within a trace.
#[derive(Clone, Copy, Debug, PartialEq, Eq, Hash, Structural)]
pub struct SpanId(pub u64);

/// Whether the calls of a trace are recorded.
#[derive(Clone, Copy, Debug, PartialEq, Eq, Hash, Structural)]
pub enum SamplingDecision {
    /// The trace is recorded.
    Sampled,
    /// The trace is not recorded.
    Unsampled,
}

/// The trace identity of one call.
#[derive(Clone, Copy, Debug, PartialEq, Eq, Hash, Structural)]
pub struct Context {
    /// Shared by all calls of the logical operation.
    pub trace_id: TraceId,
    /// Belongs to this call alone.
    pub span_id: SpanId,
    /// Shared by all calls of the logical operation.
    pub sampling_decision: SamplingDecision,
}

/// The span id that a child of a call with span id `parent` gets when
/// `candidate` is proposed for it: the candidate itself, unless it is the
/// parent's own id, in which case the next id is taken.
pub open spec fn fresh_span(parent: u64, candidate: u64) -> u64 {
    if candidate != parent {
        candidate
    } else if candidate == u64::MAX {
        0
    } else {
        (candidate + 1) as u64
    }
}

/// `rand::random` at `u64`: a value drawn from the thread's generator.
/// Nothing is claimed of it.
#[verifier::external_body]
fn random_u64() -> u64 {
    rand::random::<u64>()
}

/// `rand::random` at `u128`: a value drawn from the thread's generator.
/// Nothing is claimed of it.
#[verifier::external_body]
fn random_u128() -> u128 {
    rand::random::<u128>()
}

impl SamplingDecision {
    /// The decision that the one-bit wire form `sampled` stands for.
    pub fn from_flag(sampled: bool) -> (decision: Self)
        ensures
            decision == if sampled { SamplingDecision::Sampled } else { SamplingDecision::Unsampled },
    {
        if sampled {
            SamplingDecision::Sampled
        } else {
            SamplingDecision::Unsampled
        }
    }

    /// The one-bit wire form of the decision.
    pub fn is_sampled(&self) -> (sampled: bool)
        ensures
            sampled == (*self == SamplingDecision::Sampled),
    {
        match self {
            SamplingDecision::Sampled => true,
            SamplingDecision::Unsampled => false,
        }
    }
}

impl Context {
    /// The identity of a call that starts the trace `trace_id` as the span
    /// `span_id`. A new trace is recorded.
    pub fn root(trace_id: u128, span_id: u64) -> (ctx: Self)
        ensures
            ctx.trace_id == TraceId(trace_id),
            ctx.span_id == SpanId(span_id),
            ctx.sampling_decision == SamplingDecision::Sampled,
    {
        Context {
            trace_id: TraceId(trace_id),
            span_id: SpanId(span_id),
            sampling_decision: SamplingDecision::Sampled,
        }
    }

    /// The identity of a call that starts a trace of its own, with ids drawn
    /// at random.
    pub fn new_root() -> (ctx: Self)
        ensures
            ctx.sampling_decision == SamplingDecision::Sampled,
    {
        let trace_id: u128 = random_u128();
        let span_id: u64 = random_u64();
        Context::root(trace_id, span_id)
    }

    /// The identity of a call made on behalf of this one, for which
    /// `candidate` is proposed as span id: it belongs to the same trace, is
    /// recorded if and only if this one is, and has a span id of its own.
    pub fn child(&self, candidate: u64) -> (ctx: Self)
        ensures
            ctx.trace_id == self.trace_id,
            ctx.sampling_decision == self.sampling_decision,
            ctx.span_id == SpanId(fresh_span(self.span_id.0, candidate)),
            ctx.span_id != self.span_id,
    {
        let span_id: u64 = if candidate != self.span_id.0 {
            candidate
        } else if candidate == u64::MAX {
            0
        } else {
            candidate + 1
        };
        Context {
            trace_id: self.trace_id,
            span_id: SpanId(span_id),
            sampling_decision: self.sampling_decision,
        }
    }

    /// The identity of a call made on behalf of this one, with a span id
    /// drawn at random. Whatever is drawn, the child belongs to the same
    /// trace, is recorded if and only if this one is, and its span id
    /// differs from this one's.
    pub fn new_child(&self) -> (ctx: Self)
        ensures
            ctx.trace_id == self.trace_id,
            ctx.sampling_decision == self.sampling_decision,
            ctx.span_id != self.span_id,
    {
        let candidate: u64 = random_u64();
        self.child(candidate)
    }
}

/// A child never has its parent's span id, whatever id was proposed for it.
pub proof fn lemma_fresh_span_differs(parent: u64, candidate: u64)
    ensures
        fresh_span(parent, candidate) != parent,
        candidate != parent ==> fresh_span(parent, candidate) == candidate,
{
}

} // verus!
