//! Round-robin balancing over a fixed set of backend stubs.
//!
//! Every call goes to the backend after the one that served the call before
//! it, and after the last backend the first one has its turn again. One
//! rotating position is all the state there is, and a call moves it by way
//! of a unique reference, so that two calls never read the same position.
//! The layer does not know which backends are healthy: a failure is the
//! result of the call, and whoever wraps this layer may call again and
//! reach the next backend.

use crate::context::Context;
use crate::error::RpcError;
use vstd::prelude::*;

verus! {

/// The backend that serves call number `k`, counted from zero, when the
/// rotation over `backends` backends stands at `start` before the first
/// call.
pub open spec fn rotation(start: nat, backends: nat, k: nat) -> nat {
    (start + k) % backends
}

/// The position that follows `position` in the rotation over `backends`
/// backends.
pub open spec fn successor(position: nat, backends: nat) -> nat {
    if position + 1 < backends {
        position + 1
    } else {
        0
    }
}

/// A set of backend stubs that take turns.
pub struct RoundRobin<S> {
    stubs: Vec<S>,
    next: usize,
}

impl<S> RoundRobin<S> {
    /// There is a backend, and the position names one.
    #[verifier::type_invariant]
    pub closed spec fn wf(self) -> bool {
        self.next < self.stubs.len()
    }

    /// The backends, in the order of their turns.
    pub closed spec fn backends(self) -> Seq<S> {
        self.stubs@
    }

    /// The index of the backend whose turn is next.
    pub closed spec fn position(self) -> nat {
        self.next as nat
    }

    /// A rotation over `stubs` that starts with the first of them; `None`
    /// where there is no backend at all.
    pub fn new(stubs: Vec<S>) -> (balancer: Option<RoundRobin<S>>)
        ensures
            balancer.is_some() <==> stubs.len() > 0,
            balancer matches Some(b) ==> b.wf() && b.backends() == stubs@ && b.position() == 0,
    {
        if stubs.len() > 0 {
            Some(RoundRobin { stubs, next: 0 })
        } else {
            None
        }
    }

    /// The number of backends.
    pub fn len(&self) -> (n: usize)
        ensures
            n == self.backends().len(),
            n > 0,
    {
        proof {
            use_type_invariant(self);
        }
        self.stubs.len()
    }

    /// The index of the backend whose turn is next.
    pub fn next_index(&self) -> (index: usize)
        ensures
            index == self.position(),
            index < self.backends().len(),
    {
        proof {
            use_type_invariant(self);
        }
        self.next
    }

    /// Takes a turn: returns the index of the backend whose turn it is and
    /// moves the position on to its successor. The backends stay as they
    /// are.
    pub fn advance(&mut self) -> (index: usize)
        ensures
            index == old(self).position(),
            index < old(self).backends().len(),
            final(self).wf(),
            final(self).backends() == old(self).backends(),
            final(self).position() == successor(old(self).position(), old(self).backends().len()),
    {
        proof {
            use_type_invariant(&*self);
        }
        let index: usize = self.next;
        if index + 1 < self.stubs.len() {
            self.next = index + 1;
        } else {
            self.next = 0;
        }
        index
    }

    /// Takes a turn and returns the backend whose turn it is.
    pub fn next(&mut self) -> (stub: &S)
        ensures
            *stub == old(self).backends()[old(self).position() as int],
            final(self).wf(),
            final(self).backends() == old(self).backends(),
            final(self).position() == successor(old(self).position(), old(self).backends().len()),
    {
        let index: usize = self.advance();
        &self.stubs[index]
    }

    /// Sends `request` under `ctx` to the backend whose turn it is and
    /// returns what that backend returns, be it a failure.
    pub fn call<Req, Resp>(&mut self, ctx: Context, request: &Req) -> (result: Result<
        Resp,
        RpcError,
    >) where S: Fn(Context, &Req) -> Result<Resp, RpcError>
        requires
            forall|i: int|
                0 <= i < old(self).backends().len() ==> call_requires(
                    #[trigger] old(self).backends()[i],
                    (ctx, request),
                ),
        ensures
            call_ensures(
                old(self).backends()[old(self).position() as int],
                (ctx, request),
                result,
            ),
            final(self).wf(),
            final(self).backends() == old(self).backends(),
            final(self).position() == successor(old(self).position(), old(self).backends().len()),
    {
        let index: usize = self.advance();
        let stub = &self.stubs[index];
        stub(ctx, request)
    }
}

/// Taking a turn moves the rotation from call `k` to call `k + 1`.
pub proof fn lemma_successor_follows_rotation(start: nat, backends: nat, k: nat)
    requires
        backends > 0,
    ensures
        rotation(start, backends, k) < backends,
        successor(rotation(start, backends, k), backends) == rotation(start, backends, k + 1),
        start < backends ==> rotation(start, backends, 0) == start,
{
    let here = (start + k) % backends;
    assert((start + k + 1) % backends == if here + 1 < backends {
        here + 1
    } else {
        0
    }) by (nonlinear_arith)
        requires
            backends > 0,
            here == (start + k) % backends,
    ;
    assert(start < backends ==> start % backends == start) by (nonlinear_arith)
        requires
            backends > 0,
    ;
}

/// Two different calls among as many consecutive calls as there are
/// backends go to different backends.
pub proof fn lemma_turns_differ(start: nat, backends: nat, i: nat, j: nat)
    requires
        backends > 0,
        i < j < backends,
    ensures
        rotation(start, backends, i) != rotation(start, backends, j),
{
    assert((start + i) % backends != (start + j) % backends) by (nonlinear_arith)
        requires
            backends > 0,
            i < j < backends,
    ;
}

/// Among as many consecutive calls as there are backends, every backend has
/// its turn: the backend `backend` serves the call numbered `k`, and by
/// [`lemma_turns_differ`] no other.
pub proof fn lemma_every_backend_has_its_turn(start: nat, backends: nat, backend: nat) -> (k: nat)
    requires
        backends > 0,
        start < backends,
        backend < backends,
    ensures
        k < backends,
        rotation(start, backends, k) == backend,
{
    let k: nat = if backend >= start {
        (backend - start) as nat
    } else {
        (backend + backends - start) as nat
    };
    assert((start + k) % backends == backend) by (nonlinear_arith)
        requires
            backends > 0,
            start < backends,
            backend < backends,
            k == if backend >= start {
                backend - start
            } else {
                backend + backends - start
            },
    ;
    k
}

/// From a fresh rotation the calls go to the backends in their order: call
/// `k` goes to backend `k`.
pub proof fn lemma_fresh_rotation_is_in_order(backends: nat, k: nat)
    requires
        k < backends,
    ensures
        rotation(0, backends, k) == k,
{
    assert(k % backends == k) by (nonlinear_arith)
        requires
            k < backends,
    ;
}

} // verus!
