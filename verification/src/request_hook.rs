//! Hooks that run on the server before every request is served.
//!
//! The hooks of a chain run in the order in which they were registered. Each
//! is given the context of the request and hands it on, changed or not, or
//! refuses the request with an error. The first refusal ends the chain: the
//! hooks after it do not run, the operation does not run, and the error is
//! the response.

use crate::context::Context;
use crate::error::ServerError;
use vstd::prelude::*;

verus! {

/// Whether `path` is a way of `request` through the hooks `hooks`: the
/// contexts that the hooks are given one after the other, and after them the
/// context that the last hook hands on. Each hook lets the request pass, and
/// what it hands on is what the next hook is given.
pub open spec fn threads<Req, H: Fn(Context, &Req) -> Result<Context, ServerError>>(
    hooks: Seq<H>,
    request: &Req,
    path: Seq<Context>,
) -> bool {
    &&& path.len() == hooks.len() + 1
    &&& forall|i: int|
        0 <= i < hooks.len() ==> call_ensures(
            #[trigger] hooks[i],
            (path[i], request),
            Ok::<Context, ServerError>(path[i + 1]),
        )
}

/// Whether the hooks `hooks` can let `request` pass one after the other, the
/// first being given the context `start` and the last handing on the context
/// `end`.
pub open spec fn lets_pass<Req, H: Fn(Context, &Req) -> Result<Context, ServerError>>(
    hooks: Seq<H>,
    request: &Req,
    start: Context,
    end: Context,
) -> bool {
    exists|path: Seq<Context>| #[trigger]
        threads(hooks, request, path) && path.first() == start && path.last() == end
}

/// Whether the hook at `index` can refuse `request` with `error` after the
/// hooks before it have let the request pass, the first of them being given
/// the context `start`.
pub open spec fn refused_at<Req, H: Fn(Context, &Req) -> Result<Context, ServerError>>(
    hooks: Seq<H>,
    request: &Req,
    start: Context,
    index: int,
    error: ServerError,
) -> bool {
    0 <= index < hooks.len() && exists|path: Seq<Context>| #[trigger]
        threads(hooks.take(index), request, path) && path.first() == start && call_ensures(
            hooks[index],
            (path.last(), request),
            Err::<Context, ServerError>(error),
        )
}

/// What a chain of hooks has made of a request.
#[derive(Debug)]
pub struct Screened {
    /// How many hooks ran.
    pub hooks_run: usize,
    /// The context that the last hook handed on, or the error of the hook
    /// that refused.
    pub verdict: Result<Context, ServerError>,
}

/// What has become of a request behind a chain of hooks.
#[derive(Debug)]
pub struct Served<Resp> {
    /// How many hooks ran.
    pub hooks_run: usize,
    /// Whether the operation ran.
    pub operation_ran: bool,
    /// The response to the request.
    pub response: Result<Resp, ServerError>,
}

/// Runs the hooks `hooks` on `request`, in their order, until one refuses.
///
/// Where all of them let the request pass, all have run, each on the
/// context that the one before it handed on, and the context that the last
/// one handed on comes back. Where one refuses, the hooks before it have let
/// the request pass, none after it has run, and its error comes back.
pub fn run_hooks<Req, H>(hooks: &Vec<H>, ctx: Context, request: &Req) -> (out: Screened) where
    H: Fn(Context, &Req) -> Result<Context, ServerError>,

    requires
        forall|i: int, given: Context|
            0 <= i < hooks.len() ==> #[trigger] call_requires(hooks[i], (given, request)),
    ensures
        out.hooks_run <= hooks.len(),
        match out.verdict {
            Ok(end) => out.hooks_run == hooks.len() && lets_pass(hooks@, request, ctx, end),
            Err(error) => out.hooks_run >= 1 && refused_at(
                hooks@,
                request,
                ctx,
                out.hooks_run - 1,
                error,
            ),
        },
{
    let mut current = ctx;
    let mut i: usize = 0;
    let ghost mut path: Seq<Context> = seq![ctx];
    while i < hooks.len()
        invariant
            i <= hooks.len(),
            threads(hooks@.take(i as int), request, path),
            path.first() == ctx,
            path.last() == current,
            forall|k: int, given: Context|
                0 <= k < hooks.len() ==> #[trigger] call_requires(hooks[k], (given, request)),
        decreases hooks.len() - i,
    {
        let hook = &hooks[i];
        match hook(current, request) {
            Ok(next) => {
                proof {
                    let longer = path.push(next);
                    assert forall|k: int| 0 <= k < i + 1 implies call_ensures(
                        #[trigger] hooks@.take(i + 1)[k],
                        (longer[k], request),
                        Ok::<Context, ServerError>(longer[k + 1]),
                    ) by {}
                    path = longer;
                }
                current = next;
                i = i + 1;
            },
            Err(error) => {
                return Screened { hooks_run: i + 1, verdict: Err(error) };
            },
        }
    }
    proof {
        assert(hooks@.take(i as int) == hooks@);
    }
    Screened { hooks_run: i, verdict: Ok(current) }
}

/// Serves `request`: runs the hooks, and the operation if none of them
/// refuses.
///
/// Where a hook refuses, the operation has not run and the response is that
/// hook's error. Otherwise the response is what the operation returns for
/// the request under the context that the last hook handed on. In
/// particular, where the first hook refuses whatever it is given, it is the
/// only hook that has run.
pub fn serve<Req, Resp, H, Op>(hooks: &Vec<H>, operation: Op, ctx: Context, request: &Req) -> (out:
    Served<Resp>) where
    H: Fn(Context, &Req) -> Result<Context, ServerError>,
    Op: Fn(Context, &Req) -> Result<Resp, ServerError>,

    requires
        forall|i: int, given: Context|
            0 <= i < hooks.len() ==> #[trigger] call_requires(hooks[i], (given, request)),
        forall|given: Context| call_requires(operation, (given, request)),
    ensures
        out.hooks_run <= hooks.len(),
        out.operation_ran ==> out.hooks_run == hooks.len() && exists|end: Context| #[trigger]
            lets_pass(hooks@, request, ctx, end) && call_ensures(
                operation,
                (end, request),
                out.response,
            ),
        !out.operation_ran ==> out.hooks_run >= 1 && out.response is Err && refused_at(
            hooks@,
            request,
            ctx,
            out.hooks_run - 1,
            out.response->Err_0,
        ),
        (hooks.len() >= 1 && forall|given: Context, verdict: Result<Context, ServerError>|
            call_ensures(hooks@[0], (given, request), verdict) ==> verdict is Err) ==> {
            &&& out.hooks_run == 1
            &&& !out.operation_ran
            &&& out.response is Err
            &&& call_ensures(
                hooks@[0],
                (ctx, request),
                Err::<Context, ServerError>(out.response->Err_0),
            )
        },
{
    let screened = run_hooks(hooks, ctx, request);
    proof {
        if hooks.len() >= 1 {
            if screened.verdict is Ok {
                lemma_first_hook_lets_pass(hooks@, request, ctx, screened.verdict->Ok_0);
            } else {
                let index = screened.hooks_run - 1;
                let path = choose|path: Seq<Context>| #[trigger]
                    threads(hooks@.take(index), request, path) && path.first() == ctx
                        && call_ensures(
                        hooks@[index],
                        (path.last(), request),
                        Err::<Context, ServerError>(screened.verdict->Err_0),
                    );
                if index >= 1 {
                    assert(hooks@.take(index)[0] == hooks@[0]);
                }
            }
        }
    }
    match screened.verdict {
        Ok(end) => {
            let response = operation(end, request);
            Served { hooks_run: screened.hooks_run, operation_ran: true, response }
        },
        Err(error) => Served {
            hooks_run: screened.hooks_run,
            operation_ran: false,
            response: Err(error),
        },
    }
}

/// Where a chain of at least one hook has let a request pass, the first hook
/// has let it pass when given the context that the chain started with.
pub proof fn lemma_first_hook_lets_pass<Req, H: Fn(Context, &Req) -> Result<Context, ServerError>>(
    hooks: Seq<H>,
    request: &Req,
    start: Context,
    end: Context,
)
    requires
        hooks.len() >= 1,
        lets_pass(hooks, request, start, end),
    ensures
        exists|handed_on: Context|
            call_ensures(hooks[0], (start, request), Ok::<Context, ServerError>(handed_on)),
{
    let path = choose|path: Seq<Context>| #[trigger]
        threads(hooks, request, path) && path.first() == start && path.last() == end;
    assert(call_ensures(hooks[0], (path[0], request), Ok::<Context, ServerError>(path[1])));
}

/// A chain without hooks lets every request pass and hands on the context
/// that it was given.
pub proof fn lemma_empty_chain_lets_pass<Req, H: Fn(Context, &Req) -> Result<Context, ServerError>>(
    request: &Req,
    start: Context,
    end: Context,
)
    ensures
        lets_pass(Seq::<H>::empty(), request, start, end) <==> end == start,
{
    if end == start {
        assert(threads(Seq::<H>::empty(), request, seq![start]));
    }
}

} // verus!
