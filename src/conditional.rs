use vstd::prelude::*;

verus! {

/// The stage of the pipeline that a request is handed to.
#[derive(Clone, Copy, Debug, PartialEq, Eq, Structural)]
pub enum Route {
    /// The wrapped middleware handles the request.
    Inner,
    /// The wrapped middleware is skipped and the request goes on to the next stage.
    Next,
}

/// Holds a middleware `T` that runs only for the requests on which the
/// predicate `C` returns `true`.
pub struct ConditionalMiddleware<T, C> {
    inner: T,
    condition: C,
}

impl<T, C> ConditionalMiddleware<T, C> {
    /// The wrapped middleware.
    pub closed spec fn wrapped(&self) -> T {
        self.inner
    }

    /// The predicate that decides, request by request, whether the wrapped
    /// middleware runs.
    pub closed spec fn predicate(&self) -> C {
        self.condition
    }

    /// Creates a new wrapped middleware. The predicate is run for each request to
    /// decide whether the wrapped middleware runs.
    pub fn new(inner: T, condition: C) -> (r: Self)
        ensures
            r.wrapped() == inner,
            r.predicate() == condition,
    {
        ConditionalMiddleware { inner, condition }
    }

    /// The wrapped middleware.
    pub fn inner(&self) -> (r: &T)
        ensures
            *r == self.wrapped(),
    {
        &self.inner
    }

    /// Runs the predicate once on `req` and names the stage that receives it.
    pub fn route<R>(&self, req: &R) -> (r: Route) where C: Fn(&R) -> bool
        requires
            self.predicate().requires((req,)),
        ensures
            self.predicate().ensures((req,), r == Route::Inner),
    {
        if (self.condition)(req) {
            Route::Inner
        } else {
            Route::Next
        }
    }

    /// Handles one request: runs the predicate on it once, then either hands the
    /// request, together with `ctx` (what the pipeline passes along with it), to
    /// `run_inner` with the wrapped middleware, or hands both to `run_next`, the
    /// rest of the pipeline. The result of the chosen stage is returned as it is.
    pub fn handle<'a, R, X, O, FI, FN>(
        &'a self,
        req: R,
        ctx: X,
        run_inner: FI,
        run_next: FN,
    ) -> (out: O) where C: Fn(&R) -> bool, FI: FnOnce(&'a T, R, X) -> O, FN: FnOnce(R, X) -> O
        requires
            self.predicate().requires((&req,)),
            self.predicate().ensures((&req,), true) ==> run_inner.requires(
                (&self.wrapped(), req, ctx),
            ),
            self.predicate().ensures((&req,), false) ==> run_next.requires((req, ctx)),
        ensures
            exists|b: bool|
                #![trigger self.predicate().ensures((&req,), b)]
                self.predicate().ensures((&req,), b) && if b {
                    run_inner.ensures((&self.wrapped(), req, ctx), out)
                } else {
                    run_next.ensures((req, ctx), out)
                },
            self.predicate().ensures((&req,), true) && !self.predicate().ensures((&req,), false)
                ==> run_inner.ensures((&self.wrapped(), req, ctx), out),
            self.predicate().ensures((&req,), false) && !self.predicate().ensures((&req,), true)
                ==> run_next.ensures((req, ctx), out),
    {
        match self.route(&req) {
            Route::Inner => run_inner(&self.inner, req, ctx),
            Route::Next => run_next(req, ctx),
        }
    }
}

} // verus!
