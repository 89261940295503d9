//! The router: handler registry, middleware chain and extension store.

pub mod chain;
pub mod container;
pub mod laws;
pub mod path;

use vstd::prelude::*;
use vstd::hash_map::StringHashMap;
use crate::server::{Handler, Request, RequestView, Response, ResponseView, NOT_FOUND};
use self::chain::{chain_runs, lemma_chain_step, Step};
use self::container::{Payload, Value};
use self::path::{lookup_key, path_key};

verus! {

/// An interceptor that runs before dispatch and may answer the request
/// itself.
///
/// An implementation says in `effect` what it promises of a call; by default
/// it promises nothing.
pub trait MiddleWare: Send + Sync {
    /// What a call may do: relates the exchange before the call to the
    /// exchange after it and to the value returned.
    open spec fn effect(&self, req: RequestView, res: ResponseView, after: Step) -> bool {
        true
    }

    /// Inspects or rewrites the exchange. Returns `true` when the request is
    /// fully handled and the pipeline must stop.
    fn handle(&self, req: &mut Request, res: &mut Response) -> (finished: bool)
        ensures
            self.effect(
                old(req)@,
                old(res)@,
                (Step { req: final(req)@, res: final(res)@, finished }),
            ),
    ;
}

/// A registered handler together with the path it is registered under.
#[derive(Debug)]
pub struct HandleBox<H> {
    pub url: String,
    pub inner: H,
}

/// A router: maps exact paths to handlers, behind an ordered chain of
/// middleware, and carries an extension store that its handlers share.
#[verifier::reject_recursive_types(H)]
pub struct Route<H: Handler, M: MiddleWare> {
    pub container: StringHashMap<Value>,
    pub middleware: Vec<M>,
    pub handlers: StringHashMap<HandleBox<H>>,
}

/// A router as a mathematical value.
#[verifier::ext_equal]
#[verifier::reject_recursive_types(H)]
pub struct RouteView<H, M> {
    /// The stored extension values by key.
    pub container: Map<Seq<char>, Value>,
    /// The middleware units in registration order.
    pub middleware: Seq<M>,
    /// The registered handlers by path.
    pub handlers: Map<Seq<char>, H>,
}

impl<H, M> RouteView<H, M> {
    /// The router without any entry.
    pub open spec fn empty() -> Self {
        RouteView { container: Map::empty(), middleware: Seq::empty(), handlers: Map::empty() }
    }

    /// The router after `handler` is registered under `url`, in place of
    /// whatever was registered there.
    pub open spec fn with_handler(self, url: Seq<char>, handler: H) -> Self {
        RouteView { handlers: self.handlers.insert(url, handler), ..self }
    }

    /// The router after `unit` is appended to the chain.
    pub open spec fn with_middleware(self, unit: M) -> Self {
        RouteView { middleware: self.middleware.push(unit), ..self }
    }

    /// The router after `value` is stored under `key`, in place of whatever
    /// was stored there.
    pub open spec fn with_extension(self, key: Seq<char>, value: Value) -> Self {
        RouteView { container: self.container.insert(key, value), ..self }
    }

    /// The extension stored under `key`, read as a `T`: `None` when nothing
    /// is stored there or when it was stored as another type.
    pub open spec fn extension<T: Payload>(self, key: Seq<char>) -> Option<T> {
        if self.container.contains_key(key) {
            T::recovered(self.container[key])
        } else {
            None
        }
    }

    /// The handler that a request for `uri` goes to: the one registered under
    /// the path of `uri`, its query left aside.
    pub open spec fn target(self, uri: Seq<char>) -> Option<H> {
        let key = path_key(uri);
        if self.handlers.contains_key(key) {
            Some(self.handlers[key])
        } else {
            None
        }
    }
}

impl<H: Handler, M: MiddleWare> RouteView<H, M> {
    /// Dispatching `req` on the response `before` may give `after`: the
    /// target handler answered, or, without a target, only the status changed
    /// to "not found".
    pub open spec fn routes(self, req: RequestView, before: ResponseView, after: ResponseView) -> bool {
        match self.target(req.uri) {
            Some(handler) => handler.responds(req, before, after),
            None => after == before.with_status(NOT_FOUND),
        }
    }

    /// Serving `req` on the response `before` may give `after`: the chain
    /// ran first; if a unit finished the request, the response is what that
    /// unit left, else the exchange that the chain left was dispatched.
    pub open spec fn serves(self, req: RequestView, before: ResponseView, after: ResponseView) -> bool {
        exists|end: Step| #[trigger]
            chain_runs(self.middleware, 0, req, before, end) && if end.finished {
                after == end.res
            } else {
                self.routes(end.req, end.res, after)
            }
    }
}

impl<H: Handler, M: MiddleWare> View for Route<H, M> {
    type V = RouteView<H, M>;

    open spec fn view(&self) -> RouteView<H, M> {
        RouteView {
            container: self.container@,
            middleware: self.middleware@,
            handlers: Map::new(
                |url: Seq<char>| self.handlers@.contains_key(url),
                |url: Seq<char>| self.handlers@[url].inner,
            ),
        }
    }
}

impl<H: Handler, M: MiddleWare> Route<H, M> {
    /// Every registered entry records the path it is registered under.
    pub open spec fn wf(&self) -> bool {
        forall|url: Seq<char>| #[trigger]
            self.handlers@.contains_key(url) ==> self.handlers@[url].url@ == url
    }

    /// A router without handlers, middleware or extensions.
    pub fn new() -> (route: Self)
        ensures
            route@ == RouteView::<H, M>::empty(),
            route.wf(),
    {
        Route {
            container: StringHashMap::new(),
            middleware: Vec::new(),
            handlers: StringHashMap::new(),
        }
    }

    /// Registers `h` under the path `url`. A handler that was registered
    /// under the same path is replaced.
    pub fn handle_fn(&mut self, url: &str, h: H)
        ensures
            final(self)@ == old(self)@.with_handler(url@, h),
            old(self).wf() ==> final(self).wf(),
    {
        self.handlers.insert(url.to_owned(), HandleBox { url: url.to_owned(), inner: h });
    }

    /// Appends `m` to the middleware chain.
    pub fn add_middleware(&mut self, m: M)
        ensures
            final(self)@ == old(self)@.with_middleware(m),
            old(self).wf() ==> final(self).wf(),
    {
        self.middleware.push(m);
    }

    /// Stores `data` under `key` with its type erased. A value that was
    /// stored under the same key is replaced.
    pub fn insert<T: Payload>(&mut self, key: &str, data: T)
        ensures
            final(self)@ == old(self)@.with_extension(key@, data.stored()),
            old(self).wf() ==> final(self).wf(),
    {
        self.container.insert(key.to_owned(), data.into_value());
    }

    /// Reads the value stored under `key` as a `T`. Nothing stored there and
    /// a value stored as another type both give `None`.
    pub fn get<T: Payload>(&self, key: &str) -> (found: Option<&T>)
        ensures
            match self@.extension::<T>(key@) {
                Some(x) => found == Some(&x),
                None => found is None,
            },
    {
        match self.container.get(key) {
            None => None,
            Some(value) => T::downcast_ref(value),
        }
    }

    /// Reads the value stored under `key` as a `T`, for a key that is known
    /// to hold one.
    pub fn index<T: Payload>(&self, key: &str) -> (found: &T)
        requires
            self@.extension::<T>(key@) is Some,
        ensures
            self@.extension::<T>(key@) == Some(*found),
    {
        match self.get::<T>(key) {
            Some(x) => x,
            None => vstd::pervasive::unreached(),
        }
    }

    /// The handler that a request for `uri` goes to, if one is registered
    /// under its path.
    pub fn find(&self, uri: &str) -> (found: Option<&HandleBox<H>>)
        ensures
            match self@.target(uri@) {
                Some(handler) => found matches Some(entry) && entry.inner == handler,
                None => found is None,
            },
            self.wf() ==> (found matches Some(entry) ==> entry.url@ == path_key(uri@)),
    {
        self.handlers.get(lookup_key(uri))
    }

    /// Runs the middleware chain on the exchange, in registration order, up
    /// to and including the first unit that reports the request as finished.
    /// Returns whether a unit did.
    pub fn run_middleware(&self, req: &mut Request, res: &mut Response) -> (finished: bool)
        ensures
            chain_runs(
                self@.middleware,
                0,
                old(req)@,
                old(res)@,
                (Step { req: final(req)@, res: final(res)@, finished }),
            ),
    {
        let ghost chain = self.middleware@;
        let ghost req0 = req@;
        let ghost res0 = res@;
        let mut i: usize = 0;
        while i < self.middleware.len()
            invariant
                chain == self.middleware@,
                req0 == old(req)@,
                res0 == old(res)@,
                i <= chain.len(),
                forall|end: Step| #[trigger]
                    chain_runs(chain, i as int, req@, res@, end) ==> chain_runs(
                        chain,
                        0,
                        req0,
                        res0,
                        end,
                    ),
            decreases chain.len() - i,
        {
            let ghost req1 = req@;
            let ghost res1 = res@;
            let finished = self.middleware[i].handle(req, res);
            let ghost mid = Step { req: req@, res: res@, finished };
            if finished {
                proof {
                    lemma_chain_step(chain, i as int, req1, res1, mid, mid);
                }
                return true;
            }
            proof {
                assert forall|end: Step| #[trigger]
                    chain_runs(chain, i as int + 1, req@, res@, end) implies chain_runs(
                    chain,
                    0,
                    req0,
                    res0,
                    end,
                ) by {
                    lemma_chain_step(chain, i as int, req1, res1, mid, end);
                }
            }
            i += 1;
        }
        assert(chain_runs(chain, i as int, req@, res@, Step { req: req@, res: res@, finished: false }));
        false
    }

    /// Hands the exchange to the handler registered under the path of the
    /// request; without one, marks the response as "not found" and touches
    /// nothing else.
    pub fn dispatch(&self, req: Request, res: &mut Response)
        ensures
            self@.routes(req@, old(res)@, final(res)@),
    {
        match self.find(req.uri.as_str()) {
            Some(entry) => entry.inner.handle(req, res),
            None => res.set_not_found(),
        }
    }
}

/// A router is itself a handler: it runs its middleware chain and, unless a
/// unit finished the request, dispatches on the path.
impl<H: Handler, M: MiddleWare> Handler for Route<H, M> {
    open spec fn responds(&self, req: RequestView, before: ResponseView, after: ResponseView) -> bool {
        self@.serves(req, before, after)
    }

    fn handle(&self, req: Request, res: &mut Response)
        ensures
            self@.serves(req@, old(res)@, final(res)@),
    {
        let ghost req0 = req@;
        let ghost res0 = res@;
        let mut req = req;
        let finished = self.run_middleware(&mut req, res);
        let ghost end = Step { req: req@, res: res@, finished };
        if !finished {
            self.dispatch(req, res);
        }
        assert(chain_runs(self@.middleware, 0, req0, res0, end));
    }
}

} // verus!
