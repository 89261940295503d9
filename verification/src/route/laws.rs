//! What holds of every router: how registration, the chain and the extension
//! store behave across calls.

use vstd::prelude::*;
use crate::server::{Handler, RequestView, ResponseView, NOT_FOUND};
use super::chain::{chain_runs, Step};
use super::container::Payload;
use super::path::{lemma_key_holds_no_query, lemma_key_of_plain_path, lemma_query_is_ignored, path_key};
use super::{MiddleWare, RouteView};

verus! {

/// No unit of the chain ever steps in: each leaves the exchange as it found
/// it and passes the request on.
pub open spec fn never_intervenes<M: MiddleWare>(chain: Seq<M>) -> bool {
    forall|i: int, req: RequestView, res: ResponseView, after: Step|
        0 <= i < chain.len() && #[trigger] chain[i].effect(req, res, after) ==> after == (Step {
            req,
            res,
            finished: false,
        })
}

/// The unit never reports a request as finished.
pub open spec fn always_passes<M: MiddleWare>(unit: M) -> bool {
    forall|req: RequestView, res: ResponseView, after: Step| #[trigger]
        unit.effect(req, res, after) ==> !after.finished
}

/// The unit reports every request as finished.
pub open spec fn always_finishes<M: MiddleWare>(unit: M) -> bool {
    forall|req: RequestView, res: ResponseView, after: Step| #[trigger]
        unit.effect(req, res, after) ==> after.finished
}

/// Matching is on the path alone: a request for `path?query` goes to the
/// handler registered under `path`, whatever the query, and so does a
/// request for `path` itself.
pub proof fn lemma_dispatch_ignores_query<H: Handler, M: MiddleWare>(
    route: RouteView<H, M>,
    path: Seq<char>,
    query: Seq<char>,
)
    requires
        route.handlers.contains_key(path),
        !path.contains('?'),
    ensures
        route.target(path + seq!['?'] + query) == Some(route.handlers[path]),
        route.target(path) == Some(route.handlers[path]),
        forall|req: RequestView, before: ResponseView, after: ResponseView|
            req.uri == path + seq!['?'] + query ==> (#[trigger] route.routes(req, before, after)
                <==> route.handlers[path].responds(req, before, after)),
{
    lemma_query_is_ignored(path, query);
    lemma_key_of_plain_path(path);
}

/// The query is never part of the key: a request target and its path have
/// the same target handler.
pub proof fn lemma_target_depends_on_path_only<H, M>(route: RouteView<H, M>, uri: Seq<char>)
    ensures
        route.target(uri) == route.target(path_key(uri)),
{
    lemma_key_holds_no_query(uri);
}

/// A walk along a chain whose units never intervene ends unfinished, on the
/// exchange it started from.
pub proof fn lemma_idle_chain<M: MiddleWare>(
    chain: Seq<M>,
    from: int,
    req: RequestView,
    res: ResponseView,
    end: Step,
)
    requires
        never_intervenes(chain),
        0 <= from,
        chain_runs(chain, from, req, res, end),
    ensures
        end == (Step { req, res, finished: false }),
    decreases chain.len() - from,
{
    if from < chain.len() {
        let mid = choose|mid: Step| #[trigger]
            chain[from].effect(req, res, mid) && if mid.finished {
                end == mid
            } else {
                chain_runs(chain, from + 1, mid.req, mid.res, end)
            };
        lemma_idle_chain(chain, from + 1, mid.req, mid.res, end);
    }
}

/// A request for a path that nothing is registered under, which no
/// middleware stepped in on, is answered "not found": the status is 404 and
/// the router writes no body and adds no header.
pub proof fn lemma_unregistered_is_not_found<H: Handler, M: MiddleWare>(
    route: RouteView<H, M>,
    req: RequestView,
    before: ResponseView,
    after: ResponseView,
)
    requires
        !route.handlers.contains_key(path_key(req.uri)),
        never_intervenes(route.middleware),
        route.serves(req, before, after),
    ensures
        after == before.with_status(NOT_FOUND),
        after.status == NOT_FOUND,
        after.body == before.body,
        after.headers == before.headers,
{
    let end = choose|end: Step| #[trigger]
        chain_runs(route.middleware, 0, req, before, end) && if end.finished {
            after == end.res
        } else {
            route.routes(end.req, end.res, after)
        };
    lemma_idle_chain(route.middleware, 0, req, before, end);
}

/// Once a unit that finishes every request stands in the chain, a walk ends
/// finished, at that unit or before it: whatever is registered behind it
/// never runs.
pub proof fn lemma_walk_ends_at_finisher<M: MiddleWare>(
    chain: Seq<M>,
    from: int,
    at: int,
    req: RequestView,
    res: ResponseView,
    end: Step,
)
    requires
        0 <= from <= at < chain.len(),
        always_finishes(chain[at]),
        chain_runs(chain, from, req, res, end),
    ensures
        end.finished,
        chain_runs(chain.take(at + 1), from, req, res, end),
    decreases at - from,
{
    let short = chain.take(at + 1);
    let mid = choose|mid: Step| #[trigger]
        chain[from].effect(req, res, mid) && if mid.finished {
            end == mid
        } else {
            chain_runs(chain, from + 1, mid.req, mid.res, end)
        };
    assert(short[from] == chain[from]);
    if !mid.finished {
        lemma_walk_ends_at_finisher(chain, from + 1, at, mid.req, mid.res, end);
    }
    assert(short[from].effect(req, res, mid));
}

/// With a unit that never finishes registered first and one that always
/// finishes second, both run, in that order, and the walk ends finished with
/// what the second left.
pub proof fn lemma_passing_then_finishing<M: MiddleWare>(
    first: M,
    second: M,
    req: RequestView,
    res: ResponseView,
    end: Step,
)
    requires
        always_passes(first),
        always_finishes(second),
    ensures
        chain_runs(seq![first, second], 0, req, res, end) <==> exists|mid: Step| #[trigger]
            first.effect(req, res, mid) && second.effect(mid.req, mid.res, end),
{
    let chain = seq![first, second];
    assert(chain[0] == first);
    assert(chain[1] == second);
    if chain_runs(chain, 0, req, res, end) {
        let mid = choose|mid: Step| #[trigger]
            chain[0].effect(req, res, mid) && if mid.finished {
                end == mid
            } else {
                chain_runs(chain, 1, mid.req, mid.res, end)
            };
        assert(chain_runs(chain, 1, mid.req, mid.res, end));
        let last = choose|last: Step| #[trigger]
            chain[1].effect(mid.req, mid.res, last) && if last.finished {
                end == last
            } else {
                chain_runs(chain, 2, last.req, last.res, end)
            };
        assert(first.effect(req, res, mid) && second.effect(mid.req, mid.res, end));
    }
    if exists|mid: Step| #[trigger]
        first.effect(req, res, mid) && second.effect(mid.req, mid.res, end) {
        let mid = choose|mid: Step| #[trigger]
            first.effect(req, res, mid) && second.effect(mid.req, mid.res, end);
        assert(chain[1].effect(mid.req, mid.res, end));
        assert(chain_runs(chain, 1, mid.req, mid.res, end));
        assert(chain[0].effect(req, res, mid));
        assert(chain_runs(chain, 0, req, res, end));
    }
}

/// With the unit that always finishes registered first, it alone runs: the
/// walk ends with what it left, and the unit behind it is never asked.
pub proof fn lemma_finishing_first<M: MiddleWare>(
    first: M,
    second: M,
    req: RequestView,
    res: ResponseView,
    end: Step,
)
    requires
        always_finishes(first),
    ensures
        chain_runs(seq![first, second], 0, req, res, end) <==> first.effect(req, res, end),
{
    let chain = seq![first, second];
    assert(chain[0] == first);
    if chain_runs(chain, 0, req, res, end) {
        let mid = choose|mid: Step| #[trigger]
            chain[0].effect(req, res, mid) && if mid.finished {
                end == mid
            } else {
                chain_runs(chain, 1, mid.req, mid.res, end)
            };
        assert(first.effect(req, res, end));
    }
    if first.effect(req, res, end) {
        assert(chain[0].effect(req, res, end));
        assert(chain_runs(chain, 0, req, res, end));
    }
}

/// When a unit of the chain finishes every request, no handler is invoked:
/// the response is what the chain left.
pub proof fn lemma_finished_request_skips_dispatch<H: Handler, M: MiddleWare>(
    route: RouteView<H, M>,
    at: int,
    req: RequestView,
    before: ResponseView,
    after: ResponseView,
)
    requires
        0 <= at < route.middleware.len(),
        always_finishes(route.middleware[at]),
        route.serves(req, before, after),
    ensures
        exists|end: Step| #[trigger]
            chain_runs(route.middleware, 0, req, before, end) && end.finished && after == end.res,
{
    let end = choose|end: Step| #[trigger]
        chain_runs(route.middleware, 0, req, before, end) && if end.finished {
            after == end.res
        } else {
            route.routes(end.req, end.res, after)
        };
    lemma_walk_ends_at_finisher(route.middleware, 0, at, req, before, end);
}

/// A value stored under a key is read back under its own type.
pub proof fn lemma_extension_read_back<H, M, T: Payload>(route: RouteView<H, M>, key: Seq<char>, data: T)
    ensures
        route.with_extension(key, data.stored()).extension::<T>(key) == Some(data),
{
    data.lemma_stored();
}

/// A value stored as one type is not found under a type with another tag.
pub proof fn lemma_extension_type_mismatch<H, M, T: Payload, U: Payload>(
    route: RouteView<H, M>,
    key: Seq<char>,
    data: T,
)
    requires
        T::kind() != U::kind(),
    ensures
        route.with_extension(key, data.stored()).extension::<U>(key) is None,
{
    data.lemma_stored();
    U::lemma_recovered(data.stored());
}

/// Nothing is found under a key that nothing was stored under.
pub proof fn lemma_extension_missing<H, M, T: Payload>(route: RouteView<H, M>, key: Seq<char>)
    requires
        !route.container.contains_key(key),
    ensures
        route.extension::<T>(key) is None,
{
}

/// Storing under one key leaves what is stored under every other key.
pub proof fn lemma_extension_other_keys<H, M, T: Payload, U: Payload>(
    route: RouteView<H, M>,
    key: Seq<char>,
    data: T,
    other: Seq<char>,
)
    requires
        other != key,
    ensures
        route.with_extension(key, data.stored()).extension::<U>(other) == route.extension::<U>(
            other,
        ),
{
}

/// Registering a second handler under a path replaces the first: the router
/// is as if only the second had been registered, and a request for the path
/// goes to the second.
pub proof fn lemma_reregistering_replaces<H, M>(
    route: RouteView<H, M>,
    url: Seq<char>,
    old_handler: H,
    new_handler: H,
)
    ensures
        route.with_handler(url, old_handler).with_handler(url, new_handler) == route.with_handler(
            url,
            new_handler,
        ),
        !url.contains('?') ==> route.with_handler(url, old_handler).with_handler(
            url,
            new_handler,
        ).target(url) == Some(new_handler),
{
    assert(route.handlers.insert(url, old_handler).insert(url, new_handler) =~= route.handlers.insert(
        url,
        new_handler,
    ));
    if !url.contains('?') {
        lemma_key_of_plain_path(url);
    }
}

/// Registering a handler leaves the handlers under every other path.
pub proof fn lemma_registering_other_paths<H, M>(
    route: RouteView<H, M>,
    url: Seq<char>,
    handler: H,
    uri: Seq<char>,
)
    requires
        path_key(uri) != url,
    ensures
        route.with_handler(url, handler).target(uri) == route.target(uri),
{
}

} // verus!
