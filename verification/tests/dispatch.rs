use mco_http::route::{MiddleWare, Route};
use mco_http::server::{Handler, Request, Response, NOT_FOUND, OK};
use mco_http::version::HttpVersion;

/// Answers by writing its own name into the body and setting its own status.
struct Named {
    name: &'static str,
    status: u16,
}

impl Handler for Named {
    fn handle(&self, _req: Request, res: &mut Response) {
        res.status = self.status;
        res.body.extend_from_slice(self.name.as_bytes());
    }
}

/// Never steps in.
struct Idle;

impl MiddleWare for Idle {
    fn handle(&self, _req: &mut Request, _res: &mut Response) -> bool {
        false
    }
}

fn named(name: &'static str) -> Named {
    Named { name, status: 200 }
}

fn serve(route: &Route<Named, Idle>, uri: &str) -> Response {
    let mut res = Response::new();
    route.handle(Request::new(uri), &mut res);
    res
}

#[test]
fn fresh_exchange_has_documented_defaults() {
    let req = Request::new("/a?b=1");
    assert_eq!(req.method, "GET");
    assert_eq!(req.uri, "/a?b=1");
    assert_eq!(req.version, HttpVersion::Http11);
    assert!(req.headers.is_empty());
    assert!(req.body.is_empty());
    let res = Response::new();
    assert_eq!(res.status, 200);
    assert_eq!(res.status, OK);
    assert_eq!(res.version, HttpVersion::Http11);
    assert!(res.headers.is_empty());
    assert!(res.body.is_empty());
}

#[test]
fn registered_path_reaches_its_handler() {
    let mut route: Route<Named, Idle> = Route::new();
    route.handle_fn("/", named("root"));
    route.handle_fn("/js", named("js"));
    route.handle_fn("/fn", named("fn"));
    assert_eq!(serve(&route, "/").body, b"root".to_vec());
    assert_eq!(serve(&route, "/js").body, b"js".to_vec());
    assert_eq!(serve(&route, "/fn").body, b"fn".to_vec());
}

#[test]
fn query_is_ignored_for_matching() {
    let mut route: Route<Named, Idle> = Route::new();
    route.handle_fn("/", named("root"));
    route.handle_fn("/js", named("js"));
    for query in ["", "a=b&c=2", "?", "x?y?z", "/js", "\u{e9}=\u{4e2d}"] {
        let res = serve(&route, &format!("/js?{}", query));
        assert_eq!(res.status, 200);
        assert_eq!(res.body, b"js".to_vec());
        let res = serve(&route, &format!("/?{}", query));
        assert_eq!(res.body, b"root".to_vec());
    }
}

#[test]
fn handler_sees_the_whole_target() {
    struct Mirror;
    impl Handler for Mirror {
        fn handle(&self, req: Request, res: &mut Response) {
            res.body.extend_from_slice(req.uri.as_bytes());
        }
    }
    let mut route: Route<Mirror, Idle> = Route::new();
    route.handle_fn("/q", Mirror);
    let mut res = Response::new();
    route.handle(Request::new("/q?a=b&c=2"), &mut res);
    assert_eq!(res.body, b"/q?a=b&c=2".to_vec());
}

#[test]
fn unregistered_path_is_not_found_with_empty_body() {
    let mut route: Route<Named, Idle> = Route::new();
    route.handle_fn("/a", named("a"));
    for uri in ["/b", "/a/", "/A", "a", "/a/b", "/b?x=/a", "/aa"] {
        let res = serve(&route, uri);
        assert_eq!(res.status, 404);
        assert_eq!(res.status, NOT_FOUND);
        assert!(res.body.is_empty());
        assert!(res.headers.is_empty());
        assert_eq!(res.version, HttpVersion::Http11);
    }
}

#[test]
fn not_found_changes_only_the_status() {
    let route: Route<Named, Idle> = Route::new();
    let mut res = Response::new();
    res.status = 200;
    res.version = HttpVersion::Http10;
    res.headers.push((String::from("Server"), String::from("x")));
    res.body.extend_from_slice(b"draft");
    route.dispatch(Request::new("/nowhere"), &mut res);
    assert_eq!(res.status, 404);
    assert_eq!(res.version, HttpVersion::Http10);
    assert_eq!(res.headers, vec![(String::from("Server"), String::from("x"))]);
    assert_eq!(res.body, b"draft".to_vec());
    let mut other = Response::new();
    other.set_not_found();
    assert_eq!(other.status, 404);
    assert!(other.body.is_empty());
}

#[test]
fn empty_router_finds_nothing() {
    let route: Route<Named, Idle> = Route::new();
    assert!(route.middleware.is_empty());
    assert!(route.find("/").is_none());
    assert_eq!(serve(&route, "/").status, 404);
    assert_eq!(serve(&route, "").status, 404);
}

#[test]
fn empty_and_odd_targets_are_misses_not_crashes() {
    let mut route: Route<Named, Idle> = Route::new();
    route.handle_fn("/a", named("a"));
    for uri in ["", "?", "??", "?/a", " ", "\u{0}", "/\u{4e2d}\u{6587}", "%zz", "//", "\u{1F600}?q"] {
        assert_eq!(serve(&route, uri).status, 404);
    }
}

#[test]
fn empty_path_can_be_registered() {
    let mut route: Route<Named, Idle> = Route::new();
    route.handle_fn("", named("empty"));
    assert_eq!(serve(&route, "").body, b"empty".to_vec());
    assert_eq!(serve(&route, "?a=1").body, b"empty".to_vec());
    assert_eq!(serve(&route, "/").status, 404);
}

#[test]
fn non_ascii_path_matches_exactly() {
    let mut route: Route<Named, Idle> = Route::new();
    route.handle_fn("/caf\u{e9}", named("cafe"));
    assert_eq!(serve(&route, "/caf\u{e9}").body, b"cafe".to_vec());
    assert_eq!(serve(&route, "/caf\u{e9}?\u{4e2d}=1").body, b"cafe".to_vec());
    assert_eq!(serve(&route, "/cafe").status, 404);
}

#[test]
fn path_registered_with_a_query_mark_is_never_reached() {
    let mut route: Route<Named, Idle> = Route::new();
    route.handle_fn("/a?b", named("never"));
    assert_eq!(serve(&route, "/a?b").status, 404);
    assert!(route.find("/a?b").is_none());
    route.handle_fn("/a", named("a"));
    assert_eq!(serve(&route, "/a?b").body, b"a".to_vec());
}

#[test]
fn reregistering_replaces_the_handler() {
    let mut route: Route<Named, Idle> = Route::new();
    route.handle_fn("/x", named("old"));
    route.handle_fn("/y", named("y"));
    assert_eq!(serve(&route, "/x").body, b"old".to_vec());
    route.handle_fn("/x", Named { name: "new", status: 201 });
    let res = serve(&route, "/x");
    assert_eq!(res.body, b"new".to_vec());
    assert_eq!(res.status, 201);
    assert_eq!(serve(&route, "/x?again").body, b"new".to_vec());
    assert_eq!(serve(&route, "/y").body, b"y".to_vec());
}

#[test]
fn find_returns_the_entry_under_the_path() {
    let mut route: Route<Named, Idle> = Route::new();
    route.handle_fn("/x", named("x"));
    route.handle_fn("/y", named("y"));
    let entry = route.find("/x?k=v").expect("registered");
    assert_eq!(entry.url, "/x");
    assert_eq!(entry.inner.name, "x");
    let entry = route.find("/y").expect("registered");
    assert_eq!(entry.url, "/y");
    assert_eq!(entry.inner.name, "y");
    assert!(route.find("/z").is_none());
    assert!(route.find("/x/").is_none());
}

#[test]
fn exactly_one_handler_runs_per_request() {
    let mut route: Route<Named, Idle> = Route::new();
    route.handle_fn("/a", named("a"));
    route.handle_fn("/ab", named("ab"));
    route.handle_fn("/", named("root"));
    assert_eq!(serve(&route, "/a").body, b"a".to_vec());
    assert_eq!(serve(&route, "/ab").body, b"ab".to_vec());
    assert_eq!(serve(&route, "/abc").body, Vec::<u8>::new());
}

#[test]
fn router_does_not_inspect_what_the_handler_wrote() {
    let mut route: Route<Named, Idle> = Route::new();
    route.handle_fn("/teapot", Named { name: "", status: 418 });
    let res = serve(&route, "/teapot");
    assert_eq!(res.status, 418);
    assert!(res.body.is_empty());
}
