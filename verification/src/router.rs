//! Which request goes where.

use vstd::prelude::*;
use vstd::string::*;

verus! {

/// The methods that the server understands.
#[derive(Debug, Clone, Copy, PartialEq, Eq, Structural)]
pub enum Method {
    Get,
    Post,
}

/// What a request asks for.
#[derive(Debug, Clone, Copy, PartialEq, Eq, Structural)]
pub enum Endpoint {
    Index,
    Health,
    Run,
    Stream,
    Diff,
    DiffCommit,
    DiffRange,
    CommitPage,
    Commit,
    ConversationNew,
    ConversationList,
    ConversationResume,
    Audio,
}

/// A method and a path, and what they ask for.
#[derive(Debug, Clone, Copy)]
pub struct Route {
    pub method: Method,
    pub path: &'static str,
    pub endpoint: Endpoint,
}

/// What a `Route` says.
pub struct RouteView {
    pub method: Method,
    pub path: Seq<char>,
    pub endpoint: Endpoint,
}

impl View for Route {
    type V = RouteView;

    open spec fn view(&self) -> RouteView {
        RouteView { method: self.method, path: self.path@, endpoint: self.endpoint }
    }
}

/// The path of an endpoint.
pub open spec fn path_of(endpoint: Endpoint) -> Seq<char> {
    match endpoint {
        Endpoint::Index => "/"@,
        Endpoint::Health => "/health"@,
        Endpoint::Run => "/run"@,
        Endpoint::Stream => "/stream"@,
        Endpoint::Diff => "/diff"@,
        Endpoint::DiffCommit => "/diff/commit"@,
        Endpoint::DiffRange => "/diff/range"@,
        Endpoint::CommitPage => "/commit"@,
        Endpoint::Commit => "/commit"@,
        Endpoint::ConversationNew => "/conversation/new"@,
        Endpoint::ConversationList => "/conversation/list"@,
        Endpoint::ConversationResume => "/conversation/resume"@,
        Endpoint::Audio => "/audio"@,
    }
}

/// Whether a request for the endpoint has effects, and so takes the password.
pub open spec fn has_effects(endpoint: Endpoint) -> bool {
    match endpoint {
        Endpoint::Run => true,
        Endpoint::Commit => true,
        Endpoint::ConversationNew => true,
        Endpoint::ConversationResume => true,
        Endpoint::Audio => true,
        _ => false,
    }
}

/// The route of an endpoint: what has effects is posted, the rest is got.
pub open spec fn route_of(endpoint: Endpoint) -> RouteView {
    RouteView {
        method: if has_effects(endpoint) {
            Method::Post
        } else {
            Method::Get
        },
        path: path_of(endpoint),
        endpoint,
    }
}

/// The endpoints, in the order of their routes.
pub open spec fn endpoints() -> Seq<Endpoint> {
    seq![
        Endpoint::Index,
        Endpoint::Health,
        Endpoint::Run,
        Endpoint::Stream,
        Endpoint::Diff,
        Endpoint::DiffCommit,
        Endpoint::DiffRange,
        Endpoint::CommitPage,
        Endpoint::Commit,
        Endpoint::ConversationNew,
        Endpoint::ConversationList,
        Endpoint::ConversationResume,
        Endpoint::Audio,
    ]
}

fn route(method: Method, path: &'static str, endpoint: Endpoint) -> (r: Route)
    ensures
        r@ == (RouteView { method, path: path@, endpoint }),
{
    Route { method, path, endpoint }
}

/// The routes of the server.
pub fn build() -> (r: Vec<Route>)
    ensures
        r@.map_values(|x: Route| x@) == endpoints().map_values(|e: Endpoint| route_of(e)),
{
    let mut routes: Vec<Route> = Vec::new();
    routes.push(route(Method::Get, "/", Endpoint::Index));
    routes.push(route(Method::Get, "/health", Endpoint::Health));
    routes.push(route(Method::Post, "/run", Endpoint::Run));
    routes.push(route(Method::Get, "/stream", Endpoint::Stream));
    routes.push(route(Method::Get, "/diff", Endpoint::Diff));
    routes.push(route(Method::Get, "/diff/commit", Endpoint::DiffCommit));
    routes.push(route(Method::Get, "/diff/range", Endpoint::DiffRange));
    routes.push(route(Method::Get, "/commit", Endpoint::CommitPage));
    routes.push(route(Method::Post, "/commit", Endpoint::Commit));
    routes.push(route(Method::Post, "/conversation/new", Endpoint::ConversationNew));
    routes.push(route(Method::Get, "/conversation/list", Endpoint::ConversationList));
    routes.push(route(Method::Post, "/conversation/resume", Endpoint::ConversationResume));
    routes.push(route(Method::Post, "/audio", Endpoint::Audio));
    assert(routes@.map_values(|x: Route| x@) =~= endpoints().map_values(
        |e: Endpoint| route_of(e),
    ));
    routes
}

/// Every endpoint has a route.
pub proof fn law_every_endpoint_is_routed(endpoint: Endpoint)
    ensures
        endpoints().contains(endpoint),
{
    let all = endpoints();
    assert(all[0] == Endpoint::Index);
    assert(all[1] == Endpoint::Health);
    assert(all[2] == Endpoint::Run);
    assert(all[3] == Endpoint::Stream);
    assert(all[4] == Endpoint::Diff);
    assert(all[5] == Endpoint::DiffCommit);
    assert(all[6] == Endpoint::DiffRange);
    assert(all[7] == Endpoint::CommitPage);
    assert(all[8] == Endpoint::Commit);
    assert(all[9] == Endpoint::ConversationNew);
    assert(all[10] == Endpoint::ConversationList);
    assert(all[11] == Endpoint::ConversationResume);
    assert(all[12] == Endpoint::Audio);
}

/// No two endpoints share a method and a path.
pub proof fn law_routes_are_distinct(a: Endpoint, b: Endpoint)
    requires
        route_of(a).method == route_of(b).method,
        route_of(a).path == route_of(b).path,
    ensures
        a == b,
{
    reveal_strlit("/");
    reveal_strlit("/health");
    reveal_strlit("/run");
    reveal_strlit("/stream");
    reveal_strlit("/diff");
    reveal_strlit("/diff/commit");
    reveal_strlit("/diff/range");
    reveal_strlit("/commit");
    reveal_strlit("/conversation/new");
    reveal_strlit("/conversation/list");
    reveal_strlit("/conversation/resume");
    reveal_strlit("/audio");
    // The paths differ in length, or in the character that follows the first slash, or in
    // the first one of their last part.
    assert(path_of(a).len() == path_of(b).len());
    assert(path_of(a).len() > 1 ==> path_of(a)[1] == path_of(b)[1]);
    assert(path_of(a).len() > 14 ==> path_of(a)[14] == path_of(b)[14]);
}

} // verus!
