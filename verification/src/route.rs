//! The routes of the service: which handler answers which method on which
//! path.

use vstd::prelude::*;

verus! {

/// The path of the health check.
pub const HEALTH_PATH: &'static str = "/v1/api/healthchecker";

/// The path of the collection of posts.
pub const POSTS_PATH: &'static str = "/v1/api/posts";

/// The path of one post; the last segment stands for its identifier.
pub const POST_PATH: &'static str = "/v1/api/posts/:id";

/// The HTTP methods that the service answers.
#[derive(Clone, Copy, Debug, PartialEq, Eq, Structural)]
pub enum Method {
    Get,
    Post,
    Patch,
    Delete,
}

/// The handlers of the service.
#[derive(Clone, Copy, Debug, PartialEq, Eq, Structural)]
pub enum Handler {
    HealthChecker,
    PostList,
    CreatePost,
    GetPost,
    EditPost,
    DeletePost,
}

/// One route: requests with this method on this path go to this handler.
#[derive(Clone, Copy, Debug, PartialEq, Eq)]
pub struct Route {
    pub method: Method,
    pub path: &'static str,
    pub handler: Handler,
}

/// A `Route`, with its path as a sequence of characters.
pub struct RouteView {
    pub method: Method,
    pub path: Seq<char>,
    pub handler: Handler,
}

impl View for Route {
    type V = RouteView;

    open spec fn view(&self) -> RouteView {
        RouteView { method: self.method, path: self.path@, handler: self.handler }
    }
}

/// The routes of a vector, each by its view.
pub open spec fn routes_view(routes: Seq<Route>) -> Seq<RouteView> {
    Seq::new(routes.len(), |i: int| routes[i]@)
}

/// The table of the service: the health check; create and list on the
/// collection; get, edit and delete on one post.
pub open spec fn route_table() -> Seq<RouteView> {
    seq![
        RouteView { method: Method::Get, path: HEALTH_PATH@, handler: Handler::HealthChecker },
        RouteView { method: Method::Post, path: POSTS_PATH@, handler: Handler::CreatePost },
        RouteView { method: Method::Get, path: POSTS_PATH@, handler: Handler::PostList },
        RouteView { method: Method::Get, path: POST_PATH@, handler: Handler::GetPost },
        RouteView { method: Method::Patch, path: POST_PATH@, handler: Handler::EditPost },
        RouteView { method: Method::Delete, path: POST_PATH@, handler: Handler::DeletePost },
    ]
}

/// The routes of the service, in the order in which they are bound.
pub fn create_router() -> (routes: Vec<Route>)
    ensures
        routes_view(routes@) == route_table(),
{
    let mut routes: Vec<Route> = Vec::new();
    routes.push(Route { method: Method::Get, path: HEALTH_PATH, handler: Handler::HealthChecker });
    routes.push(Route { method: Method::Post, path: POSTS_PATH, handler: Handler::CreatePost });
    routes.push(Route { method: Method::Get, path: POSTS_PATH, handler: Handler::PostList });
    routes.push(Route { method: Method::Get, path: POST_PATH, handler: Handler::GetPost });
    routes.push(Route { method: Method::Patch, path: POST_PATH, handler: Handler::EditPost });
    routes.push(Route { method: Method::Delete, path: POST_PATH, handler: Handler::DeletePost });
    assert(routes_view(routes@) =~= route_table());
    routes
}

/// No two routes of the table answer the same method on the same path, and
/// every handler is bound by exactly one route.
pub proof fn law_routes_are_distinct()
    ensures
        forall|i: int, j: int|
            0 <= i < j < route_table().len() ==> {
                &&& (route_table()[i].method != route_table()[j].method || route_table()[i].path
                    != route_table()[j].path)
                &&& route_table()[i].handler != route_table()[j].handler
            },
{
    reveal_strlit("/v1/api/healthchecker");
    reveal_strlit("/v1/api/posts");
    reveal_strlit("/v1/api/posts/:id");
    let table = route_table();
    assert(HEALTH_PATH@.len() == 21);
    assert(POSTS_PATH@.len() == 13);
    assert(POST_PATH@.len() == 17);
    assert forall|i: int, j: int| 0 <= i < j < table.len() implies {
        &&& (table[i].method != table[j].method || table[i].path != table[j].path)
        &&& table[i].handler != table[j].handler
    } by {
        assert(table.len() == 6);
    }
}

} // verus!
