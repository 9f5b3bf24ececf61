use post_service::route::{create_router, Handler, Method, Route};

#[test]
fn router_binds_the_six_routes_in_order() {
    let routes = create_router();
    assert_eq!(
        routes,
        vec![
            Route {
                method: Method::Get,
                path: "/v1/api/healthchecker",
                handler: Handler::HealthChecker,
            },
            Route { method: Method::Post, path: "/v1/api/posts", handler: Handler::CreatePost },
            Route { method: Method::Get, path: "/v1/api/posts", handler: Handler::PostList },
            Route { method: Method::Get, path: "/v1/api/posts/:id", handler: Handler::GetPost },
            Route { method: Method::Patch, path: "/v1/api/posts/:id", handler: Handler::EditPost },
            Route {
                method: Method::Delete,
                path: "/v1/api/posts/:id",
                handler: Handler::DeletePost,
            },
        ]
    );
}

#[test]
fn router_binds_no_method_and_path_twice() {
    let routes = create_router();
    for i in 0..routes.len() {
        for j in (i + 1)..routes.len() {
            assert!(routes[i].method != routes[j].method || routes[i].path != routes[j].path);
            assert_ne!(routes[i].handler, routes[j].handler);
        }
    }
}
