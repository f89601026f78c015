use todo::router::{Handler, Method, Route, RouteError, Router};

fn route(method: Method, path: Option<&str>, handler: Handler) -> Route {
    Route { method, path: path.map(|p| p.to_string()), handler }
}

#[test]
fn exact_route_wins_over_fallback() {
    let mut router = Router::new();
    router.register(route(Method::Get, None, Handler::GetFallback)).unwrap();
    router.register(route(Method::Any, None, Handler::CatchAll)).unwrap();
    router.register(route(Method::Get, Some("/users"), Handler::GetUsers)).unwrap();
    assert_eq!(router.resolve(Method::Get, &"/users".to_string()).unwrap(), Handler::GetUsers);
    assert_eq!(router.resolve(Method::Get, &"/users/".to_string()).unwrap(), Handler::GetFallback);
}

#[test]
fn fallback_wins_over_catch_all() {
    let mut router = Router::new();
    router.register(route(Method::Any, None, Handler::CatchAll)).unwrap();
    router.register(route(Method::Post, None, Handler::PostFallback)).unwrap();
    assert_eq!(router.resolve(Method::Post, &"/x".to_string()).unwrap(), Handler::PostFallback);
}

#[test]
fn catch_all_takes_what_is_left() {
    let mut router = Router::new();
    router.register(route(Method::Get, Some("/anything"), Handler::GetUsers)).unwrap();
    router.register(route(Method::Get, None, Handler::GetFallback)).unwrap();
    router.register(route(Method::Any, None, Handler::CatchAll)).unwrap();
    assert_eq!(router.resolve(Method::Put, &"/anything".to_string()).unwrap(), Handler::CatchAll);
}

#[test]
fn no_route_found_names_method_and_path() {
    let mut router = Router::new();
    router.register(route(Method::Get, Some("/users"), Handler::GetUsers)).unwrap();
    router.register(route(Method::Post, None, Handler::PostFallback)).unwrap();
    match router.resolve(Method::Delete, &"/users".to_string()) {
        Err(RouteError::NoRouteFound(m, p)) => {
            assert_eq!(m, Method::Delete);
            assert_eq!(p, "/users");
        },
        other => panic!("unexpected {:?}", other),
    }
    assert!(matches!(
        Router::new().resolve(Method::Get, &"/".to_string()),
        Err(RouteError::NoRouteFound(Method::Get, _))
    ));
}

#[test]
fn register_refuses_a_second_route_for_a_key() {
    let mut router = Router::new();
    router.register(route(Method::Get, Some("/users"), Handler::GetUsers)).unwrap();
    router.register(route(Method::Post, Some("/users"), Handler::CreateUser)).unwrap();
    router.register(route(Method::Get, None, Handler::GetFallback)).unwrap();
    match router.register(route(Method::Get, Some("/users"), Handler::GetPosts)) {
        Err(RouteError::AlreadyRegistered(m, p)) => {
            assert_eq!(m, Method::Get);
            assert_eq!(p, Some("/users".to_string()));
        },
        other => panic!("unexpected {:?}", other),
    }
    assert!(matches!(
        router.register(route(Method::Get, None, Handler::CatchAll)),
        Err(RouteError::AlreadyRegistered(Method::Get, None))
    ));
    assert_eq!(router.len(), 3);
    assert_eq!(router.resolve(Method::Get, &"/users".to_string()).unwrap(), Handler::GetUsers);
}

#[test]
fn standard_table_routes() {
    let router = Router::standard();
    assert_eq!(router.len(), 11);
    let cases = [
        (Method::Post, "/add_task", Handler::AddTask),
        (Method::Get, "/get_tasks", Handler::GetTasks),
        (Method::Post, "/toggle_task", Handler::ToggleTask),
        (Method::Get, "/users", Handler::GetUsers),
        (Method::Post, "/users", Handler::CreateUser),
        (Method::Post, "/users-slow", Handler::CreateUserSlow),
        (Method::Get, "/posts", Handler::GetPosts),
        (Method::Post, "/api/data", Handler::ProcessData),
        (Method::Get, "/api/unknown", Handler::GetFallback),
        (Method::Get, "/admin/dashboard", Handler::GetFallback),
        (Method::Post, "/api/upload", Handler::PostFallback),
        (Method::Post, "/other/endpoint", Handler::PostFallback),
        (Method::Put, "/anything", Handler::CatchAll),
        (Method::Delete, "/whatever", Handler::CatchAll),
        (Method::Patch, "/some/path", Handler::CatchAll),
        (Method::Put, "/users", Handler::CatchAll),
    ];
    for (method, path, handler) in cases {
        assert_eq!(router.resolve(method, &path.to_string()).unwrap(), handler, "{}", path);
    }
}

#[test]
fn method_names() {
    for m in [Method::Get, Method::Post, Method::Put, Method::Patch, Method::Delete] {
        assert_eq!(Method::from_name(&m.name()), Some(m));
    }
    assert_eq!(Method::Get.name(), "GET");
    assert_eq!(Method::Delete.name(), "DELETE");
    assert_eq!(Method::Any.name(), "ANY");
    assert_eq!(Method::from_name(&"ANY".to_string()), None);
    assert_eq!(Method::from_name(&"get".to_string()), None);
}
