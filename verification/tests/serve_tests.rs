use todo::api::{ApiRequest, RequestInfo};
use todo::router::{Handler, Method, Router};
use todo::router::RouteError;
use todo::serve::{delay_before, make_call, route, Body, Call, Reply, ServeError};
use todo::store::TodoState;

fn info(method: &str, path: &str) -> RequestInfo {
    RequestInfo { path: Some(path.to_string()), method: Some(method.to_string()) }
}

fn request(message: &str) -> ApiRequest {
    ApiRequest { message: message.to_string(), id: None }
}

fn answer_data(r: Result<Reply, todo::api::ApiResponse>) -> String {
    match r {
        Ok(Reply::Answer(a)) => {
            assert_eq!(a.status, "success");
            a.data
        },
        other => panic!("unexpected {:?}", other),
    }
}

#[test]
fn respond_adds_and_lists_tasks() {
    let mut state = TodoState::new();
    let i = info("POST", "/add_task");
    let added = match state.respond(Call::AddTask("buy milk".to_string()), &i) {
        Ok(Reply::Task(t)) => t,
        other => panic!("unexpected {:?}", other),
    };
    assert_eq!(added.text(), "buy milk");
    assert!(!added.completed());
    match state.respond(Call::GetTasks("all".to_string()), &info("GET", "/get_tasks")) {
        Ok(Reply::Tasks(tasks)) => assert_eq!(tasks, vec![added.clone()]),
        other => panic!("unexpected {:?}", other),
    }
    match state.respond(Call::ToggleTask(added.id().clone()), &info("POST", "/toggle_task")) {
        Ok(Reply::Task(t)) => {
            assert_eq!(t.id(), added.id());
            assert!(t.completed());
        },
        other => panic!("unexpected {:?}", other),
    }
}

#[test]
fn respond_with_id_uses_the_candidate() {
    let mut state = TodoState::new();
    let i = info("POST", "/add_task");
    match state.respond_with_id(Call::AddTask("a".to_string()), &i, "id-1".to_string()) {
        Ok(Reply::Task(t)) => assert_eq!(t.id(), "id-1"),
        other => panic!("unexpected {:?}", other),
    }
    match state.respond_with_id(Call::AddTask("b".to_string()), &i, "id-1".to_string()) {
        Ok(Reply::Task(t)) => assert_eq!(t.id(), "id-1-"),
        other => panic!("unexpected {:?}", other),
    }
}

#[test]
fn refusals_become_error_answers() {
    let mut state = TodoState::new();
    let i = info("POST", "/add_task");
    match state.respond(Call::AddTask("  ".to_string()), &i) {
        Err(a) => {
            assert_eq!(a.status, "error");
            assert_eq!(a.data, "Task text cannot be empty");
            assert_eq!(a.path.as_deref(), Some("/add_task"));
            assert_eq!(a.method.as_deref(), Some("POST"));
        },
        other => panic!("unexpected {:?}", other),
    }
    match state.respond(Call::ToggleTask("nonexistent".to_string()), &i) {
        Err(a) => {
            assert_eq!(a.status, "error");
            assert_eq!(a.data, "Task with id 'nonexistent' not found");
        },
        other => panic!("unexpected {:?}", other),
    }
    let slow = Call::CreateUserSlow(request("bob"), Some("no timer".to_string()));
    match state.respond(slow, &info("POST", "/users-slow")) {
        Err(a) => {
            assert_eq!(a.status, "error");
            assert_eq!(a.data, "failed to sleep: no timer");
        },
        other => panic!("unexpected {:?}", other),
    }
    assert!(state.get_tasks(String::new()).unwrap().is_empty());
}

#[test]
fn demo_calls_answer() {
    let mut state = TodoState::new();
    let cases = [
        (Call::GetUsers, info("GET", "/users"), "List of users"),
        (Call::CreateUser(request("ann")), info("POST", "/users"), "Created user: ann"),
        (
            Call::CreateUserSlow(request("bob"), None),
            info("POST", "/users-slow"),
            "Created user slowly: bob",
        ),
        (Call::GetPosts, info("GET", "/posts"), "List of posts"),
        (Call::ProcessData(request("d")), info("POST", "/api/data"), "Processed: d"),
        (Call::GetFallback, info("GET", "/admin/x"), "Admin GET fallback for /admin/x"),
        (Call::PostFallback(request("m")), info("POST", "/api/x"), "API POST to /api/x with: m"),
        (Call::CatchAll, info("PATCH", "/some/path"), "Catch-all: PATCH /some/path"),
    ];
    for (call, i, data) in cases {
        assert_eq!(answer_data(state.respond(call, &i)), data);
    }
}

#[test]
fn put_without_route_gets_the_catch_all_answer() {
    let router = Router::standard();
    let method = Method::Put;
    let path = "/anything".to_string();
    assert_eq!(router.resolve(method, &path).unwrap(), Handler::CatchAll);
    let mut state = TodoState::new();
    let i = RequestInfo { path: Some(path), method: Some(method.name()) };
    match state.respond(Call::CatchAll, &i) {
        Ok(Reply::Answer(a)) => {
            assert_eq!(a.status, "success");
            assert_eq!(a.data, "Catch-all: PUT /anything");
            assert_eq!(a.path.as_deref(), Some("/anything"));
            assert_eq!(a.method.as_deref(), Some("PUT"));
        },
        other => panic!("unexpected {:?}", other),
    }
}

fn body(text: Option<&str>, message: Option<&str>) -> Body {
    Body { text: text.map(|t| t.to_string()), request: message.map(request) }
}

#[test]
fn route_makes_the_call_of_the_resolved_handler() {
    let router = Router::standard();
    let r = route(&router, Method::Post, &"/add_task".to_string(), body(Some("buy milk"), None));
    assert!(matches!(r, Ok(Call::AddTask(t)) if t == "buy milk"));
    let r = route(&router, Method::Get, &"/users".to_string(), body(None, None));
    assert!(matches!(r, Ok(Call::GetUsers)));
    let r = route(&router, Method::Post, &"/users".to_string(), body(None, Some("ann")));
    assert!(matches!(r, Ok(Call::CreateUser(q)) if q.message == "ann"));
    let r = route(&router, Method::Post, &"/users-slow".to_string(), body(None, Some("bob")));
    assert!(matches!(r, Ok(Call::CreateUserSlow(q, None)) if q.message == "bob"));
    let r = route(&router, Method::Get, &"/test/x".to_string(), body(Some("t"), Some("m")));
    assert!(matches!(r, Ok(Call::GetFallback)));
    let r = route(&router, Method::Post, &"/nowhere".to_string(), body(None, Some("m")));
    assert!(matches!(r, Ok(Call::PostFallback(q)) if q.message == "m"));
    let r = route(&router, Method::Delete, &"/users".to_string(), body(None, None));
    assert!(matches!(r, Ok(Call::CatchAll)));
}

#[test]
fn route_reports_what_is_missing() {
    let router = Router::standard();
    let r = route(&router, Method::Post, &"/add_task".to_string(), body(None, Some("m")));
    assert!(matches!(r, Err(ServeError::Body(Handler::AddTask))));
    let r = route(&router, Method::Post, &"/api/data".to_string(), body(Some("t"), None));
    assert!(matches!(r, Err(ServeError::Body(Handler::ProcessData))));
    let r = route(&Router::new(), Method::Get, &"/users".to_string(), body(None, None));
    match r {
        Err(ServeError::Route(RouteError::NoRouteFound(m, p))) => {
            assert_eq!(m, Method::Get);
            assert_eq!(p, "/users");
        },
        other => panic!("unexpected {:?}", other),
    }
}

#[test]
fn make_call_takes_what_the_handler_takes() {
    assert!(matches!(make_call(Handler::GetTasks, body(Some("all"), None)), Some(Call::GetTasks(t)) if t == "all"));
    assert!(matches!(make_call(Handler::ToggleTask, body(Some("id"), None)), Some(Call::ToggleTask(t)) if t == "id"));
    assert!(make_call(Handler::ToggleTask, body(None, None)).is_none());
    assert!(make_call(Handler::CreateUser, body(Some("t"), None)).is_none());
    assert!(matches!(make_call(Handler::GetPosts, body(None, None)), Some(Call::GetPosts)));
    assert!(matches!(make_call(Handler::CatchAll, body(Some("t"), Some("m"))), Some(Call::CatchAll)));
}

#[test]
fn only_the_slow_call_waits() {
    assert_eq!(delay_before(&Call::CreateUserSlow(request("bob"), None)), Some(5000));
    assert_eq!(delay_before(&Call::CreateUser(request("ann"))), None);
    assert_eq!(delay_before(&Call::GetUsers), None);
    assert_eq!(delay_before(&Call::AddTask("x".to_string())), None);
}
