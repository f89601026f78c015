use todo::api::{ApiRequest, ApiResponse, RequestInfo, SLOW_DELAY_MS};
use todo::store::TodoState;

fn info(method: &str, path: &str) -> RequestInfo {
    RequestInfo { path: Some(path.to_string()), method: Some(method.to_string()) }
}

fn request(message: &str) -> ApiRequest {
    ApiRequest { message: message.to_string(), id: Some(7) }
}

fn check(r: &ApiResponse, data: &str, method: &str, path: &str) {
    assert_eq!(r.status, "success");
    assert_eq!(r.data, data);
    assert_eq!(r.path.as_deref(), Some(path));
    assert_eq!(r.method.as_deref(), Some(method));
}

#[test]
fn response_carries_request_info() {
    let r = ApiResponse::new("ok", &info("GET", "/x"));
    check(&r, "ok", "GET", "/x");
    let bare = ApiResponse::new("ok", &RequestInfo { path: None, method: None });
    assert_eq!(bare.path, None);
    assert_eq!(bare.method, None);
    let e = ApiResponse::error("Task text cannot be empty", &info("POST", "/add_task"));
    assert_eq!(e.status, "error");
    assert_eq!(e.data, "Task text cannot be empty");
    assert_eq!(e.path.as_deref(), Some("/add_task"));
}

#[test]
fn demo_handlers_answer() {
    let state = TodoState::new();
    check(&state.get_users(&info("GET", "/users")), "List of users", "GET", "/users");
    check(&state.get_posts(&info("GET", "/posts")), "List of posts", "GET", "/posts");
    let r = state.create_user(&request("ann"), &info("POST", "/users")).unwrap();
    check(&r, "Created user: ann", "POST", "/users");
    let r = state.process_data(&request("blob"), &info("POST", "/api/data")).unwrap();
    check(&r, "Processed: blob", "POST", "/api/data");
}

#[test]
fn slow_handler_answers_after_the_wait() {
    assert_eq!(SLOW_DELAY_MS, 5000);
    let state = TodoState::new();
    let i = info("POST", "/users-slow");
    let r = state.create_user_slow(&request("bob"), &i, None).unwrap();
    check(&r, "Created user slowly: bob", "POST", "/users-slow");
    let e = state.create_user_slow(&request("bob"), &i, Some("timer gone".to_string()));
    assert_eq!(e.unwrap_err(), "failed to sleep: timer gone");
}

#[test]
fn get_fallback_names_the_part() {
    let state = TodoState::new();
    let cases = [
        ("/api/unknown", "API GET fallback for /api/unknown"),
        ("/admin/dashboard", "Admin GET fallback for /admin/dashboard"),
        ("/test/something", "Test GET fallback for /test/something"),
        ("/api", "Unexpected GET fallback for /api"),
        ("/other", "Unexpected GET fallback for /other"),
    ];
    for (path, data) in cases {
        check(&state.handle_api_get_fallback(&info("GET", path)), data, "GET", path);
    }
    let r = state.handle_api_get_fallback(&RequestInfo { path: None, method: None });
    assert_eq!(r.data, "Unexpected GET fallback for ");
}

#[test]
fn post_fallback_names_path_and_message() {
    let state = TodoState::new();
    let r = state.handle_post_fallback(&request("file"), &info("POST", "/api/upload")).unwrap();
    check(&r, "API POST to /api/upload with: file", "POST", "/api/upload");
    let r = state.handle_post_fallback(&request("m"), &info("POST", "/other/endpoint")).unwrap();
    check(&r, "General POST to /other/endpoint with: m", "POST", "/other/endpoint");
}

#[test]
fn catch_all_names_method_and_path() {
    let state = TodoState::new();
    let r = state.handle_put_fallback(&info("PUT", "/anything"));
    check(&r, "Catch-all: PUT /anything", "PUT", "/anything");
    let r = state.handle_delete_fallback(&info("DELETE", "/whatever"));
    check(&r, "Catch-all: DELETE /whatever", "DELETE", "/whatever");
    let r = state.handle_patch_fallback(&info("PATCH", "/some/path"));
    check(&r, "Catch-all: PATCH /some/path", "PATCH", "/some/path");
    let r = state.handle_put_fallback(&RequestInfo { path: None, method: None });
    assert_eq!(r.data, "Catch-all:  ");
}
