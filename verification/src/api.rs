//! The request handlers behind the routes, and the shapes they take and give.

use vstd::prelude::*;
use vstd::string::*;
use crate::store::TodoState;
use crate::text::{has_prefix, join, opt_view, or_empty, str_has_prefix};

verus! {

/// An answer that wraps a list of items.
#[derive(PartialEq, Clone, Debug)]
pub struct Response {
    pub data: NestedData,
}

/// The items of a wrapped answer.
#[derive(PartialEq, Clone, Debug)]
pub struct NestedData {
    pub items: Vec<Item>,
}

/// One item of a wrapped answer.
#[derive(PartialEq, Clone, Debug)]
pub struct Item {
    pub id: String,
}

/// The body of a demo request.
#[derive(Debug)]
pub struct ApiRequest {
    pub message: String,
    pub id: Option<u32>,
}

/// What the host says of the request in hand: its path and its method,
/// as far as it knows them.
#[derive(Debug)]
pub struct RequestInfo {
    pub path: Option<String>,
    pub method: Option<String>,
}

/// The uniform answer of the demo handlers.
#[derive(Debug)]
pub struct ApiResponse {
    pub status: String,
    pub data: String,
    pub path: Option<String>,
    pub method: Option<String>,
}

/// An answer as plain values.
pub struct ApiResponseView {
    pub status: Seq<char>,
    pub data: Seq<char>,
    pub path: Option<Seq<char>>,
    pub method: Option<Seq<char>>,
}

impl View for ApiResponse {
    type V = ApiResponseView;

    open spec fn view(&self) -> ApiResponseView {
        ApiResponseView {
            status: self.status@,
            data: self.data@,
            path: opt_view(self.path),
            method: opt_view(self.method),
        }
    }
}

/// The answer that reports success with `data` for the request in hand.
pub open spec fn success(data: Seq<char>, info: RequestInfo) -> ApiResponseView {
    ApiResponseView {
        status: "success"@,
        data,
        path: opt_view(info.path),
        method: opt_view(info.method),
    }
}

/// The answer that reports a failure with `data` for the request in hand.
pub open spec fn failure(data: Seq<char>, info: RequestInfo) -> ApiResponseView {
    ApiResponseView {
        status: "error"@,
        data,
        path: opt_view(info.path),
        method: opt_view(info.method),
    }
}

/// What the fallback for GET says of a path.
pub open spec fn get_fallback_data(path: Seq<char>) -> Seq<char> {
    if has_prefix(path, "/api/"@) {
        "API GET fallback for "@ + path
    } else if has_prefix(path, "/admin/"@) {
        "Admin GET fallback for "@ + path
    } else if has_prefix(path, "/test/"@) {
        "Test GET fallback for "@ + path
    } else {
        "Unexpected GET fallback for "@ + path
    }
}

/// What the fallback for POST says of a path and a message.
pub open spec fn post_fallback_data(path: Seq<char>, message: Seq<char>) -> Seq<char> {
    if has_prefix(path, "/api/"@) {
        "API POST to "@ + path + " with: "@ + message
    } else {
        "General POST to "@ + path + " with: "@ + message
    }
}

/// What the catch-all says of a method and a path.
pub open spec fn catch_all_data(method: Seq<char>, path: Seq<char>) -> Seq<char> {
    "Catch-all: "@ + method + " "@ + path
}

/// A copy of an optional text.
fn copy_opt(s: &Option<String>) -> (r: Option<String>)
    ensures
        opt_view(r) == opt_view(*s),
{
    match s {
        Some(t) => Some(t.clone()),
        None => None,
    }
}

/// A copy of the text, or the empty text where there is none.
fn text_or_empty(s: &Option<String>) -> (r: String)
    ensures
        r@ == or_empty(opt_view(*s)),
{
    match s {
        Some(t) => t.clone(),
        None => String::new(),
    }
}

impl ApiResponse {
    /// The answer that reports success with `data`.
    pub fn new(data: &str, info: &RequestInfo) -> (r: Self)
        ensures
            r@ == success(data@, *info),
    {
        ApiResponse {
            status: String::from_str("success"),
            data: String::from_str(data),
            path: copy_opt(&info.path),
            method: copy_opt(&info.method),
        }
    }

    /// The answer that reports a failure with `data`.
    pub fn error(data: &str, info: &RequestInfo) -> (r: Self)
        ensures
            r@ == failure(data@, *info),
    {
        ApiResponse {
            status: String::from_str("error"),
            data: String::from_str(data),
            path: copy_opt(&info.path),
            method: copy_opt(&info.method),
        }
    }
}

/// How long the slow handler waits before it answers, in milliseconds.
pub const SLOW_DELAY_MS: u64 = 5000;

/// The answer of the catch-all: the method and the path as they came.
pub(crate) fn catch_all(info: &RequestInfo) -> (r: ApiResponse)
    ensures
        r@ == success(
            catch_all_data(or_empty(opt_view(info.method)), or_empty(opt_view(info.path))),
            *info,
        ),
{
    let path = text_or_empty(&info.path);
    let method = text_or_empty(&info.method);
    let data = String::from_str("Catch-all: ").concat(method.as_str()).concat(" ").concat(
        path.as_str(),
    );
    ApiResponse::new(data.as_str(), info)
}

impl TodoState {
    /// GET /users.
    pub fn get_users(&self, info: &RequestInfo) -> (r: ApiResponse)
        ensures
            r@ == success("List of users"@, *info),
    {
        ApiResponse::new("List of users", info)
    }

    /// POST /users.
    pub fn create_user(&self, req: &ApiRequest, info: &RequestInfo) -> (r: Result<
        ApiResponse,
        String,
    >)
        ensures
            r matches Ok(a) && a@ == success("Created user: "@ + req.message@, *info),
    {
        Ok(ApiResponse::new(join("Created user: ", req.message.as_str()).as_str(), info))
    }

    /// POST /users-slow, once the wait of `SLOW_DELAY_MS` is over:
    /// `sleep_error` is what the wait failed with, if it failed.
    pub fn create_user_slow(
        &self,
        req: &ApiRequest,
        info: &RequestInfo,
        sleep_error: Option<String>,
    ) -> (r: Result<ApiResponse, String>)
        ensures
            match sleep_error {
                Some(e) => r matches Err(m) && m@ == "failed to sleep: "@ + e@,
                None => r matches Ok(a) && a@ == success(
                    "Created user slowly: "@ + req.message@,
                    *info,
                ),
            },
    {
        match sleep_error {
            Some(e) => Err(join("failed to sleep: ", e.as_str())),
            None => Ok(
                ApiResponse::new(
                    join("Created user slowly: ", req.message.as_str()).as_str(),
                    info,
                ),
            ),
        }
    }

    /// GET /posts.
    pub fn get_posts(&self, info: &RequestInfo) -> (r: ApiResponse)
        ensures
            r@ == success("List of posts"@, *info),
    {
        ApiResponse::new("List of posts", info)
    }

    /// POST /api/data.
    pub fn process_data(&self, req: &ApiRequest, info: &RequestInfo) -> (r: Result<
        ApiResponse,
        String,
    >)
        ensures
            r matches Ok(a) && a@ == success("Processed: "@ + req.message@, *info),
    {
        Ok(ApiResponse::new(join("Processed: ", req.message.as_str()).as_str(), info))
    }

    /// The fallback for GET: it names the part of the site that the path
    /// falls under.
    pub fn handle_api_get_fallback(&self, info: &RequestInfo) -> (r: ApiResponse)
        ensures
            r@ == success(get_fallback_data(or_empty(opt_view(info.path))), *info),
    {
        let path = text_or_empty(&info.path);
        let data = if str_has_prefix(path.as_str(), "/api/") {
            join("API GET fallback for ", path.as_str())
        } else if str_has_prefix(path.as_str(), "/admin/") {
            join("Admin GET fallback for ", path.as_str())
        } else if str_has_prefix(path.as_str(), "/test/") {
            join("Test GET fallback for ", path.as_str())
        } else {
            join("Unexpected GET fallback for ", path.as_str())
        };
        ApiResponse::new(data.as_str(), info)
    }

    /// The fallback for POST.
    pub fn handle_post_fallback(&self, req: &ApiRequest, info: &RequestInfo) -> (r: Result<
        ApiResponse,
        String,
    >)
        ensures
            r matches Ok(a) && a@ == success(
                post_fallback_data(or_empty(opt_view(info.path)), req.message@),
                *info,
            ),
    {
        let path = text_or_empty(&info.path);
        let head = if str_has_prefix(path.as_str(), "/api/") {
            join("API POST to ", path.as_str())
        } else {
            join("General POST to ", path.as_str())
        };
        let data = head.concat(" with: ").concat(req.message.as_str());
        Ok(ApiResponse::new(data.as_str(), info))
    }

    /// The catch-all as it answers PUT.
    pub fn handle_put_fallback(&self, info: &RequestInfo) -> (r: ApiResponse)
        ensures
            r@ == success(
                catch_all_data(or_empty(opt_view(info.method)), or_empty(opt_view(info.path))),
                *info,
            ),
    {
        catch_all(info)
    }

    /// The catch-all as it answers DELETE.
    pub fn handle_delete_fallback(&self, info: &RequestInfo) -> (r: ApiResponse)
        ensures
            r@ == success(
                catch_all_data(or_empty(opt_view(info.method)), or_empty(opt_view(info.path))),
                *info,
            ),
    {
        catch_all(info)
    }

    /// The catch-all as it answers PATCH.
    pub fn handle_patch_fallback(&self, info: &RequestInfo) -> (r: ApiResponse)
        ensures
            r@ == success(
                catch_all_data(or_empty(opt_view(info.method)), or_empty(opt_view(info.path))),
                *info,
            ),
    {
        catch_all(info)
    }
}

} // verus!
