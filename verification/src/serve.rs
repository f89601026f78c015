//! From a routed request to its reply: each handler with what it takes,
//! and the store's refusals turned into answers that report an error.

use vstd::prelude::*;
use vstd::string::*;
use crate::api::{
    catch_all, catch_all_data, failure, get_fallback_data, post_fallback_data, success,
    ApiRequest, ApiResponse, ApiResponseView, RequestInfo, SLOW_DELAY_MS,
};
use crate::router::{
    has_route, lemma_catch_all_is_last, resolution, unique_keys, Handler, Method, RouteError,
    RouteErrorView, RouteView, Router,
};
use crate::store::{random_id, StateView, TodoState};
use crate::task::{
    error_message, flipped, fresh_id, has_id, hyphens, index_of_id, task_views, toggled,
    TaskErrorView, TaskView, TodoItem,
};
use crate::text::{is_blank, opt_view, or_empty};

verus! {

/// A request as its handler takes it: the handler that the router chose,
/// with what was read from the body for it. The slow handler also takes
/// what its wait failed with, if it failed.
#[derive(Debug)]
pub enum Call {
    AddTask(String),
    GetTasks(String),
    ToggleTask(String),
    GetUsers,
    CreateUser(ApiRequest),
    CreateUserSlow(ApiRequest, Option<String>),
    GetPosts,
    ProcessData(ApiRequest),
    GetFallback,
    PostFallback(ApiRequest),
    CatchAll,
}

/// A call as plain values; of a demo request only the message counts.
pub enum CallView {
    AddTask(Seq<char>),
    GetTasks(Seq<char>),
    ToggleTask(Seq<char>),
    GetUsers,
    CreateUser(Seq<char>),
    CreateUserSlow(Seq<char>, Option<Seq<char>>),
    GetPosts,
    ProcessData(Seq<char>),
    GetFallback,
    PostFallback(Seq<char>),
    CatchAll,
}

impl View for Call {
    type V = CallView;

    open spec fn view(&self) -> CallView {
        match self {
            Call::AddTask(text) => CallView::AddTask(text@),
            Call::GetTasks(request) => CallView::GetTasks(request@),
            Call::ToggleTask(id) => CallView::ToggleTask(id@),
            Call::GetUsers => CallView::GetUsers,
            Call::CreateUser(req) => CallView::CreateUser(req.message@),
            Call::CreateUserSlow(req, failed) => CallView::CreateUserSlow(
                req.message@,
                opt_view(*failed),
            ),
            Call::GetPosts => CallView::GetPosts,
            Call::ProcessData(req) => CallView::ProcessData(req.message@),
            Call::GetFallback => CallView::GetFallback,
            Call::PostFallback(req) => CallView::PostFallback(req.message@),
            Call::CatchAll => CallView::CatchAll,
        }
    }
}

/// What was read from a request's body, each way that a handler may take
/// it: as a text, and as a demo request.
#[derive(Debug)]
pub struct Body {
    pub text: Option<String>,
    pub request: Option<ApiRequest>,
}

/// The message of an optional demo request.
pub open spec fn message_view(request: Option<ApiRequest>) -> Option<Seq<char>> {
    match request {
        Some(r) => Some(r.message@),
        None => None,
    }
}

/// An optional call as plain values.
pub open spec fn call_view(call: Option<Call>) -> Option<CallView> {
    match call {
        Some(c) => Some(c@),
        None => None,
    }
}

/// The call that a handler makes of a body: the three task handlers take
/// its text, the four handlers for POSTed demo requests take the request,
/// the others take nothing. There is none where the body lacks what the
/// handler takes. The slow handler's call starts without a failed wait.
pub open spec fn call_for(
    handler: Handler,
    text: Option<Seq<char>>,
    message: Option<Seq<char>>,
) -> Option<CallView> {
    match handler {
        Handler::AddTask => match text {
            Some(t) => Some(CallView::AddTask(t)),
            None => None,
        },
        Handler::GetTasks => match text {
            Some(t) => Some(CallView::GetTasks(t)),
            None => None,
        },
        Handler::ToggleTask => match text {
            Some(t) => Some(CallView::ToggleTask(t)),
            None => None,
        },
        Handler::GetUsers => Some(CallView::GetUsers),
        Handler::CreateUser => match message {
            Some(m) => Some(CallView::CreateUser(m)),
            None => None,
        },
        Handler::CreateUserSlow => match message {
            Some(m) => Some(CallView::CreateUserSlow(m, None)),
            None => None,
        },
        Handler::GetPosts => Some(CallView::GetPosts),
        Handler::ProcessData => match message {
            Some(m) => Some(CallView::ProcessData(m)),
            None => None,
        },
        Handler::GetFallback => Some(CallView::GetFallback),
        Handler::PostFallback => match message {
            Some(m) => Some(CallView::PostFallback(m)),
            None => None,
        },
        Handler::CatchAll => Some(CallView::CatchAll),
    }
}

/// Why a request led to no call.
#[derive(Debug)]
pub enum ServeError {
    /// The router found no handler.
    Route(RouteError),
    /// The body lacks what the handler takes.
    Body(Handler),
}

/// An error of serving, as plain values.
pub enum ServeErrorView {
    Route(RouteErrorView),
    Body(Handler),
}

impl View for ServeError {
    type V = ServeErrorView;

    open spec fn view(&self) -> ServeErrorView {
        match self {
            ServeError::Route(e) => ServeErrorView::Route(e@),
            ServeError::Body(h) => ServeErrorView::Body(*h),
        }
    }
}

/// The call that a request leads to in a table: that of the handler which
/// the table resolves its method and path to, made of its body.
pub open spec fn routed(
    routes: Seq<RouteView>,
    method: Method,
    path: Seq<char>,
    text: Option<Seq<char>>,
    message: Option<Seq<char>>,
) -> Result<CallView, ServeErrorView> {
    match resolution(routes, method, path) {
        Some(handler) => match call_for(handler, text, message) {
            Some(call) => Ok(call),
            None => Err(ServeErrorView::Body(handler)),
        },
        None => Err(ServeErrorView::Route(RouteErrorView::NoRouteFound(method, path))),
    }
}

/// The routed call as plain values.
pub open spec fn routed_view(r: Result<Call, ServeError>) -> Result<CallView, ServeErrorView> {
    match r {
        Ok(call) => Ok(call@),
        Err(e) => Err(e@),
    }
}

/// Makes the call of a handler and a body.
pub fn make_call(handler: Handler, body: Body) -> (r: Option<Call>)
    ensures
        call_view(r) == call_for(handler, opt_view(body.text), message_view(body.request)),
{
    match handler {
        Handler::AddTask => match body.text {
            Some(t) => Some(Call::AddTask(t)),
            None => None,
        },
        Handler::GetTasks => match body.text {
            Some(t) => Some(Call::GetTasks(t)),
            None => None,
        },
        Handler::ToggleTask => match body.text {
            Some(t) => Some(Call::ToggleTask(t)),
            None => None,
        },
        Handler::GetUsers => Some(Call::GetUsers),
        Handler::CreateUser => match body.request {
            Some(r) => Some(Call::CreateUser(r)),
            None => None,
        },
        Handler::CreateUserSlow => match body.request {
            Some(r) => Some(Call::CreateUserSlow(r, None)),
            None => None,
        },
        Handler::GetPosts => Some(Call::GetPosts),
        Handler::ProcessData => match body.request {
            Some(r) => Some(Call::ProcessData(r)),
            None => None,
        },
        Handler::GetFallback => Some(Call::GetFallback),
        Handler::PostFallback => match body.request {
            Some(r) => Some(Call::PostFallback(r)),
            None => None,
        },
        Handler::CatchAll => Some(Call::CatchAll),
    }
}

/// Finds the call that a request leads to: `routed` of its method, path
/// and body.
pub fn route(router: &Router, method: Method, path: &String, body: Body) -> (r: Result<
    Call,
    ServeError,
>)
    ensures
        routed_view(r) == routed(
            router@,
            method,
            path@,
            opt_view(body.text),
            message_view(body.request),
        ),
{
    match router.resolve(method, path) {
        Ok(handler) => match make_call(handler, body) {
            Some(call) => Ok(call),
            None => Err(ServeError::Body(handler)),
        },
        Err(e) => Err(ServeError::Route(e)),
    }
}

/// How long a call is to wait before it is carried out, in milliseconds:
/// only the slow handler waits.
pub fn delay_before(call: &Call) -> (r: Option<u64>)
    ensures
        r == if call@ is CreateUserSlow {
            Some(SLOW_DELAY_MS)
        } else {
            None
        },
{
    match call {
        Call::CreateUserSlow(_, _) => Some(SLOW_DELAY_MS),
        _ => None,
    }
}

/// What a handler gives back.
#[derive(Debug)]
pub enum Reply {
    Task(TodoItem),
    Tasks(Vec<TodoItem>),
    Answer(ApiResponse),
}

/// A reply as plain values.
pub enum ReplyView {
    Task(TaskView),
    Tasks(Seq<TaskView>),
    Answer(ApiResponseView),
}

impl View for Reply {
    type V = ReplyView;

    open spec fn view(&self) -> ReplyView {
        match self {
            Reply::Task(t) => ReplyView::Task(t@),
            Reply::Tasks(v) => ReplyView::Tasks(task_views(v@)),
            Reply::Answer(a) => ReplyView::Answer(a@),
        }
    }
}

/// The result of a call as plain values.
pub open spec fn result_view(r: Result<Reply, ApiResponse>) -> Result<ReplyView, ApiResponseView> {
    match r {
        Ok(reply) => Ok(reply@),
        Err(answer) => Err(answer@),
    }
}

/// What a call does: the state after it and the reply. A refusal of the
/// store and a failed wait become an answer that reports the error in
/// words; they leave the state as it was, as do all calls but adding a
/// task and turning one over.
pub open spec fn response(s: StateView, call: CallView, info: RequestInfo, candidate: Seq<char>) -> (
    StateView,
    Result<ReplyView, ApiResponseView>,
) {
    let path = or_empty(opt_view(info.path));
    let method = or_empty(opt_view(info.method));
    match call {
        CallView::AddTask(text) => if is_blank(text) {
            (s, Err(failure(error_message(TaskErrorView::EmptyText), info)))
        } else {
            let task = TaskView { id: fresh_id(s.tasks, candidate), text, completed: false };
            (
                StateView { tasks: s.tasks.push(task), channels: s.channels },
                Ok(ReplyView::Task(task)),
            )
        },
        CallView::GetTasks(_) => (s, Ok(ReplyView::Tasks(s.tasks))),
        CallView::ToggleTask(id) => if has_id(s.tasks, id) {
            (
                StateView { tasks: toggled(s.tasks, id), channels: s.channels },
                Ok(ReplyView::Task(flipped(s.tasks[index_of_id(s.tasks, id)]))),
            )
        } else {
            (s, Err(failure(error_message(TaskErrorView::NotFound(id)), info)))
        },
        CallView::GetUsers => (s, Ok(ReplyView::Answer(success("List of users"@, info)))),
        CallView::CreateUser(message) => (
            s,
            Ok(ReplyView::Answer(success("Created user: "@ + message, info))),
        ),
        CallView::CreateUserSlow(message, failed) => match failed {
            Some(e) => (s, Err(failure("failed to sleep: "@ + e, info))),
            None => (s, Ok(ReplyView::Answer(success("Created user slowly: "@ + message, info)))),
        },
        CallView::GetPosts => (s, Ok(ReplyView::Answer(success("List of posts"@, info)))),
        CallView::ProcessData(message) => (
            s,
            Ok(ReplyView::Answer(success("Processed: "@ + message, info))),
        ),
        CallView::GetFallback => (s, Ok(ReplyView::Answer(success(get_fallback_data(path), info)))),
        CallView::PostFallback(message) => (
            s,
            Ok(ReplyView::Answer(success(post_fallback_data(path, message), info))),
        ),
        CallView::CatchAll => (
            s,
            Ok(ReplyView::Answer(success(catch_all_data(method, path), info))),
        ),
    }
}

/// Wraps what a demo handler gave.
fn answered(r: Result<ApiResponse, String>, info: &RequestInfo) -> (out: Result<Reply, ApiResponse>)
    ensures
        match r {
            Ok(a) => result_view(out) == Ok::<ReplyView, ApiResponseView>(ReplyView::Answer(a@)),
            Err(m) => result_view(out) == Err::<ReplyView, ApiResponseView>(failure(m@, *info)),
        },
{
    match r {
        Ok(a) => Ok(Reply::Answer(a)),
        Err(m) => Err(ApiResponse::error(m.as_str(), info)),
    }
}

impl TodoState {
    /// Carries out a call: `response` says what becomes of the state and
    /// what the reply is. `candidate` is the identifier proposed for a
    /// task that is added.
    pub fn respond_with_id(&mut self, call: Call, info: &RequestInfo, candidate: String) -> (r:
        Result<Reply, ApiResponse>)
        ensures
            final(self)@.wf(),
            (final(self)@, result_view(r)) == response(old(self)@, call@, *info, candidate@),
    {
        proof {
            use_type_invariant(&*self);
        }
        match call {
            Call::AddTask(text) => match self.add_task_with_id(text, candidate) {
                Ok(task) => Ok(Reply::Task(task)),
                Err(e) => Err(ApiResponse::error(e.message().as_str(), info)),
            },
            Call::GetTasks(request) => match self.get_tasks(request) {
                Ok(tasks) => Ok(Reply::Tasks(tasks)),
                Err(e) => Err(ApiResponse::error(e.message().as_str(), info)),
            },
            Call::ToggleTask(id) => match self.toggle_task(id) {
                Ok(task) => Ok(Reply::Task(task)),
                Err(e) => Err(ApiResponse::error(e.message().as_str(), info)),
            },
            Call::GetUsers => Ok(Reply::Answer(self.get_users(info))),
            Call::CreateUser(req) => answered(self.create_user(&req, info), info),
            Call::CreateUserSlow(req, failed) => answered(
                self.create_user_slow(&req, info, failed),
                info,
            ),
            Call::GetPosts => Ok(Reply::Answer(self.get_posts(info))),
            Call::ProcessData(req) => answered(self.process_data(&req, info), info),
            Call::GetFallback => Ok(Reply::Answer(self.handle_api_get_fallback(info))),
            Call::PostFallback(req) => answered(self.handle_post_fallback(&req, info), info),
            Call::CatchAll => Ok(Reply::Answer(catch_all(info))),
        }
    }

    /// Carries out a call, with a random candidate of 36 characters for the
    /// identifier of a task that is added.
    pub fn respond(&mut self, call: Call, info: &RequestInfo) -> (r: Result<Reply, ApiResponse>)
        ensures
            final(self)@.wf(),
            exists|candidate: Seq<char>|
                candidate.len() == 36 && (final(self)@, result_view(r)) == #[trigger] response(
                    old(self)@,
                    call@,
                    *info,
                    candidate,
                ),
    {
        let ghost before = self@;
        let ghost asked = call@;
        let candidate = match &call {
            Call::AddTask(_) => random_id(),
            _ => String::new(),
        };
        let ghost witness = if asked is AddTask {
            candidate@
        } else {
            hyphens(36)
        };
        let r = self.respond_with_id(call, info, candidate);
        assert(witness.len() == 36 && (self@, result_view(r)) == response(
            before,
            asked,
            *info,
            witness,
        ));
        r
    }
}

/// A request that has no exact route and no fallback for its method, in a
/// table whose catch-all leads to the catch-all handler, is answered by it
/// with the method and the path as they came, whatever its body holds.
pub proof fn lemma_unrouted_request_is_caught(
    routes: Seq<RouteView>,
    method: Method,
    path: Seq<char>,
    text: Option<Seq<char>>,
    message: Option<Seq<char>>,
    i: int,
    s: StateView,
    info: RequestInfo,
    candidate: Seq<char>,
)
    requires
        unique_keys(routes),
        !has_route(routes, method, Some(path)),
        !has_route(routes, method, None),
        0 <= i < routes.len(),
        routes[i].method == Method::Any,
        routes[i].path == None::<Seq<char>>,
        routes[i].handler == Handler::CatchAll,
    ensures
        routed(routes, method, path, text, message) == Ok::<CallView, ServeErrorView>(
            CallView::CatchAll,
        ),
        response(s, CallView::CatchAll, info, candidate) == (
            s,
            Ok::<ReplyView, ApiResponseView>(
                ReplyView::Answer(
                    success(
                        "Catch-all: "@ + or_empty(opt_view(info.method)) + " "@ + or_empty(
                            opt_view(info.path),
                        ),
                        info,
                    ),
                ),
            ),
        ),
{
    lemma_catch_all_is_last(routes, method, path, i);
}

/// Only adding a task and turning one over change the state, and nothing
/// changes the connected channels.
pub proof fn lemma_response_keeps_state(
    s: StateView,
    call: CallView,
    info: RequestInfo,
    candidate: Seq<char>,
)
    ensures
        response(s, call, info, candidate).0.channels == s.channels,
        !(call is AddTask) && !(call is ToggleTask) ==> response(s, call, info, candidate).0 == s,
        response(s, call, info, candidate).1 is Err ==> response(s, call, info, candidate).0 == s,
{
}

} // verus!
