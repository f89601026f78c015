//! The route table and the rule by which a request finds its handler:
//! an exact route first, then the fallback of the request's method, then
//! the catch-all.

use vstd::prelude::*;
use vstd::string::*;

verus! {

/// The method of a request or of a route. A route registered under `Any`
/// without a path is the catch-all.
#[derive(Clone, Copy, Debug, PartialEq, Eq, Structural)]
pub enum Method {
    Get,
    Post,
    Put,
    Patch,
    Delete,
    Any,
}

/// The handlers that a route can lead to.
#[derive(Clone, Copy, Debug, PartialEq, Eq, Structural)]
pub enum Handler {
    AddTask,
    GetTasks,
    ToggleTask,
    GetUsers,
    CreateUser,
    CreateUserSlow,
    GetPosts,
    ProcessData,
    GetFallback,
    PostFallback,
    CatchAll,
}

/// The name under which a method travels in a request.
pub open spec fn method_name(m: Method) -> Seq<char> {
    match m {
        Method::Get => "GET"@,
        Method::Post => "POST"@,
        Method::Put => "PUT"@,
        Method::Patch => "PATCH"@,
        Method::Delete => "DELETE"@,
        Method::Any => "ANY"@,
    }
}

impl Method {
    /// The method's name.
    pub fn name(&self) -> (r: String)
        ensures
            r@ == method_name(*self),
    {
        match self {
            Method::Get => String::from_str("GET"),
            Method::Post => String::from_str("POST"),
            Method::Put => String::from_str("PUT"),
            Method::Patch => String::from_str("PATCH"),
            Method::Delete => String::from_str("DELETE"),
            Method::Any => String::from_str("ANY"),
        }
    }

    /// The request method that goes by this name, if it is one of the five.
    pub fn from_name(name: &String) -> (r: Option<Method>)
        ensures
            r matches Some(m) ==> m != Method::Any && method_name(m) == name@,
            r is None ==> forall|m: Method| m != Method::Any ==> method_name(m) != name@,
    {
        if *name == String::from_str("GET") {
            Some(Method::Get)
        } else if *name == String::from_str("POST") {
            Some(Method::Post)
        } else if *name == String::from_str("PUT") {
            Some(Method::Put)
        } else if *name == String::from_str("PATCH") {
            Some(Method::Patch)
        } else if *name == String::from_str("DELETE") {
            Some(Method::Delete)
        } else {
            None
        }
    }
}

/// One entry of the table: a method, an exact path or none, and the handler.
#[derive(Debug)]
pub struct Route {
    pub method: Method,
    pub path: Option<String>,
    pub handler: Handler,
}

/// A route as plain values.
pub struct RouteView {
    pub method: Method,
    pub path: Option<Seq<char>>,
    pub handler: Handler,
}

/// An optional path as plain values.
pub open spec fn path_view(path: Option<String>) -> Option<Seq<char>> {
    match path {
        Some(p) => Some(p@),
        None => None,
    }
}

impl View for Route {
    type V = RouteView;

    open spec fn view(&self) -> RouteView {
        RouteView { method: self.method, path: path_view(self.path), handler: self.handler }
    }
}

/// Why the router refused.
#[derive(Debug)]
pub enum RouteError {
    /// No route, fallback or catch-all takes this request.
    NoRouteFound(Method, String),
    /// The table already has a route for this method and path.
    AlreadyRegistered(Method, Option<String>),
}

/// An error of the router, as plain values.
pub enum RouteErrorView {
    NoRouteFound(Method, Seq<char>),
    AlreadyRegistered(Method, Option<Seq<char>>),
}

impl View for RouteError {
    type V = RouteErrorView;

    open spec fn view(&self) -> RouteErrorView {
        match self {
            RouteError::NoRouteFound(m, p) => RouteErrorView::NoRouteFound(*m, p@),
            RouteError::AlreadyRegistered(m, p) => RouteErrorView::AlreadyRegistered(
                *m,
                path_view(*p),
            ),
        }
    }
}

/// The routes of a table, each as plain values, in registration order.
pub open spec fn route_views(routes: Seq<Route>) -> Seq<RouteView> {
    Seq::new(routes.len(), |i: int| routes[i]@)
}

/// Whether the table has an entry for this method and path.
pub open spec fn has_route(routes: Seq<RouteView>, method: Method, path: Option<Seq<char>>) -> bool {
    exists|i: int|
        0 <= i < routes.len() && (#[trigger] routes[i]).method == method && routes[i].path == path
}

/// Where the entry for this method and path stands, if there is one.
pub open spec fn route_index(routes: Seq<RouteView>, method: Method, path: Option<Seq<char>>) -> int {
    choose|i: int|
        0 <= i < routes.len() && (#[trigger] routes[i]).method == method && routes[i].path == path
}

/// Whether no two entries share a method and a path.
pub open spec fn unique_keys(routes: Seq<RouteView>) -> bool {
    forall|i: int, j: int|
        0 <= i < j < routes.len() ==> !((#[trigger] routes[i]).method == (#[trigger] routes[j]).method
            && routes[i].path == routes[j].path)
}

/// The handler that a request is given: that of the exact route for its
/// method and path; failing that, of the fallback for its method; failing
/// that, of the catch-all; and none if there is no such entry either.
pub open spec fn resolution(routes: Seq<RouteView>, method: Method, path: Seq<char>) -> Option<
    Handler,
> {
    if has_route(routes, method, Some(path)) {
        Some(routes[route_index(routes, method, Some(path))].handler)
    } else if has_route(routes, method, None) {
        Some(routes[route_index(routes, method, None)].handler)
    } else if has_route(routes, Method::Any, None) {
        Some(routes[route_index(routes, Method::Any, None)].handler)
    } else {
        None
    }
}

/// The route table.
#[derive(Debug)]
pub struct Router {
    routes: Vec<Route>,
}

impl View for Router {
    type V = Seq<RouteView>;

    closed spec fn view(&self) -> Seq<RouteView> {
        route_views(self.routes@)
    }
}

/// Whether two optional paths are the same.
fn same_path(a: &Option<String>, b: &Option<String>) -> (r: bool)
    ensures
        r == (path_view(*a) == path_view(*b)),
{
    match (a, b) {
        (Some(x), Some(y)) => *x == *y,
        (None, None) => true,
        _ => false,
    }
}

impl Router {
    /// Every table keeps its keys unique.
    #[verifier::type_invariant]
    closed spec fn valid(self) -> bool {
        unique_keys(self@)
    }

    /// Whether no two entries share a method and a path.
    pub open spec fn wf(&self) -> bool {
        unique_keys(self@)
    }

    /// Does nothing, and tells a verified caller that the table keeps its
    /// keys unique, as every table does.
    pub fn well_formed(&self)
        ensures
            self.wf(),
    {
        proof {
            use_type_invariant(self);
        }
    }

    /// An empty table.
    pub fn new() -> (r: Self)
        ensures
            r@.len() == 0,
            r.wf(),
    {
        Router { routes: Vec::new() }
    }

    /// How many routes are registered.
    pub fn len(&self) -> (r: usize)
        ensures
            r == self@.len(),
    {
        self.routes.len()
    }

    /// Where the entry for this method and path stands, if there is one.
    fn find(&self, method: Method, path: &Option<String>) -> (r: Option<usize>)
        ensures
            r is Some == has_route(self@, method, path_view(*path)),
            r matches Some(i) ==> i < self@.len() && self@[i as int].method == method
                && self@[i as int].path == path_view(*path),
            r matches Some(i) ==> i == route_index(self@, method, path_view(*path)),
    {
        proof {
            use_type_invariant(self);
        }
        let mut i: usize = 0;
        while i < self.routes.len()
            invariant
                i <= self.routes.len(),
                unique_keys(self@),
                forall|j: int|
                    0 <= j < i ==> !((#[trigger] self@[j]).method == method && self@[j].path
                        == path_view(*path)),
            decreases self.routes.len() - i,
        {
            if self.routes[i].method == method && same_path(&self.routes[i].path, path) {
                assert(self@[i as int].method == method && self@[i as int].path == path_view(*path));
                return Some(i);
            }
            i += 1;
        }
        None
    }

    /// Adds a route at the end of the table, unless the table already has
    /// one for the same method and path.
    pub fn register(&mut self, route: Route) -> (r: Result<(), RouteError>)
        ensures
            final(self).wf(),
            has_route(old(self)@, route.method, route@.path) ==> (r matches Err(e) && e@
                == RouteErrorView::AlreadyRegistered(route.method, route@.path)) && final(self)@
                == old(self)@,
            !has_route(old(self)@, route.method, route@.path) ==> r is Ok && final(self)@ == old(
                self,
            )@.push(route@),
    {
        proof {
            use_type_invariant(&*self);
        }
        if self.find(route.method, &route.path).is_some() {
            return Err(RouteError::AlreadyRegistered(route.method, route.path));
        }
        let ghost added = route@;
        let mut routes: Vec<Route> = Vec::new();
        std::mem::swap(&mut routes, &mut self.routes);
        routes.push(route);
        proof {
            let after = route_views(routes@);
            assert(after =~= old(self)@.push(added));
            assert forall|i: int, j: int| 0 <= i < j < after.len() implies !((
            #[trigger] after[i]).method == (#[trigger] after[j]).method && after[i].path
                == after[j].path) by {
                if j < old(self)@.len() {
                    assert(!(old(self)@[i].method == old(self)@[j].method && old(self)@[i].path
                        == old(self)@[j].path));
                } else {
                    assert(!(old(self)@[i].method == added.method && old(self)@[i].path
                        == added.path));
                }
            }
        }
        self.routes = routes;
        Ok(())
    }

    /// Finds the handler for a request: `resolution` of its method and path.
    pub fn resolve(&self, method: Method, path: &String) -> (r: Result<Handler, RouteError>)
        ensures
            match resolution(self@, method, path@) {
                Some(h) => r == Ok::<Handler, RouteError>(h),
                None => r matches Err(e) && e@ == RouteErrorView::NoRouteFound(method, path@),
            },
    {
        proof {
            use_type_invariant(self);
        }
        let exact = Some(path.clone());
        if let Some(i) = self.find(method, &exact) {
            return Ok(self.routes[i].handler);
        }
        if let Some(i) = self.find(method, &None) {
            return Ok(self.routes[i].handler);
        }
        if let Some(i) = self.find(Method::Any, &None) {
            return Ok(self.routes[i].handler);
        }
        Err(RouteError::NoRouteFound(method, path.clone()))
    }
}

/// The entry for an exact path.
pub open spec fn exact_route(method: Method, path: Seq<char>, handler: Handler) -> RouteView {
    RouteView { method, path: Some(path), handler }
}

/// The entry for a method without a path: a fallback, or under `Any` the
/// catch-all.
pub open spec fn pathless_route(method: Method, handler: Handler) -> RouteView {
    RouteView { method, path: None, handler }
}

/// The table of the task tracker: the three task routes, the demo routes,
/// a fallback for GET and for POST, and the catch-all.
pub open spec fn standard_table() -> Seq<RouteView> {
    seq![
        exact_route(Method::Post, "/add_task"@, Handler::AddTask),
        exact_route(Method::Get, "/get_tasks"@, Handler::GetTasks),
        exact_route(Method::Post, "/toggle_task"@, Handler::ToggleTask),
        exact_route(Method::Get, "/users"@, Handler::GetUsers),
        exact_route(Method::Post, "/users"@, Handler::CreateUser),
        exact_route(Method::Post, "/users-slow"@, Handler::CreateUserSlow),
        exact_route(Method::Get, "/posts"@, Handler::GetPosts),
        exact_route(Method::Post, "/api/data"@, Handler::ProcessData),
        pathless_route(Method::Get, Handler::GetFallback),
        pathless_route(Method::Post, Handler::PostFallback),
        pathless_route(Method::Any, Handler::CatchAll),
    ]
}

/// No two entries of the standard table share a method and a path.
pub proof fn lemma_standard_table_unique()
    ensures
        unique_keys(standard_table()),
{
    reveal_strlit("/add_task");
    reveal_strlit("/get_tasks");
    reveal_strlit("/toggle_task");
    reveal_strlit("/users");
    reveal_strlit("/users-slow");
    reveal_strlit("/posts");
    reveal_strlit("/api/data");
    assert("/add_task"@[2] != "/api/data"@[2]);
    assert("/users"@[1] != "/posts"@[1]);
    let t = standard_table();
    assert(t.len() == 11);
    assert(t[0].path == Some("/add_task"@) && t[0].method == Method::Post);
    assert(t[1].path == Some("/get_tasks"@) && t[1].method == Method::Get);
    assert(t[2].path == Some("/toggle_task"@) && t[2].method == Method::Post);
    assert(t[3].path == Some("/users"@) && t[3].method == Method::Get);
    assert(t[4].path == Some("/users"@) && t[4].method == Method::Post);
    assert(t[5].path == Some("/users-slow"@) && t[5].method == Method::Post);
    assert(t[6].path == Some("/posts"@) && t[6].method == Method::Get);
    assert(t[7].path == Some("/api/data"@) && t[7].method == Method::Post);
    assert(t[8].path.is_none() && t[8].method == Method::Get);
    assert(t[9].path.is_none() && t[9].method == Method::Post);
    assert(t[10].path.is_none() && t[10].method == Method::Any);
    assert("/add_task"@.len() == 9 && "/toggle_task"@.len() == 12 && "/users"@.len() == 6
        && "/users-slow"@.len() == 11 && "/api/data"@.len() == 9 && "/get_tasks"@.len() == 10
        && "/posts"@.len() == 6);
    assert forall|i: int, j: int| 0 <= i < j < t.len() implies !((#[trigger] t[i]).method == (
    #[trigger] t[j]).method && t[i].path == t[j].path) by {
        if i == 0 {
        } else if i == 1 {
        } else if i == 2 {
        } else if i == 3 {
        } else if i == 4 {
        } else if i == 5 {
        } else if i == 6 {
        } else if i == 7 {
        } else if i == 8 {
        } else if i == 9 {
        }
    }
}

/// An exact route made of these parts.
fn exact(method: Method, path: &str, handler: Handler) -> (r: Route)
    ensures
        r@ == exact_route(method, path@, handler),
{
    Route { method, path: Some(String::from_str(path)), handler }
}

impl Router {
    /// The standard table.
    pub fn standard() -> (r: Self)
        ensures
            r@ == standard_table(),
            r.wf(),
    {
        let mut routes: Vec<Route> = Vec::new();
        routes.push(exact(Method::Post, "/add_task", Handler::AddTask));
        routes.push(exact(Method::Get, "/get_tasks", Handler::GetTasks));
        routes.push(exact(Method::Post, "/toggle_task", Handler::ToggleTask));
        routes.push(exact(Method::Get, "/users", Handler::GetUsers));
        routes.push(exact(Method::Post, "/users", Handler::CreateUser));
        routes.push(exact(Method::Post, "/users-slow", Handler::CreateUserSlow));
        routes.push(exact(Method::Get, "/posts", Handler::GetPosts));
        routes.push(exact(Method::Post, "/api/data", Handler::ProcessData));
        routes.push(Route { method: Method::Get, path: None, handler: Handler::GetFallback });
        routes.push(Route { method: Method::Post, path: None, handler: Handler::PostFallback });
        routes.push(Route { method: Method::Any, path: None, handler: Handler::CatchAll });
        proof {
            assert(route_views(routes@) =~= standard_table());
            lemma_standard_table_unique();
        }
        Router { routes }
    }
}

/// An exact route is chosen whatever fallback or catch-all is registered.
pub proof fn lemma_exact_route_wins(routes: Seq<RouteView>, method: Method, path: Seq<char>, i: int)
    requires
        unique_keys(routes),
        0 <= i < routes.len(),
        routes[i].method == method,
        routes[i].path == Some(path),
    ensures
        resolution(routes, method, path) == Some(routes[i].handler),
{
    let k = route_index(routes, method, Some(path));
    if k != i {
        if k < i {
            assert(!(routes[k].method == routes[i].method && routes[k].path == routes[i].path));
        } else {
            assert(!(routes[i].method == routes[k].method && routes[i].path == routes[k].path));
        }
    }
}

/// Without an exact route, the fallback of the request's method is chosen,
/// whether or not a catch-all is registered.
pub proof fn lemma_fallback_before_catch_all(
    routes: Seq<RouteView>,
    method: Method,
    path: Seq<char>,
    i: int,
)
    requires
        unique_keys(routes),
        !has_route(routes, method, Some(path)),
        0 <= i < routes.len(),
        routes[i].method == method,
        routes[i].path == None::<Seq<char>>,
    ensures
        resolution(routes, method, path) == Some(routes[i].handler),
{
    let k = route_index(routes, method, None);
    if k != i {
        if k < i {
            assert(!(routes[k].method == routes[i].method && routes[k].path == routes[i].path));
        } else {
            assert(!(routes[i].method == routes[k].method && routes[i].path == routes[k].path));
        }
    }
}

/// Without an exact route and without a fallback for the request's method,
/// the catch-all is chosen.
pub proof fn lemma_catch_all_is_last(
    routes: Seq<RouteView>,
    method: Method,
    path: Seq<char>,
    i: int,
)
    requires
        unique_keys(routes),
        !has_route(routes, method, Some(path)),
        !has_route(routes, method, None),
        0 <= i < routes.len(),
        routes[i].method == Method::Any,
        routes[i].path == None::<Seq<char>>,
    ensures
        resolution(routes, method, path) == Some(routes[i].handler),
{
    let k = route_index(routes, Method::Any, None);
    if k != i {
        if k < i {
            assert(!(routes[k].method == routes[i].method && routes[k].path == routes[i].path));
        } else {
            assert(!(routes[i].method == routes[k].method && routes[i].path == routes[k].path));
        }
    }
}

/// A request that no entry takes is refused: there is a handler exactly
/// when one of the three kinds of entry exists for it.
pub proof fn lemma_resolution_fails_only_without_entry(
    routes: Seq<RouteView>,
    method: Method,
    path: Seq<char>,
)
    ensures
        resolution(routes, method, path) is None <==> !has_route(routes, method, Some(path))
            && !has_route(routes, method, None) && !has_route(routes, Method::Any, None),
{
}

} // verus!
