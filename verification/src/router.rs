//! Query options of a request and the decision of which handler serves it.

use vstd::prelude::*;

verus! {

/// Options read from a request's query string.
pub struct QueryOptions {
    pub pretty: Option<bool>,
    pub include_sizes: Option<bool>,
}

impl Default for QueryOptions {
    fn default() -> (r: Self)
        ensures
            r.pretty is None,
            r.include_sizes is None,
    {
        QueryOptions { pretty: None, include_sizes: None }
    }
}

/// The value an optional flag takes when it is absent: off.
pub open spec fn flag_or_off(flag: Option<bool>) -> bool {
    match flag {
        Some(b) => b,
        None => false,
    }
}

impl QueryOptions {
    /// Whether index sizes were asked for; off unless given.
    pub fn include_sizes(&self) -> (r: bool)
        ensures
            r == flag_or_off(self.include_sizes),
    {
        self.include_sizes.unwrap_or(false)
    }

    /// Whether pretty printing was asked for; off unless given.
    pub fn pretty(&self) -> (r: bool)
        ensures
            r == flag_or_off(self.pretty),
    {
        self.pretty.unwrap_or(false)
    }
}

/// The request methods that routing tells apart.
#[derive(Clone, Copy, Debug, PartialEq, Eq)]
pub enum RequestMethod {
    Get,
    Put,
    Post,
    Delete,
    Other,
}

/// The handler that serves a request.
#[derive(Debug, PartialEq, Eq)]
pub enum Route {
    /// Create the index of the given name.
    CreateIndex(String),
    /// The server's name and version.
    Root,
    /// Nothing serves the request.
    NotFound,
}

/// The route view: index names taken as character sequences.
pub enum RouteView {
    CreateIndex(Seq<char>),
    Root,
    NotFound,
}

impl View for Route {
    type V = RouteView;

    open spec fn view(&self) -> RouteView {
        match self {
            Route::CreateIndex(name) => RouteView::CreateIndex(name@),
            Route::Root => RouteView::Root,
            Route::NotFound => RouteView::NotFound,
        }
    }
}

/// The action word of an index-creation request.
pub open spec fn create_action() -> Seq<char> {
    "_create"@
}

/// Which handler serves a request of the given method whose path named the
/// index `idx` and the action `action`.
pub open spec fn route_of(
    method: RequestMethod,
    idx: Option<Seq<char>>,
    action: Option<Seq<char>>,
) -> RouteView {
    if method == RequestMethod::Put && idx is Some && action is Some {
        if action->0 == create_action() {
            RouteView::CreateIndex(idx->0)
        } else {
            RouteView::NotFound
        }
    } else if method == RequestMethod::Get {
        RouteView::Root
    } else {
        RouteView::NotFound
    }
}

/// Chooses the handler of a request from its method and the index and action
/// named in its path: `PUT /{index}/_create` creates the index, any other
/// `PUT` with both parts is not found, any `GET` is answered with the server's
/// name and version, and everything else is not found.
pub fn route_request(method: RequestMethod, idx: Option<String>, action: Option<String>) -> (r:
    Route)
    ensures
        r@ == route_of(
            method,
            match idx {
                Some(s) => Some(s@),
                None => None,
            },
            match action {
                Some(s) => Some(s@),
                None => None,
            },
        ),
        method == RequestMethod::Get ==> r@ == RouteView::Root,
        method == RequestMethod::Put && idx is Some && action is Some && action->0@ == "_create"@
            ==> r@ == RouteView::CreateIndex(idx->0@),
        method == RequestMethod::Put && idx is Some && action is Some && action->0@ != "_create"@
            ==> r@ == RouteView::NotFound,
        method == RequestMethod::Put && (idx is None || action is None) ==> r@ == RouteView::NotFound,
        method != RequestMethod::Get && method != RequestMethod::Put ==> r@ == RouteView::NotFound,
{
    match (method, idx, action) {
        (RequestMethod::Put, Some(idx), Some(action)) => {
            let create = String::from_str("_create");
            if action == create {
                Route::CreateIndex(idx)
            } else {
                Route::NotFound
            }
        },
        (RequestMethod::Get, _, _) => Route::Root,
        _ => Route::NotFound,
    }
}

/// Every `GET` is answered with the server's name and version, whatever index
/// and action its path names.
pub proof fn law_get_routes_to_root(idx: Option<Seq<char>>, action: Option<Seq<char>>)
    ensures
        route_of(RequestMethod::Get, idx, action) == RouteView::Root,
{
}

/// `PUT /{index}/_create` creates that index.
pub proof fn law_put_create_creates(idx: Seq<char>)
    ensures
        route_of(RequestMethod::Put, Some(idx), Some("_create"@)) == RouteView::CreateIndex(idx),
{
}

} // verus!
