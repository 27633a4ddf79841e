use vstd::prelude::*;

verus! {

/// The TCP port the service listens on, on every interface.
pub const PORT: u16 = 8090;

/// The HTTP methods the service answers.
#[derive(Clone, Copy, Debug, PartialEq, Eq, Structural)]
pub enum Method {
    Get,
    Post,
}

/// The routes of the service, one for each handler.
#[derive(Clone, Copy, Debug, PartialEq, Eq, Structural)]
pub enum Route {
    Health,
    Simple,
    Complex,
}

/// Every route, in the order in which the service registers them.
pub open spec fn all_routes() -> Seq<Route> {
    seq![Route::Health, Route::Simple, Route::Complex]
}

impl Route {
    pub open spec fn spec_path(self) -> Seq<char> {
        match self {
            Route::Health => "/health"@,
            Route::Simple => "/simple"@,
            Route::Complex => "/complex"@,
        }
    }

    pub open spec fn spec_method(self) -> Method {
        match self {
            Route::Complex => Method::Post,
            _ => Method::Get,
        }
    }

    /// The path the route is served under.
    pub fn path(&self) -> (p: &'static str)
        ensures
            p@ == self.spec_path(),
    {
        match self {
            Route::Health => "/health",
            Route::Simple => "/simple",
            Route::Complex => "/complex",
        }
    }

    /// The method the route answers: GET for the two fixed replies, POST for items.
    pub fn method(&self) -> (m: Method)
        ensures
            m == self.spec_method(),
    {
        match self {
            Route::Complex => Method::Post,
            _ => Method::Get,
        }
    }
}

/// The route table of the service.
pub fn routes() -> (r: Vec<Route>)
    ensures
        r@ == all_routes(),
{
    let r = vec![Route::Health, Route::Simple, Route::Complex];
    assert(r@ =~= all_routes());
    r
}

}
