//! The HTTP surface of the API: the status codes its handlers answer with and
//! the table of routes, with the routes that need a logged-in user.
use vstd::prelude::*;
use vstd::string::StrSliceExecFns;

verus! {

/// A status that a handler of the API answers with.
#[derive(Clone, Copy, Debug, PartialEq, Eq, Structural)]
pub enum Status {
    /// 200 OK.
    Success,
    Created,
    Unauthorized,
    Forbidden,
    InternalServerError,
}

impl Status {
    /// The numeric HTTP code of the status.
    pub open spec fn numeric(self) -> u16 {
        match self {
            Status::Success => 200,
            Status::Created => 201,
            Status::Unauthorized => 401,
            Status::Forbidden => 403,
            Status::InternalServerError => 500,
        }
    }

    pub fn code(&self) -> (c: u16)
        ensures
            c == self.numeric(),
            *self == Status::Success ==> c == 200,
            *self == Status::Created ==> c == 201,
            *self == Status::Unauthorized ==> c == 401,
            *self == Status::Forbidden ==> c == 403,
            *self == Status::InternalServerError ==> c == 500,
    {
        match self {
            Status::Success => 200,
            Status::Created => 201,
            Status::Unauthorized => 401,
            Status::Forbidden => 403,
            Status::InternalServerError => 500,
        }
    }
}

/// The request methods the API routes on.
#[derive(Clone, Copy, Debug, PartialEq, Eq, Structural)]
pub enum Method {
    Get,
    Post,
}

/// The endpoints of the API.
#[derive(Clone, Copy, Debug, PartialEq, Eq, Structural)]
pub enum Endpoint {
    /// `GET /api/user`: the logged-in user's game summary.
    GameSummary,
    /// `POST /api/user/game_events`: record a completed game.
    GameEvent,
    /// `POST /api/user`: create a user.
    Signup,
    /// `POST /api/sessions`: log in.
    Login,
}

pub open spec fn user_path() -> Seq<char> {
    "/api/user"@
}

pub open spec fn game_events_path() -> Seq<char> {
    "/api/user/game_events"@
}

pub open spec fn sessions_path() -> Seq<char> {
    "/api/sessions"@
}

impl Endpoint {
    pub open spec fn spec_method(self) -> Method {
        match self {
            Endpoint::GameSummary => Method::Get,
            _ => Method::Post,
        }
    }

    pub open spec fn spec_path(self) -> Seq<char> {
        match self {
            Endpoint::GameSummary => user_path(),
            Endpoint::GameEvent => game_events_path(),
            Endpoint::Signup => user_path(),
            Endpoint::Login => sessions_path(),
        }
    }

    /// The endpoints that answer only to a logged-in user: the game summary and
    /// the game events; sign-up and log-in are open to anyone.
    pub open spec fn spec_requires_login(self) -> bool {
        match self {
            Endpoint::GameSummary | Endpoint::GameEvent => true,
            _ => false,
        }
    }

    /// Every endpoint, in the order the router is built.
    pub open spec fn spec_all() -> Seq<Endpoint> {
        seq![Endpoint::GameSummary, Endpoint::GameEvent, Endpoint::Signup, Endpoint::Login]
    }

    pub fn method(&self) -> (m: Method)
        ensures
            m == self.spec_method(),
            *self == Endpoint::GameSummary ==> m == Method::Get,
            *self != Endpoint::GameSummary ==> m == Method::Post,
    {
        match self {
            Endpoint::GameSummary => Method::Get,
            _ => Method::Post,
        }
    }

    pub fn path(&self) -> (p: &'static str)
        ensures
            p@ == self.spec_path(),
            *self == Endpoint::GameSummary ==> p@ == "/api/user"@,
            *self == Endpoint::GameEvent ==> p@ == "/api/user/game_events"@,
            *self == Endpoint::Signup ==> p@ == "/api/user"@,
            *self == Endpoint::Login ==> p@ == "/api/sessions"@,
    {
        match self {
            Endpoint::GameSummary => "/api/user",
            Endpoint::GameEvent => "/api/user/game_events",
            Endpoint::Signup => "/api/user",
            Endpoint::Login => "/api/sessions",
        }
    }

    pub fn requires_login(&self) -> (b: bool)
        ensures
            b == self.spec_requires_login(),
            b <==> (*self == Endpoint::GameSummary || *self == Endpoint::GameEvent),
    {
        match self {
            Endpoint::GameSummary | Endpoint::GameEvent => true,
            _ => false,
        }
    }

    pub fn all() -> (v: Vec<Endpoint>)
        ensures
            v@ == Self::spec_all(),
    {
        let v = vec![Endpoint::GameSummary, Endpoint::GameEvent, Endpoint::Signup, Endpoint::Login];
        assert(v@ =~= Self::spec_all());
        v
    }
}

/// Whether two texts hold the same characters.
pub fn same_text(a: &str, b: &str) -> (r: bool)
    ensures
        r == (a@ == b@),
{
    let n = a.unicode_len();
    if n != b.unicode_len() {
        return false;
    }
    let mut i: usize = 0;
    while i < n
        invariant
            n == a@.len(),
            n == b@.len(),
            i <= n,
            forall|j: int| 0 <= j < i ==> a@[j] == b@[j],
        decreases n - i,
    {
        if a.get_char(i) != b.get_char(i) {
            return false;
        }
        i = i + 1;
    }
    assert(a@ =~= b@);
    true
}

/// The three paths of the API differ from one another.
proof fn paths_are_distinct()
    ensures
        user_path() != game_events_path(),
        user_path() != sessions_path(),
        game_events_path() != sessions_path(),
{
    reveal_strlit("/api/user");
    reveal_strlit("/api/user/game_events");
    reveal_strlit("/api/sessions");
    assert(user_path().len() != game_events_path().len());
    assert(user_path().len() != sessions_path().len());
    assert(game_events_path().len() != sessions_path().len());
}

/// The route table is unambiguous: no two endpoints share both their method
/// and their path.
pub proof fn routes_are_unambiguous(a: Endpoint, b: Endpoint)
    requires
        a.spec_method() == b.spec_method(),
        a.spec_path() == b.spec_path(),
    ensures
        a == b,
{
    paths_are_distinct();
}

/// The route table: the endpoint that a request with this method and path
/// reaches, if any.
pub open spec fn route_of(method: Method, path: Seq<char>) -> Option<Endpoint> {
    if method == Method::Get && path == user_path() {
        Some(Endpoint::GameSummary)
    } else if method == Method::Post && path == game_events_path() {
        Some(Endpoint::GameEvent)
    } else if method == Method::Post && path == user_path() {
        Some(Endpoint::Signup)
    } else if method == Method::Post && path == sessions_path() {
        Some(Endpoint::Login)
    } else {
        None
    }
}

/// Every endpoint is reached by its own method and path, and by no other
/// endpoint's.
pub proof fn every_endpoint_is_routed(e: Endpoint)
    ensures
        route_of(e.spec_method(), e.spec_path()) == Some(e),
{
    paths_are_distinct();
}

/// Finds the endpoint for a method and a path.
pub fn resolve(method: Method, path: &str) -> (r: Option<Endpoint>)
    ensures
        r == route_of(method, path@),
        r matches Some(e) ==> e.spec_method() == method && e.spec_path() == path@,
        r is None ==> forall|e: Endpoint| !(e.spec_method() == method && e.spec_path() == path@),
{
    let all = Endpoint::all();
    let mut i: usize = 0;
    while i < all.len()
        invariant
            all@ == Endpoint::spec_all(),
            i <= all.len(),
            forall|j: int|
                0 <= j < i ==> !(all@[j].spec_method() == method && all@[j].spec_path() == path@),
        decreases all.len() - i,
    {
        let e = all[i];
        if e.method() == method && same_text(e.path(), path) {
            proof {
                every_endpoint_is_routed(e);
            }
            return Some(e);
        }
        i = i + 1;
    }
    proof {
        assert(!(all@[0].spec_method() == method && all@[0].spec_path() == path@));
        assert(!(all@[1].spec_method() == method && all@[1].spec_path() == path@));
        assert(!(all@[2].spec_method() == method && all@[2].spec_path() == path@));
        assert(!(all@[3].spec_method() == method && all@[3].spec_path() == path@));
    }
    None
}

/// The status codes are the HTTP codes of their names.
pub proof fn status_codes_are_http_codes()
    ensures
        Status::Success.numeric() == 200,
        Status::Created.numeric() == 201,
        Status::Unauthorized.numeric() == 401,
        Status::Forbidden.numeric() == 403,
        Status::InternalServerError.numeric() == 500,
{
}

/// The route table of the API: the game summary is `GET /api/user`, game
/// events are `POST /api/user/game_events`, sign-up is `POST /api/user` and
/// log-in is `POST /api/sessions`; only the first two need a logged-in user.
pub proof fn route_table()
    ensures
        route_of(Method::Get, "/api/user"@) == Some(Endpoint::GameSummary),
        route_of(Method::Post, "/api/user/game_events"@) == Some(Endpoint::GameEvent),
        route_of(Method::Post, "/api/user"@) == Some(Endpoint::Signup),
        route_of(Method::Post, "/api/sessions"@) == Some(Endpoint::Login),
        Endpoint::GameSummary.spec_requires_login(),
        Endpoint::GameEvent.spec_requires_login(),
        !Endpoint::Signup.spec_requires_login(),
        !Endpoint::Login.spec_requires_login(),
{
    paths_are_distinct();
}

/// A request reaches an endpoint only by that endpoint's own method and path.
pub proof fn routing_is_sound(method: Method, path: Seq<char>)
    ensures
        route_of(method, path) matches Some(e) ==> e.spec_method() == method && e.spec_path() == path,
{
}

} // verus!
