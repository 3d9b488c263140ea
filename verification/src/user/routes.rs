//! Routes of a user actor, the commands that its requests hold, and the
//! requests that a client sends.

use crate::codec::{form_pairs, query_pairs};
use crate::text::{lemma_leading_run_is, parse_u32, parse_u32_spec, trim_start_spec};
use crate::{
    route_from_req, ActorRequest, Method, ProtocolError, ProtocolErrorView, ScoreKey,
    ScoreKeyView,
};
use vstd::prelude::*;
use vstd::string::StringExecFns;

verus! {

/// Query name under which an increment carries its number of points.
pub const VALUE_KEY: &'static str = "value";

/// Query name under which an increment carries the zero-key that it redeems.
pub const ZERO_KEY_PARAM: &'static str = "zero_key";

/// Routes of a user actor.
#[derive(Clone, Debug, PartialEq, Eq)]
pub enum UserRoutes {
    Init,
    GetAndZero,
    Add,
    Password,
    Unknown(String),
}

/// Mathematical value of a [`UserRoutes`].
pub enum UserRoutesView {
    Init,
    GetAndZero,
    Add,
    Password,
    Unknown(Seq<char>),
}

impl View for UserRoutes {
    type V = UserRoutesView;

    open spec fn view(&self) -> UserRoutesView {
        match self {
            UserRoutes::Init => UserRoutesView::Init,
            UserRoutes::GetAndZero => UserRoutesView::GetAndZero,
            UserRoutes::Add => UserRoutesView::Add,
            UserRoutes::Password => UserRoutesView::Password,
            UserRoutes::Unknown(name) => UserRoutesView::Unknown(name@),
        }
    }
}

impl UserRoutesView {
    /// The route that `name` addresses; a name that is no route's is kept as it is.
    pub open spec fn of(name: Seq<char>) -> UserRoutesView {
        if name == "init"@ {
            UserRoutesView::Init
        } else if name == "get_and_zero"@ {
            UserRoutesView::GetAndZero
        } else if name == "add"@ {
            UserRoutesView::Add
        } else if name == "password"@ {
            UserRoutesView::Password
        } else {
            UserRoutesView::Unknown(name)
        }
    }

    /// The name under which the route is addressed.
    pub open spec fn name(self) -> Seq<char> {
        match self {
            UserRoutesView::Init => "init"@,
            UserRoutesView::GetAndZero => "get_and_zero"@,
            UserRoutesView::Add => "add"@,
            UserRoutesView::Password => "password"@,
            UserRoutesView::Unknown(_) => "unknown"@,
        }
    }

    /// The verb with which the route is called.
    pub open spec fn method(self) -> Method {
        match self {
            UserRoutesView::Init => Method::Put,
            UserRoutesView::GetAndZero => Method::Patch,
            UserRoutesView::Add => Method::Patch,
            UserRoutesView::Password => Method::Get,
            UserRoutesView::Unknown(_) => Method::Get,
        }
    }
}

impl UserRoutes {
    /// Reads a route from its name.
    pub fn parse(name: &str) -> (route: UserRoutes)
        ensures
            route@ == UserRoutesView::of(name@),
    {
        if name.eq("init") {
            UserRoutes::Init
        } else if name.eq("get_and_zero") {
            UserRoutes::GetAndZero
        } else if name.eq("add") {
            UserRoutes::Add
        } else if name.eq("password") {
            UserRoutes::Password
        } else {
            UserRoutes::Unknown(name.to_owned())
        }
    }

    /// The name under which the route is addressed.
    pub fn as_str(&self) -> (name: &'static str)
        ensures
            name@ == self@.name(),
    {
        match self {
            UserRoutes::Init => "init",
            UserRoutes::GetAndZero => "get_and_zero",
            UserRoutes::Add => "add",
            UserRoutes::Password => "password",
            UserRoutes::Unknown(_) => "unknown",
        }
    }

    /// The verb with which the route is called.
    pub fn method(&self) -> (verb: Method)
        ensures
            verb == self@.method(),
    {
        match self {
            UserRoutes::Init => Method::Put,
            UserRoutes::GetAndZero => Method::Patch,
            UserRoutes::Add => Method::Patch,
            UserRoutes::Password => Method::Get,
            UserRoutes::Unknown(_) => Method::Get,
        }
    }
}

impl std::ops::Deref for UserRoutes {
    type Target = str;

    fn deref(&self) -> (name: &str)
        ensures
            name@ == self@.name(),
    {
        self.as_str()
    }
}

/// Every route with a name of its own is read back from that name.
pub proof fn lemma_user_route_names(route: UserRoutesView)
    requires
        !(route is Unknown),
    ensures
        UserRoutesView::of(route.name()) == route,
{
    reveal_strlit("init");
    reveal_strlit("get_and_zero");
    reveal_strlit("add");
    reveal_strlit("password");
    assert("init"@.len() == 4);
    assert("get_and_zero"@.len() == 12);
    assert("add"@.len() == 3);
    assert("password"@.len() == 8);
}

/// What a request asks of a user actor.
#[derive(Clone, Debug, PartialEq, Eq)]
pub enum UserCommand {
    /// Create the record.
    Init,
    /// Add points, or redeem a zero-key for one point.
    Add(ScoreKey),
    /// Hand out the score and reset it.
    GetAndZero,
    /// Read the password.
    Password,
    /// Nothing that the actor can do.
    Refuse(ProtocolError),
}

/// Mathematical value of a [`UserCommand`].
pub enum UserCommandView {
    Init,
    Add(ScoreKeyView),
    GetAndZero,
    Password,
    Refuse(ProtocolErrorView),
}

impl View for UserCommand {
    type V = UserCommandView;

    open spec fn view(&self) -> UserCommandView {
        match self {
            UserCommand::Init => UserCommandView::Init,
            UserCommand::Add(key) => UserCommandView::Add(key@),
            UserCommand::GetAndZero => UserCommandView::GetAndZero,
            UserCommand::Password => UserCommandView::Password,
            UserCommand::Refuse(error) => UserCommandView::Refuse(error@),
        }
    }
}

impl UserCommandView {
    /// What the query pairs of an increment ask for. The first pair named
    /// `value` or `zero_key` decides: a `value` has to be a number, a
    /// `zero_key` is taken as it is.
    pub open spec fn add(pairs: Seq<(Seq<char>, Seq<char>)>) -> UserCommandView
        decreases pairs.len(),
    {
        if pairs.len() == 0 {
            UserCommandView::Refuse(ProtocolErrorView::NoValueSupplied)
        } else if pairs[0].0 == VALUE_KEY@ {
            match parse_u32_spec(pairs[0].1) {
                Some(points) => UserCommandView::Add(ScoreKeyView::Score(points as nat)),
                None => UserCommandView::Refuse(ProtocolErrorView::NoValueSupplied),
            }
        } else if pairs[0].0 == ZERO_KEY_PARAM@ {
            UserCommandView::Add(ScoreKeyView::ZeroKey(pairs[0].1))
        } else {
            UserCommandView::add(pairs.drop_first())
        }
    }

    /// The command that a request for `path` with verb `method` and the
    /// query pairs `pairs` holds. A record is created by `PUT` only, and
    /// points are added and handed out by `PATCH` only; the password is read
    /// with any verb.
    pub open spec fn of(
        path: Seq<char>,
        method: Method,
        pairs: Seq<(Seq<char>, Seq<char>)>,
    ) -> UserCommandView {
        match UserRoutesView::of(trim_start_spec(path, '/')) {
            UserRoutesView::Init => if method == Method::Put {
                UserCommandView::Init
            } else {
                UserCommandView::Refuse(ProtocolErrorView::InvalidMethod)
            },
            UserRoutesView::Add => if method == Method::Patch {
                UserCommandView::add(pairs)
            } else {
                UserCommandView::Refuse(ProtocolErrorView::InvalidMethod)
            },
            UserRoutesView::GetAndZero => if method == Method::Patch {
                UserCommandView::GetAndZero
            } else {
                UserCommandView::Refuse(ProtocolErrorView::InvalidMethod)
            },
            UserRoutesView::Password => UserCommandView::Password,
            UserRoutesView::Unknown(name) => UserCommandView::Refuse(
                ProtocolErrorView::UnknownRoute(name),
            ),
        }
    }
}

impl UserCommand {
    /// Reads what the query pairs of an increment ask for.
    pub fn add_from_pairs(pairs: &Vec<(String, String)>) -> (command: UserCommand)
        ensures
            command@ == UserCommandView::add(pairs.deep_view()),
    {
        let mut i: usize = 0;
        assert(pairs.deep_view().skip(0) =~= pairs.deep_view());
        while i < pairs.len()
            invariant
                i <= pairs.len(),
                UserCommandView::add(pairs.deep_view()) == UserCommandView::add(
                    pairs.deep_view().skip(i as int),
                ),
            decreases pairs.len() - i,
        {
            let ghost rest = pairs.deep_view().skip(i as int);
            assert(rest[0] == pairs@[i as int].deep_view());
            assert(rest.drop_first() =~= pairs.deep_view().skip(i + 1));
            let name = pairs[i].0.as_str();
            if name.eq(VALUE_KEY) {
                return match parse_u32(pairs[i].1.as_str()) {
                    Some(points) => UserCommand::Add(ScoreKey::Score(points)),
                    None => UserCommand::Refuse(ProtocolError::NoValueSupplied),
                };
            }
            if name.eq(ZERO_KEY_PARAM) {
                return UserCommand::Add(ScoreKey::ZeroKey(pairs[i].1.clone()));
            }
            i = i + 1;
        }
        UserCommand::Refuse(ProtocolError::NoValueSupplied)
    }

    /// Reads the command from a request's path, verb and query pairs.
    pub fn from_parts(path: &str, method: Method, pairs: &Vec<(String, String)>) -> (command:
        UserCommand)
        ensures
            command@ == UserCommandView::of(path@, method, pairs.deep_view()),
    {
        match UserRoutes::parse(route_from_req(path)) {
            UserRoutes::Init => if method == Method::Put {
                UserCommand::Init
            } else {
                UserCommand::Refuse(ProtocolError::InvalidMethod)
            },
            UserRoutes::Add => if method == Method::Patch {
                UserCommand::add_from_pairs(pairs)
            } else {
                UserCommand::Refuse(ProtocolError::InvalidMethod)
            },
            UserRoutes::GetAndZero => if method == Method::Patch {
                UserCommand::GetAndZero
            } else {
                UserCommand::Refuse(ProtocolError::InvalidMethod)
            },
            UserRoutes::Password => UserCommand::Password,
            UserRoutes::Unknown(name) => UserCommand::Refuse(ProtocolError::UnknownRoute(name)),
        }
    }

    /// Reads the command from a request.
    pub fn parse(request: &ActorRequest) -> (command: UserCommand)
        ensures
            command@ == UserCommandView::of(
                request@.path,
                request@.method,
                form_pairs(request@.query),
            ),
    {
        let pairs = query_pairs(request.query.as_str());
        UserCommand::from_parts(request.path.as_str(), request.method, &pairs)
    }
}

/// The client side of a user actor: the requests that reach it.
pub struct User {}

impl User {
    /// The request that creates the record.
    pub fn init() -> (request: ActorRequest)
        ensures
            request@.path == UserRoutesView::Init.name(),
            request@.method == UserRoutesView::Init.method(),
            request@.query == Seq::<char>::empty(),
    {
        ActorRequest {
            path: String::from_str(UserRoutes::Init.as_str()),
            method: UserRoutes::Init.method(),
            query: String::new(),
        }
    }

    /// The request that hands out the score and resets it.
    pub fn get_and_zero() -> (request: ActorRequest)
        ensures
            request@.path == UserRoutesView::GetAndZero.name(),
            request@.method == UserRoutesView::GetAndZero.method(),
            request@.query == Seq::<char>::empty(),
    {
        ActorRequest {
            path: String::from_str(UserRoutes::GetAndZero.as_str()),
            method: UserRoutes::GetAndZero.method(),
            query: String::new(),
        }
    }

    /// The request that reads the password.
    pub fn get_password() -> (request: ActorRequest)
        ensures
            request@.path == UserRoutesView::Password.name(),
            request@.method == UserRoutesView::Password.method(),
            request@.query == Seq::<char>::empty(),
    {
        ActorRequest {
            path: String::from_str(UserRoutes::Password.as_str()),
            method: UserRoutes::Password.method(),
            query: String::new(),
        }
    }
}

/// The actor reads the requests of its client as the client means them:
/// from the name of a route and the verb that the client uses for it, it
/// reads the command to create the record, to hand out the score, or to
/// read the password, whatever the query holds.
pub proof fn lemma_client_requests_read_back(pairs: Seq<(Seq<char>, Seq<char>)>)
    ensures
        UserCommandView::of(UserRoutesView::Init.name(), UserRoutesView::Init.method(), pairs)
            == UserCommandView::Init,
        UserCommandView::of(
            UserRoutesView::GetAndZero.name(),
            UserRoutesView::GetAndZero.method(),
            pairs,
        ) == UserCommandView::GetAndZero,
        UserCommandView::of(
            UserRoutesView::Password.name(),
            UserRoutesView::Password.method(),
            pairs,
        ) == UserCommandView::Password,
{
    reveal_strlit("init");
    reveal_strlit("get_and_zero");
    reveal_strlit("add");
    reveal_strlit("password");
    lemma_user_route_names(UserRoutesView::Init);
    lemma_user_route_names(UserRoutesView::GetAndZero);
    lemma_user_route_names(UserRoutesView::Password);
    lemma_leading_run_is("init"@, '/', 0);
    lemma_leading_run_is("get_and_zero"@, '/', 0);
    lemma_leading_run_is("password"@, '/', 0);
    assert(trim_start_spec("init"@, '/') =~= "init"@);
    assert(trim_start_spec("get_and_zero"@, '/') =~= "get_and_zero"@);
    assert(trim_start_spec("password"@, '/') =~= "password"@);
}

} // verus!
