//! The actor that holds one mod's record: its routes, and what a request
//! asks of it.

use crate::text::trim_start_spec;
use crate::{route_from_req, Method, ProtocolError, ProtocolErrorView, ScoreKey, ScoreKeyView};
use vstd::prelude::*;

verus! {

/// What a contribution to a mod's record is made with.
#[derive(Clone, Debug, PartialEq, Eq)]
pub enum Contribution {
    /// The largest contribution that the network grants.
    Max,
    /// What one user drained from their score.
    User { user_id: String, value: ScoreKey },
}

/// Mathematical value of a [`Contribution`].
pub enum ContributionView {
    Max,
    User { user_id: Seq<char>, value: ScoreKeyView },
}

impl View for Contribution {
    type V = ContributionView;

    open spec fn view(&self) -> ContributionView {
        match self {
            Contribution::Max => ContributionView::Max,
            Contribution::User { user_id, value } => ContributionView::User {
                user_id: user_id@,
                value: value@,
            },
        }
    }
}

/// Routes of a mod actor.
#[derive(Clone, Debug, PartialEq, Eq)]
pub enum ModRoutes {
    Init,
    Verified,
    Add,
    Unknown(String),
}

/// Mathematical value of a [`ModRoutes`].
pub enum ModRoutesView {
    Init,
    Verified,
    Add,
    Unknown(Seq<char>),
}

impl View for ModRoutes {
    type V = ModRoutesView;

    open spec fn view(&self) -> ModRoutesView {
        match self {
            ModRoutes::Init => ModRoutesView::Init,
            ModRoutes::Verified => ModRoutesView::Verified,
            ModRoutes::Add => ModRoutesView::Add,
            ModRoutes::Unknown(name) => ModRoutesView::Unknown(name@),
        }
    }
}

impl ModRoutesView {
    /// The route that `name` addresses; a name that is no route's is kept as it is.
    pub open spec fn of(name: Seq<char>) -> ModRoutesView {
        if name == "init"@ {
            ModRoutesView::Init
        } else if name == "verified"@ {
            ModRoutesView::Verified
        } else if name == "add"@ {
            ModRoutesView::Add
        } else {
            ModRoutesView::Unknown(name)
        }
    }

    /// The name under which the route is addressed.
    pub open spec fn name(self) -> Seq<char> {
        match self {
            ModRoutesView::Init => "init"@,
            ModRoutesView::Verified => "verified"@,
            ModRoutesView::Add => "add"@,
            ModRoutesView::Unknown(_) => "unknown"@,
        }
    }

    /// The verb with which the route is called.
    pub open spec fn method(self) -> Method {
        match self {
            ModRoutesView::Init => Method::Put,
            ModRoutesView::Verified => Method::Get,
            ModRoutesView::Add => Method::Patch,
            ModRoutesView::Unknown(_) => Method::Get,
        }
    }
}

impl ModRoutes {
    /// Reads a route from its name.
    pub fn parse(name: &str) -> (route: ModRoutes)
        ensures
            route@ == ModRoutesView::of(name@),
    {
        if name.eq("init") {
            ModRoutes::Init
        } else if name.eq("verified") {
            ModRoutes::Verified
        } else if name.eq("add") {
            ModRoutes::Add
        } else {
            ModRoutes::Unknown(name.to_owned())
        }
    }

    /// The name under which the route is addressed.
    pub fn as_str(&self) -> (name: &'static str)
        ensures
            name@ == self@.name(),
    {
        match self {
            ModRoutes::Init => "init",
            ModRoutes::Verified => "verified",
            ModRoutes::Add => "add",
            ModRoutes::Unknown(_) => "unknown",
        }
    }

    /// The verb with which the route is called.
    pub fn method(&self) -> (verb: Method)
        ensures
            verb == self@.method(),
    {
        match self {
            ModRoutes::Init => Method::Put,
            ModRoutes::Verified => Method::Get,
            ModRoutes::Add => Method::Patch,
            ModRoutes::Unknown(_) => Method::Get,
        }
    }
}

/// What a request asks of a mod actor.
#[derive(Clone, Debug, PartialEq, Eq)]
pub enum ModCommand {
    /// Create the record from the request's body.
    Init,
    /// Tell whether the record is verified.
    Verified,
    /// Add the contribution in the request's body.
    Add,
    /// Nothing that the actor can do.
    Refuse(ProtocolError),
}

/// Mathematical value of a [`ModCommand`].
pub enum ModCommandView {
    Init,
    Verified,
    Add,
    Refuse(ProtocolErrorView),
}

impl View for ModCommand {
    type V = ModCommandView;

    open spec fn view(&self) -> ModCommandView {
        match self {
            ModCommand::Init => ModCommandView::Init,
            ModCommand::Verified => ModCommandView::Verified,
            ModCommand::Add => ModCommandView::Add,
            ModCommand::Refuse(error) => ModCommandView::Refuse(error@),
        }
    }
}

impl ModCommandView {
    /// The command that a request for `path` with verb `method` holds: a
    /// record is created by `PUT` and contributed to by `PATCH`.
    pub open spec fn of(path: Seq<char>, method: Method) -> ModCommandView {
        match ModRoutesView::of(trim_start_spec(path, '/')) {
            ModRoutesView::Init => if method == Method::Put {
                ModCommandView::Init
            } else {
                ModCommandView::Refuse(ProtocolErrorView::InvalidMethod)
            },
            ModRoutesView::Verified => ModCommandView::Verified,
            ModRoutesView::Add => if method == Method::Patch {
                ModCommandView::Add
            } else {
                ModCommandView::Refuse(ProtocolErrorView::InvalidMethod)
            },
            ModRoutesView::Unknown(name) => ModCommandView::Refuse(
                ProtocolErrorView::UnknownRoute(name),
            ),
        }
    }
}

impl ModCommand {
    /// Reads the command from a request's path and verb.
    pub fn from_parts(path: &str, method: Method) -> (command: ModCommand)
        ensures
            command@ == ModCommandView::of(path@, method),
    {
        match ModRoutes::parse(route_from_req(path)) {
            ModRoutes::Init => if method == Method::Put {
                ModCommand::Init
            } else {
                ModCommand::Refuse(ProtocolError::InvalidMethod)
            },
            ModRoutes::Verified => ModCommand::Verified,
            ModRoutes::Add => if method == Method::Patch {
                ModCommand::Add
            } else {
                ModCommand::Refuse(ProtocolError::InvalidMethod)
            },
            ModRoutes::Unknown(name) => ModCommand::Refuse(ProtocolError::UnknownRoute(name)),
        }
    }
}

} // verus!
