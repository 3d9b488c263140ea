//! The user actor: one user's durable record, the operations on it, and the
//! state machine that serves the actor's requests.

use vstd::prelude::*;

pub mod actor;
pub mod record;
pub mod routes;
pub mod trusted;

pub use actor::{
    completed, served, DurableUser, UserActorState, UserReply, UserReplyView, UserStep,
    UserStepView,
};
pub use record::{after_increments, Increment, UserRecord, UserState};
pub use routes::{
    User, UserCommand, UserCommandView, UserRoutes, UserRoutesView, VALUE_KEY, ZERO_KEY_PARAM,
};

verus! {

/// Storage key of the pending zero-key.
pub const ZERO_KEY: &'static str = "ZERO_KEY";

/// Storage key of the score.
pub const SCORE_KEY: &'static str = "SCORE_KEY";

/// Storage key of the personal best.
pub const HIGH_SCORE_KEY: &'static str = "HIGH_SCORE_KEY";

/// Storage key of the password.
pub const PASSWORD_KEY: &'static str = "password";

/// Number of characters of a generated password.
pub const PASSWORD_LEN: usize = 16;

} // verus!
