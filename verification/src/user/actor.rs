//! The user actor as a state machine: a request goes in, the next state
//! comes out, with the reply or the call that the host has to make first.

use crate::codec::form_pairs;
use crate::entropy::{all_alphanumeric, is_hyphenated_uuid, random_alphanumeric, random_uuid_text};
use crate::user::record::{Increment, UserRecord, UserState};
use crate::user::routes::{UserCommand, UserCommandView};
use crate::user::trusted::{
    loaded, trusted_apply, DurableTrusted, TrustedCommand, TrustedCommandView, TrustedReply,
};
use crate::user::PASSWORD_LEN;
use crate::{
    ActorRequest, BackendError, ProtocolError, ProtocolErrorView, ScoreKey, ScoreKeyView,
};
use vstd::prelude::*;
use vstd::string::StringExecFns;

verus! {

/// What a user actor answers.
#[derive(Clone, Debug, PartialEq, Eq)]
pub enum UserReply {
    /// The record was created; status 200 with the identifier and the password.
    Created { id: String, pass: String },
    /// Done; status 200 and an empty body.
    Empty,
    /// What a drain handed out; status 200.
    Drained(ScoreKey),
    /// The stored password; status 200.
    Password(String),
    /// The request was refused.
    Rejected(ProtocolError),
    /// The request failed on the actor's side.
    Failed(BackendError),
}

/// Mathematical value of a [`UserReply`].
pub enum UserReplyView {
    Created { id: Seq<char>, pass: Seq<char> },
    Empty,
    Drained(ScoreKeyView),
    Password(Seq<char>),
    Rejected(ProtocolErrorView),
    Failed(BackendError),
}

impl View for UserReply {
    type V = UserReplyView;

    open spec fn view(&self) -> UserReplyView {
        match self {
            UserReply::Created { id, pass } => UserReplyView::Created { id: id@, pass: pass@ },
            UserReply::Empty => UserReplyView::Empty,
            UserReply::Drained(key) => UserReplyView::Drained(key@),
            UserReply::Password(password) => UserReplyView::Password(password@),
            UserReply::Rejected(error) => UserReplyView::Rejected(error@),
            UserReply::Failed(error) => UserReplyView::Failed(*error),
        }
    }
}

impl UserReplyView {
    /// HTTP status of the reply.
    pub open spec fn status(self) -> u16 {
        match self {
            UserReplyView::Rejected(error) => error.status(),
            UserReplyView::Failed(_) => 500,
            _ => 200,
        }
    }
}

impl UserReply {
    /// HTTP status of the reply.
    pub fn status(&self) -> (code: u16)
        ensures
            code == self@.status(),
    {
        match self {
            UserReply::Rejected(error) => error.status(),
            UserReply::Failed(error) => error.status(),
            _ => 200,
        }
    }
}

/// What the host has to do after a transition of a user actor.
#[derive(Clone, Debug, PartialEq, Eq)]
pub enum UserStep {
    /// Answer the request.
    Reply(UserReply),
    /// Ask the arbiter to register the candidate, then come back with
    /// [`DurableUser::resume`] or [`DurableUser::abandon`].
    Ratchet(u32),
}

/// Mathematical value of a [`UserStep`].
pub enum UserStepView {
    Reply(UserReplyView),
    Ratchet(nat),
}

impl View for UserStep {
    type V = UserStepView;

    open spec fn view(&self) -> UserStepView {
        match self {
            UserStep::Reply(reply) => UserStepView::Reply(reply@),
            UserStep::Ratchet(candidate) => UserStepView::Ratchet(*candidate as nat),
        }
    }
}

/// A user actor as a mathematical value.
pub struct UserActorState {
    /// Identifier of the actor.
    pub id: Seq<char>,
    /// The record, once it was created.
    pub record: Option<UserState>,
    /// The new personal best that waits for the arbiter, while an increment is under way.
    pub pending: Option<nat>,
}

impl UserActorState {
    /// What holds of every actor: its record is valid and carries the
    /// actor's identifier, and a score waits for the arbiter only if it is a
    /// new personal best that fits in a `u32` and no zero-key is pending.
    pub open spec fn valid(self) -> bool {
        &&& self.record matches Some(record) ==> record.valid() && record.id == self.id
        &&& self.pending matches Some(candidate) ==> {
            &&& self.record matches Some(record)
            &&& record.zero_key is None
            &&& record.high_score < candidate
            &&& candidate <= u32::MAX
        }
    }

    /// Whether `command` creates the record, and so stores a new password.
    pub open spec fn creates_record(self, command: UserCommandView) -> bool {
        command is Init && self.record is None
    }

    /// Whether a drain would find the score at zero and issue a zero-key.
    pub open spec fn issues_zero_key(self) -> bool {
        self.record matches Some(record) && record.score == 0
    }

    /// The actor with `record` in place of its record.
    pub open spec fn with(self, record: UserState) -> UserActorState {
        UserActorState { record: Some(record), ..self }
    }

    /// The transition that adds `delta` points to `record`, the actor's
    /// record. A pending zero-key loses its worth in any case. A score that
    /// does not fit in a `u32` is refused. A new personal best waits for the
    /// arbiter; any other new score is stored at once.
    pub open spec fn add_points(self, record: UserState, delta: nat) -> (
        UserActorState,
        UserStepView,
    ) {
        if record.score + delta > u32::MAX {
            (
                self.with(record.without_zero_key()),
                UserStepView::Reply(UserReplyView::Failed(BackendError::CounterOverflow)),
            )
        } else if record.breaks_record(delta) {
            (
                UserActorState {
                    record: Some(record.without_zero_key()),
                    pending: Some(record.score + delta),
                    ..self
                },
                UserStepView::Ratchet(record.score + delta),
            )
        } else {
            (self.with(record.credited(delta)), UserStepView::Reply(UserReplyView::Empty))
        }
    }

    /// The transition on a request that needs the record, where `served`
    /// is what the actor does with the record at hand: an actor without a
    /// record cannot serve it, and stays as it is.
    pub open spec fn with_record_or_fail(
        self,
        served: spec_fn(UserState) -> (UserActorState, UserStepView),
    ) -> (UserActorState, UserStepView) {
        match self.record {
            Some(record) => served(record),
            None => (self, UserStepView::Reply(UserReplyView::Failed(BackendError::MissingRecord))),
        }
    }

    /// The actor's transition on `command`: the next state, and what the
    /// host has to do. `password` is the secret that a creation would store,
    /// `token` the zero-key that a drain would issue.
    ///
    /// A record is created once: an actor that holds one refuses to create
    /// it again, and stays as it is. A zero-key is redeemed for exactly one
    /// point, by the same transition that adds points; a key that is not the
    /// pending one is refused and changes nothing.
    pub open spec fn apply(
        self,
        command: UserCommandView,
        password: Seq<char>,
        token: Seq<char>,
    ) -> (UserActorState, UserStepView) {
        match command {
            UserCommandView::Refuse(error) => (
                self,
                UserStepView::Reply(UserReplyView::Rejected(error)),
            ),
            UserCommandView::Init => if self.record is Some {
                (
                    self,
                    UserStepView::Reply(
                        UserReplyView::Rejected(ProtocolErrorView::AlreadyInitialised),
                    ),
                )
            } else {
                (
                    self.with(UserState::created(self.id, password)),
                    UserStepView::Reply(UserReplyView::Created { id: self.id, pass: password }),
                )
            },
            UserCommandView::Password => self.with_record_or_fail(
                |record: UserState|
                    (self, UserStepView::Reply(UserReplyView::Password(record.password))),
            ),
            UserCommandView::GetAndZero => self.with_record_or_fail(
                |record: UserState|
                    (
                        self.with(record.after_drain(token)),
                        UserStepView::Reply(UserReplyView::Drained(record.drain_result(token))),
                    ),
            ),
            UserCommandView::Add(ScoreKeyView::Score(delta)) => self.with_record_or_fail(
                |record: UserState| self.add_points(record, delta),
            ),
            UserCommandView::Add(ScoreKeyView::ZeroKey(key)) => self.with_record_or_fail(
                |record: UserState|
                    if record.zero_key == Some(key) {
                        self.add_points(record, 1)
                    } else {
                        (
                            self,
                            UserStepView::Reply(
                                UserReplyView::Rejected(ProtocolErrorView::InvalidZeroKey),
                            ),
                        )
                    },
            ),
        }
    }

    /// The actor after the arbiter registered the score that waited for it:
    /// the record takes the score as its new personal best.
    pub open spec fn resumed(self) -> UserActorState {
        UserActorState {
            record: Some(self.record->0.with_record(self.pending->0)),
            pending: None,
            ..self
        }
    }

    /// The actor after the arbiter could not be asked: the increment is given up.
    pub open spec fn abandoned(self) -> UserActorState {
        UserActorState { pending: None, ..self }
    }
}

/// A user actor: its identifier, its record as storage holds it, and the
/// transitions that serve its requests.
#[derive(Debug, PartialEq, Eq)]
pub struct DurableUser {
    id: String,
    record: Option<UserRecord>,
    pending: Option<u32>,
}

impl View for DurableUser {
    type V = UserActorState;

    closed spec fn view(&self) -> UserActorState {
        UserActorState {
            id: self.id@,
            record: match self.record {
                Some(record) => Some(record@),
                None => None,
            },
            pending: match self.pending {
                Some(candidate) => Some(candidate as nat),
                None => None,
            },
        }
    }
}

impl DurableUser {
    #[verifier::type_invariant]
    spec fn well_formed(self) -> bool {
        self@.valid()
    }

    /// An actor that holds no record yet.
    pub fn new(id: String) -> (actor: DurableUser)
        ensures
            actor@ == (UserActorState { id: id@, record: None, pending: None }),
    {
        DurableUser { id, record: None, pending: None }
    }

    /// An actor over the record that storage holds.
    pub fn with_record(record: UserRecord) -> (actor: DurableUser)
        ensures
            actor@ == (UserActorState { id: record@.id, record: Some(record@), pending: None }),
    {
        let _ = record.get_score();
        DurableUser { id: String::from_str(record.id()), record: Some(record), pending: None }
    }

    /// Identifier of the actor.
    pub fn id(&self) -> (id: &str)
        ensures
            id@ == self@.id,
    {
        self.id.as_str()
    }

    /// The record to keep in storage. Every actor is valid, and says so here.
    pub fn record(&self) -> (record: Option<&UserRecord>)
        ensures
            match record {
                Some(r) => self@.record == Some(r@),
                None => self@.record is None,
            },
            self@.valid(),
    {
        proof {
            use_type_invariant(self);
        }
        match &self.record {
            Some(record) => Some(record),
            None => None,
        }
    }

    /// The score that waits for the arbiter, while an increment is under way.
    pub fn pending(&self) -> (candidate: Option<u32>)
        ensures
            match candidate {
                Some(c) => self@.pending == Some(c as nat),
                None => self@.pending is None,
            },
    {
        self.pending
    }

    /// Adds `delta` points to the record, which the actor holds.
    fn add_points(&mut self, delta: u32) -> (step: UserStep)
        requires
            old(self)@.record is Some,
            old(self)@.pending is None,
        ensures
            (final(self)@, step@) == old(self)@.add_points(old(self)@.record->0, delta as nat),
    {
        proof {
            use_type_invariant(&*self);
        }
        let mut record = match &self.record {
            Some(record) => record.clone(),
            None => {
                return UserStep::Reply(UserReply::Failed(BackendError::MissingRecord));
            },
        };
        if delta > u32::MAX - record.get_score() {
            record.invalidate_zero_key();
            self.record = Some(record);
            return UserStep::Reply(UserReply::Failed(BackendError::CounterOverflow));
        }
        match record.begin_increment(delta) {
            Increment::Settled(_) => {
                self.record = Some(record);
                UserStep::Reply(UserReply::Empty)
            },
            Increment::Ratchet(candidate) => {
                self.record = Some(record);
                self.pending = Some(candidate);
                UserStep::Ratchet(candidate)
            },
        }
    }

    /// Serves `command`, with `password` at hand to store in a new record
    /// and `token` at hand to issue as a zero-key.
    pub fn apply(&mut self, command: UserCommand, password: String, token: String) -> (step:
        UserStep)
        requires
            old(self)@.pending is None,
        ensures
            (final(self)@, step@) == old(self)@.apply(command@, password@, token@),
    {
        proof {
            use_type_invariant(&*self);
        }
        match command {
            UserCommand::Refuse(error) => UserStep::Reply(UserReply::Rejected(error)),
            UserCommand::Init => match &self.record {
                Some(_) => UserStep::Reply(
                    UserReply::Rejected(ProtocolError::AlreadyInitialised),
                ),
                None => {
                    let id = self.id.clone();
                    self.record = Some(UserRecord::new(self.id.clone(), password.clone()));
                    UserStep::Reply(UserReply::Created { id, pass: password })
                },
            },
            UserCommand::Password => match &self.record {
                Some(record) => UserStep::Reply(
                    UserReply::Password(String::from_str(record.get_password())),
                ),
                None => UserStep::Reply(UserReply::Failed(BackendError::MissingRecord)),
            },
            UserCommand::GetAndZero => match &self.record {
                Some(stored) => {
                    let mut record = stored.clone();
                    let drained = record.get_and_zero_score_with(token);
                    self.record = Some(record);
                    UserStep::Reply(UserReply::Drained(drained))
                },
                None => UserStep::Reply(UserReply::Failed(BackendError::MissingRecord)),
            },
            UserCommand::Add(ScoreKey::Score(delta)) => match &self.record {
                Some(_) => self.add_points(delta),
                None => UserStep::Reply(UserReply::Failed(BackendError::MissingRecord)),
            },
            UserCommand::Add(ScoreKey::ZeroKey(key)) => match &self.record {
                Some(record) => if record.holds_zero_key(key.as_str()) {
                    self.add_points(1)
                } else {
                    UserStep::Reply(UserReply::Rejected(ProtocolError::InvalidZeroKey))
                },
                None => UserStep::Reply(UserReply::Failed(BackendError::MissingRecord)),
            },
        }
    }

    /// Serves `request`: reads the command from it, draws the secret that
    /// the command consumes, if any, and makes the transition of
    /// [`UserActorState::apply`].
    ///
    /// The password of a new record is [`PASSWORD_LEN`] random letters and
    /// digits. The zero-key that a drain issues is a random UUID in its
    /// hyphenated form.
    pub fn fetch(&mut self, request: &ActorRequest) -> (step: UserStep)
        requires
            old(self)@.pending is None,
        ensures
            ({
                let command = UserCommandView::of(
                    request@.path,
                    request@.method,
                    form_pairs(request@.query),
                );
                exists|password: Seq<char>, token: Seq<char>|
                    {
                        &&& (final(self)@, step@) == #[trigger] old(self)@.apply(
                            command,
                            password,
                            token,
                        )
                        &&& old(self)@.creates_record(command) ==> password.len()
                            == PASSWORD_LEN && all_alphanumeric(password)
                        &&& command is GetAndZero ==> old(self)@.issues_zero_key()
                            ==> is_hyphenated_uuid(token)
                    }
            }),
    {
        let command = UserCommand::parse(request);
        let creates = self.record().is_none();
        let password = match &command {
            UserCommand::Init => if creates {
                random_alphanumeric(PASSWORD_LEN)
            } else {
                String::new()
            },
            _ => String::new(),
        };
        let issues = match self.record() {
            Some(record) => record.get_score() == 0,
            None => false,
        };
        let token = match &command {
            UserCommand::GetAndZero => if issues {
                random_uuid_text()
            } else {
                String::new()
            },
            _ => String::new(),
        };
        let ghost before = self@;
        let ghost asked = command@;
        let ghost drawn_password = password@;
        let ghost drawn_token = token@;
        let step = self.apply(command, password, token);
        assert((self@, step@) == before.apply(asked, drawn_password, drawn_token));
        step
    }

    /// Goes on after the arbiter registered the score that waited for it:
    /// the record takes the score as its new personal best, and the request
    /// that added the points is answered.
    pub fn resume(&mut self) -> (reply: UserReply)
        requires
            old(self)@.pending is Some,
        ensures
            final(self)@ == old(self)@.resumed(),
            reply@ == UserReplyView::Empty,
    {
        proof {
            use_type_invariant(&*self);
        }
        let candidate: u32 = match self.pending {
            Some(candidate) => candidate,
            None => 0,
        };
        let mut record = match &self.record {
            Some(record) => record.clone(),
            None => {
                return UserReply::Empty;
            },
        };
        record.finish_increment(candidate);
        self.pending = None;
        self.record = Some(record);
        UserReply::Empty
    }

    /// Gives up the increment that waits for the arbiter: the score and the
    /// personal best stay as they were.
    pub fn abandon(&mut self)
        ensures
            final(self)@ == old(self)@.abandoned(),
    {
        proof {
            use_type_invariant(&*self);
        }
        self.pending = None;
    }

    /// Serves `request` to its end, with the arbiter at hand: as
    /// [`Self::fetch`], and where a new personal best waits, the arbiter
    /// registers it before the record takes it.
    pub fn serve(&mut self, arbiter: &mut DurableTrusted, request: &ActorRequest) -> (reply:
        UserReply)
        requires
            old(self)@.pending is None,
        ensures
            ({
                let command = UserCommandView::of(
                    request@.path,
                    request@.method,
                    form_pairs(request@.query),
                );
                exists|password: Seq<char>, token: Seq<char>|
                    {
                        &&& (final(self)@, final(arbiter)@, reply@) == #[trigger] served(
                            old(self)@,
                            old(arbiter)@,
                            command,
                            password,
                            token,
                        )
                        &&& old(self)@.creates_record(command) ==> password.len()
                            == PASSWORD_LEN && all_alphanumeric(password)
                        &&& command is GetAndZero ==> old(self)@.issues_zero_key()
                            ==> is_hyphenated_uuid(token)
                    }
            }),
    {
        proof {
            use_type_invariant(&*self);
        }
        let ghost before = self@;
        let ghost command = UserCommandView::of(
            request@.path,
            request@.method,
            form_pairs(request@.query),
        );
        let step = self.fetch(request);
        let ghost (password, token) = choose|password: Seq<char>, token: Seq<char>|
            {
                &&& (self@, step@) == #[trigger] before.apply(command, password, token)
                &&& before.creates_record(command) ==> password.len() == PASSWORD_LEN
                    && all_alphanumeric(password)
                &&& command is GetAndZero ==> before.issues_zero_key() ==> is_hyphenated_uuid(
                    token,
                )
            };
        let reply = match step {
            UserStep::Reply(reply) => reply,
            UserStep::Ratchet(candidate) => {
                proof {
                    lemma_transitions_keep_valid(before, command, password, token);
                }
                match arbiter.apply(TrustedCommand::CmpAndSet(candidate)) {
                    TrustedReply::Empty => self.resume(),
                    _ => {
                        self.abandon();
                        UserReply::Failed(BackendError::CounterOverflow)
                    },
                }
            },
        };
        assert((self@, arbiter@, reply@) == served(before, old(arbiter)@, command, password, token));
        reply
    }
}

/// A transition carried through with an arbiter that answers: the state in
/// which the request is answered, and the reply.
pub open spec fn completed(outcome: (UserActorState, UserStepView)) -> (
    UserActorState,
    UserReplyView,
) {
    match outcome.1 {
        UserStepView::Reply(reply) => (outcome.0, reply),
        UserStepView::Ratchet(_) => (outcome.0.resumed(), UserReplyView::Empty),
    }
}

/// A request served to its end by a user actor and an arbiter that holds
/// `stored`: the actor's next state, what the arbiter stores then, and the
/// reply.
///
/// A new personal best is registered with the arbiter before the record
/// takes it. Where the arbiter cannot register it, the increment is given up
/// and the request fails.
pub open spec fn served(
    actor: UserActorState,
    stored: Option<nat>,
    command: UserCommandView,
    password: Seq<char>,
    token: Seq<char>,
) -> (UserActorState, Option<nat>, UserReplyView) {
    let (next, step) = actor.apply(command, password, token);
    match step {
        UserStepView::Reply(reply) => (next, stored, reply),
        UserStepView::Ratchet(candidate) => {
            let (global_max, answer) = trusted_apply(
                stored,
                TrustedCommandView::CmpAndSet(candidate),
            );
            if answer is Empty {
                (next.resumed(), Some(global_max), UserReplyView::Empty)
            } else {
                (
                    next.abandoned(),
                    Some(global_max),
                    UserReplyView::Failed(BackendError::CounterOverflow),
                )
            }
        },
    }
}

/// Every transition keeps the actor valid, and so does the step that
/// follows the arbiter's answer.
pub proof fn lemma_transitions_keep_valid(
    actor: UserActorState,
    command: UserCommandView,
    password: Seq<char>,
    token: Seq<char>,
)
    requires
        actor.valid(),
        actor.pending is None,
    ensures
        actor.apply(command, password, token).0.valid(),
        completed(actor.apply(command, password, token)).0.valid(),
        completed(actor.apply(command, password, token)).0.pending is None,
        actor.apply(command, password, token).1 matches UserStepView::Ratchet(candidate)
            ==> actor.apply(command, password, token).0.pending == Some(candidate),
        actor.apply(command, password, token).1 is Reply ==> actor.apply(
            command,
            password,
            token,
        ).0.pending is None,
{
}

/// The personal best waits for the arbiter: no transition raises it, or
/// lifts the score above it, before the arbiter has answered.
pub proof fn lemma_high_score_waits_for_arbiter(
    actor: UserActorState,
    command: UserCommandView,
    password: Seq<char>,
    token: Seq<char>,
)
    requires
        actor.valid(),
        actor.pending is None,
        actor.record is Some,
    ensures
        ({
            let next = actor.apply(command, password, token).0;
            &&& next.record is Some
            &&& next.record->0.high_score == actor.record->0.high_score
            &&& next.record->0.score <= actor.record->0.high_score
        }),
{
}

/// A personal best is set only below the threshold: when a request served
/// to its end has raised the personal best, the arbiter's threshold is above
/// it. The threshold itself never decreases.
pub proof fn lemma_record_below_threshold(
    actor: UserActorState,
    stored: Option<nat>,
    command: UserCommandView,
    password: Seq<char>,
    token: Seq<char>,
)
    requires
        actor.valid(),
        actor.pending is None,
        actor.record is Some,
    ensures
        ({
            let (after, threshold, reply) = served(actor, stored, command, password, token);
            &&& after.valid()
            &&& after.pending is None
            &&& after.record is Some
            &&& after.record->0.high_score >= actor.record->0.high_score
            &&& after.record->0.high_score > actor.record->0.high_score ==> {
                &&& threshold matches Some(global_max)
                &&& global_max > after.record->0.high_score
                &&& global_max >= loaded(stored)
                &&& after.record->0.score == after.record->0.high_score
            }
            &&& after.record->0.high_score == actor.record->0.high_score && threshold != stored
                ==> reply == UserReplyView::Failed(BackendError::CounterOverflow)
        }),
{
}

/// A record is created once. An actor without a record creates it with the
/// password at hand, score and personal best at zero. An actor that holds a
/// record refuses to create it again, as a conflict, and stays as it is:
/// the password is set once.
pub proof fn lemma_record_is_created_once(
    actor: UserActorState,
    password: Seq<char>,
    token: Seq<char>,
)
    requires
        actor.pending is None,
    ensures
        ({
            let (after, step) = actor.apply(UserCommandView::Init, password, token);
            if actor.record is Some {
                &&& after == actor
                &&& step == UserStepView::Reply(
                    UserReplyView::Rejected(ProtocolErrorView::AlreadyInitialised),
                )
            } else {
                &&& after.record == Some(UserState::created(actor.id, password))
                &&& step == UserStepView::Reply(
                    UserReplyView::Created { id: actor.id, pass: password },
                )
            }
        }),
{
}

/// The score changes by increment and by drain only: a request that adds
/// points leaves the score where it was or that many points higher, a
/// redeemed zero-key one point higher, a drain leaves it at zero, and no
/// other request that finds a record touches the record at all.
pub proof fn lemma_score_changes_by_increment_or_drain(
    actor: UserActorState,
    command: UserCommandView,
    password: Seq<char>,
    token: Seq<char>,
)
    requires
        actor.valid(),
        actor.pending is None,
        actor.record is Some,
    ensures
        ({
            let before = actor.record->0;
            let (after, reply) = completed(actor.apply(command, password, token));
            match command {
                UserCommandView::Add(ScoreKeyView::Score(delta)) => {
                    &&& after.record->0.score == if reply is Empty {
                        before.score + delta
                    } else {
                        before.score
                    }
                    &&& reply is Empty <==> before.score + delta <= u32::MAX
                },
                UserCommandView::Add(ScoreKeyView::ZeroKey(key)) => {
                    &&& after.record->0.score == if reply is Empty {
                        before.score + 1
                    } else {
                        before.score
                    }
                    &&& reply is Empty <==> before.zero_key == Some(key)
                },
                UserCommandView::GetAndZero => after.record->0.score == 0,
                UserCommandView::Init => after == actor,
                UserCommandView::Password => after == actor,
                UserCommandView::Refuse(_) => after == actor,
            }
        }),
{
}

/// No request lowers the personal best of a record, or changes its
/// password or its identifier.
pub proof fn lemma_high_score_never_decreases(
    actor: UserActorState,
    command: UserCommandView,
    password: Seq<char>,
    token: Seq<char>,
)
    requires
        actor.valid(),
        actor.pending is None,
        actor.record is Some,
    ensures
        ({
            let after = completed(actor.apply(command, password, token)).0;
            &&& after.record is Some
            &&& after.record->0.high_score >= actor.record->0.high_score
            &&& after.record->0.password == actor.record->0.password
            &&& after.record->0.id == actor.record->0.id
        }),
{
}

/// A zero-key can be used exactly once. The token that a drain issues for a
/// score of zero is redeemed for exactly one point; offered a second time,
/// it is refused as a conflict and nothing changes.
pub proof fn lemma_zero_key_single_use(
    actor: UserActorState,
    token: Seq<char>,
    password: Seq<char>,
    later: Seq<char>,
)
    requires
        actor.valid(),
        actor.pending is None,
        actor.issues_zero_key(),
    ensures
        ({
            let redeem = UserCommandView::Add(ScoreKeyView::ZeroKey(token));
            let issued = actor.apply(UserCommandView::GetAndZero, password, token);
            let redeemed = completed(issued.0.apply(redeem, password, later));
            let again = redeemed.0.apply(redeem, password, later);
            &&& issued.1 == UserStepView::Reply(
                UserReplyView::Drained(ScoreKeyView::ZeroKey(token)),
            )
            &&& issued.0.record->0 == actor.record->0.with_zero_key(token)
            &&& redeemed.1 == UserReplyView::Empty
            &&& redeemed.0.record->0.score == 1
            &&& redeemed.0.record->0.zero_key is None
            &&& again.1 == UserStepView::Reply(
                UserReplyView::Rejected(ProtocolErrorView::InvalidZeroKey),
            )
            &&& again.0 == redeemed.0
        }),
{
}

/// A zero-key is stale after any change of the score: once points were
/// added or the score was handed out, every key is refused as a conflict,
/// and the refusal changes nothing.
pub proof fn lemma_stale_zero_key_conflicts(
    actor: UserActorState,
    command: UserCommandView,
    key: Seq<char>,
    password: Seq<char>,
    token: Seq<char>,
)
    requires
        actor.valid(),
        actor.pending is None,
        actor.record is Some,
        command is Add || (command is GetAndZero && !actor.issues_zero_key()),
        completed(actor.apply(command, password, token)).1 is Empty || completed(
            actor.apply(command, password, token),
        ).1 is Drained,
    ensures
        ({
            let after = completed(actor.apply(command, password, token)).0;
            let offered = after.apply(
                UserCommandView::Add(ScoreKeyView::ZeroKey(key)),
                password,
                token,
            );
            &&& offered.1 == UserStepView::Reply(
                UserReplyView::Rejected(ProtocolErrorView::InvalidZeroKey),
            )
            &&& offered.0 == after
        }),
{
}

/// Reading the password changes nothing, so a repeated read answers the same.
pub proof fn lemma_password_read_is_idempotent(
    actor: UserActorState,
    password: Seq<char>,
    token: Seq<char>,
)
    ensures
        actor.apply(UserCommandView::Password, password, token).0 == actor,
{
}

/// A drain that hands out a score changes the score and nothing else of
/// worth: identifier, password and personal best stay, the record stays
/// valid, and a repeated drain finds the score at zero and hands out a
/// zero-key in place of the same points again.
pub proof fn lemma_drain_keeps_record(
    actor: UserActorState,
    password: Seq<char>,
    token: Seq<char>,
    later: Seq<char>,
)
    requires
        actor.valid(),
        actor.pending is None,
        actor.record is Some,
        !actor.issues_zero_key(),
    ensures
        ({
            let drained = actor.apply(UserCommandView::GetAndZero, password, token);
            let again = drained.0.apply(UserCommandView::GetAndZero, password, later);
            &&& drained.0.valid()
            &&& drained.0.record->0 == actor.record->0.drained()
            &&& drained.1 == UserStepView::Reply(
                UserReplyView::Drained(ScoreKeyView::Score(actor.record->0.score)),
            )
            &&& again.1 == UserStepView::Reply(
                UserReplyView::Drained(ScoreKeyView::ZeroKey(later)),
            )
            &&& again.0.record->0.score == 0
            &&& again.0.record->0.high_score == actor.record->0.high_score
        }),
{
}

} // verus!
