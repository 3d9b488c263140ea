//! The trust arbiter: the one actor that holds the record threshold shared
//! by all users, and raises it by compare-and-ratchet only.

use crate::codec::{form_pairs, query_pairs};
use crate::text::{
    decimal, decimal_text, decimal_text_u32, lemma_leading_run_is, lemma_parse_of_decimal_text,
    parse_u32, parse_u32_spec, trim_start_spec,
};
use crate::{
    first_value, route_from_req, ActorRequest, BackendError, Method, ProtocolError,
    ProtocolErrorView,
};
use vstd::prelude::*;
use vstd::string::StringExecFns;

verus! {

/// Storage key of the threshold.
pub const MAX_SCORE_KEY: &'static str = "max_score";

/// Query name under which a ratchet request carries its candidate.
pub const CMP_SET_KEY: &'static str = "cmp_set";

/// What the arbiter tells a ratchet request that carries no candidate.
pub const NO_VALUE_MESSAGE: &'static str = "No value in request";

/// Threshold of an arbiter that was never written.
pub const INIT_MAX: u32 = 100;

/// The threshold after a compare-and-ratchet with `candidate`: a candidate
/// that reaches the threshold moves it one past itself, any other leaves it.
pub open spec fn ratchet(global_max: nat, candidate: nat) -> nat {
    if candidate >= global_max {
        candidate + 1
    } else {
        global_max
    }
}

/// Whether a compare-and-ratchet with `candidate` sets a new record.
pub open spec fn sets_record(global_max: nat, candidate: nat) -> bool {
    candidate >= global_max
}

/// The threshold never decreases, and a ratchet that succeeds for `candidate`
/// leaves it at exactly `candidate + 1`.
pub proof fn lemma_ratchet_monotonic(global_max: nat, candidate: nat)
    ensures
        ratchet(global_max, candidate) >= global_max,
        ratchet(global_max, candidate) > candidate,
        sets_record(global_max, candidate) ==> ratchet(global_max, candidate) == candidate + 1,
        !sets_record(global_max, candidate) ==> ratchet(global_max, candidate) == global_max,
{
}

/// Of two candidates, the one registered first holds the record unless the
/// later one is strictly larger: a tie never takes the record a second time.
pub proof fn lemma_first_registered_wins(global_max: nat, first: nat, second: nat)
    ensures
        sets_record(ratchet(global_max, first), second) ==> second > first,
        second <= first ==> ratchet(ratchet(global_max, first), second) == ratchet(
            global_max,
            first,
        ),
{
}

/// The threshold that two registrations leave does not depend on their order.
pub proof fn lemma_ratchet_commutes(global_max: nat, a: nat, b: nat)
    ensures
        ratchet(ratchet(global_max, a), b) == ratchet(ratchet(global_max, b), a),
{
}

/// The arbiter's record: the threshold that the next record score has to reach.
#[derive(Clone, Copy, Debug, PartialEq, Eq)]
pub struct TrustRecord {
    global_max: u32,
}

impl View for TrustRecord {
    type V = nat;

    closed spec fn view(&self) -> nat {
        self.global_max as nat
    }
}

impl TrustRecord {
    /// The record as storage holds it: what was stored, or the initial
    /// threshold where nothing was.
    pub fn load(stored: Option<u32>) -> (record: TrustRecord)
        ensures
            record@ == match stored {
                Some(global_max) => global_max as nat,
                None => INIT_MAX as nat,
            },
    {
        match stored {
            Some(global_max) => TrustRecord { global_max },
            None => TrustRecord { global_max: INIT_MAX },
        }
    }

    /// The current threshold.
    pub fn get_max(&self) -> (global_max: u32)
        ensures
            global_max == self@,
    {
        self.global_max
    }

    /// Compare-and-ratchet: raises the threshold to `candidate + 1` when
    /// `candidate` reaches it, and does nothing otherwise. Returns whether
    /// the candidate set a new record.
    pub fn compare_and_set(&mut self, candidate: u32) -> (raised: bool)
        requires
            sets_record(old(self)@, candidate as nat) ==> candidate < u32::MAX,
        ensures
            final(self)@ == ratchet(old(self)@, candidate as nat),
            raised == sets_record(old(self)@, candidate as nat),
    {
        if candidate >= self.global_max {
            self.global_max = candidate + 1;
            true
        } else {
            false
        }
    }
}

/// Routes of the arbiter.
#[derive(Clone, Debug, PartialEq, Eq)]
pub enum TrustedRoutes {
    Get,
    CmpAndSet,
    Unknown(String),
}

/// Mathematical value of a [`TrustedRoutes`].
pub enum TrustedRoutesView {
    Get,
    CmpAndSet,
    Unknown(Seq<char>),
}

impl View for TrustedRoutes {
    type V = TrustedRoutesView;

    open spec fn view(&self) -> TrustedRoutesView {
        match self {
            TrustedRoutes::Get => TrustedRoutesView::Get,
            TrustedRoutes::CmpAndSet => TrustedRoutesView::CmpAndSet,
            TrustedRoutes::Unknown(name) => TrustedRoutesView::Unknown(name@),
        }
    }
}

impl TrustedRoutesView {
    /// The route that `name` addresses; a name that is no route's is kept as it is.
    pub open spec fn of(name: Seq<char>) -> TrustedRoutesView {
        if name == "get"@ {
            TrustedRoutesView::Get
        } else if name == "cmp_and_set"@ {
            TrustedRoutesView::CmpAndSet
        } else {
            TrustedRoutesView::Unknown(name)
        }
    }

    /// The name under which the route is addressed.
    pub open spec fn name(self) -> Seq<char> {
        match self {
            TrustedRoutesView::Get => "get"@,
            TrustedRoutesView::CmpAndSet => "cmp_and_set"@,
            TrustedRoutesView::Unknown(_) => "unknown"@,
        }
    }

    /// The verb with which the route is called.
    pub open spec fn method(self) -> Method {
        match self {
            TrustedRoutesView::Get => Method::Get,
            TrustedRoutesView::CmpAndSet => Method::Patch,
            TrustedRoutesView::Unknown(_) => Method::Get,
        }
    }
}

impl TrustedRoutes {
    /// Reads a route from its name.
    pub fn parse(name: &str) -> (route: TrustedRoutes)
        ensures
            route@ == TrustedRoutesView::of(name@),
    {
        if name.eq("get") {
            TrustedRoutes::Get
        } else if name.eq("cmp_and_set") {
            TrustedRoutes::CmpAndSet
        } else {
            TrustedRoutes::Unknown(name.to_owned())
        }
    }

    /// The name under which the route is addressed.
    pub fn as_str(&self) -> (name: &'static str)
        ensures
            name@ == self@.name(),
    {
        match self {
            TrustedRoutes::Get => "get",
            TrustedRoutes::CmpAndSet => "cmp_and_set",
            TrustedRoutes::Unknown(_) => "unknown",
        }
    }

    /// The verb with which the route is called.
    pub fn method(&self) -> (verb: Method)
        ensures
            verb == self@.method(),
    {
        match self {
            TrustedRoutes::Get => Method::Get,
            TrustedRoutes::CmpAndSet => Method::Patch,
            TrustedRoutes::Unknown(_) => Method::Get,
        }
    }
}

/// Every route with a name of its own is read back from that name.
pub proof fn lemma_trusted_route_names(route: TrustedRoutesView)
    requires
        !(route is Unknown),
    ensures
        TrustedRoutesView::of(route.name()) == route,
{
    reveal_strlit("get");
    reveal_strlit("cmp_and_set");
    if route is CmpAndSet {
        assert("cmp_and_set"@.len() != "get"@.len());
    }
}

/// What a request asks of the arbiter.
#[derive(Clone, Debug, PartialEq, Eq)]
pub enum TrustedCommand {
    /// Read the threshold.
    Get,
    /// Compare-and-ratchet with the candidate.
    CmpAndSet(u32),
    /// Nothing that the arbiter can do.
    Refuse(ProtocolError),
}

/// Mathematical value of a [`TrustedCommand`].
pub enum TrustedCommandView {
    Get,
    CmpAndSet(nat),
    Refuse(ProtocolErrorView),
}

impl View for TrustedCommand {
    type V = TrustedCommandView;

    open spec fn view(&self) -> TrustedCommandView {
        match self {
            TrustedCommand::Get => TrustedCommandView::Get,
            TrustedCommand::CmpAndSet(candidate) => TrustedCommandView::CmpAndSet(
                *candidate as nat,
            ),
            TrustedCommand::Refuse(error) => TrustedCommandView::Refuse(error@),
        }
    }
}

impl TrustedCommandView {
    /// The command that a request for `path` with the query pairs `pairs` holds.
    ///
    /// A ratchet takes its candidate from the first pair named `cmp_set`.
    pub open spec fn of(path: Seq<char>, pairs: Seq<(Seq<char>, Seq<char>)>) -> TrustedCommandView {
        match TrustedRoutesView::of(trim_start_spec(path, '/')) {
            TrustedRoutesView::Get => TrustedCommandView::Get,
            TrustedRoutesView::CmpAndSet => match first_value(pairs, CMP_SET_KEY@) {
                Some(value) => match parse_u32_spec(value) {
                    Some(candidate) => TrustedCommandView::CmpAndSet(candidate as nat),
                    None => TrustedCommandView::Refuse(ProtocolErrorView::NoValueSupplied),
                },
                None => TrustedCommandView::Refuse(ProtocolErrorView::NoValueSupplied),
            },
            TrustedRoutesView::Unknown(name) => TrustedCommandView::Refuse(
                ProtocolErrorView::UnknownRoute(name),
            ),
        }
    }
}

/// Finds the value of the first pair named `key`.
pub fn find_value<'a>(pairs: &'a Vec<(String, String)>, key: &str) -> (value: Option<&'a str>)
    ensures
        match value {
            Some(v) => first_value(pairs.deep_view(), key@) == Some(v@),
            None => first_value(pairs.deep_view(), key@) is None,
        },
{
    let mut i: usize = 0;
    assert(pairs.deep_view().skip(0) =~= pairs.deep_view());
    while i < pairs.len()
        invariant
            i <= pairs.len(),
            first_value(pairs.deep_view(), key@) == first_value(
                pairs.deep_view().skip(i as int),
                key@,
            ),
        decreases pairs.len() - i,
    {
        let ghost rest = pairs.deep_view().skip(i as int);
        assert(rest[0] == pairs@[i as int].deep_view());
        assert(rest.drop_first() =~= pairs.deep_view().skip(i + 1));
        if pairs[i].0.as_str().eq(key) {
            return Some(pairs[i].1.as_str());
        }
        i = i + 1;
    }
    None
}

impl TrustedCommand {
    /// Reads the command from a request's path and its query pairs.
    pub fn from_parts(path: &str, pairs: &Vec<(String, String)>) -> (command: TrustedCommand)
        ensures
            command@ == TrustedCommandView::of(path@, pairs.deep_view()),
    {
        match TrustedRoutes::parse(route_from_req(path)) {
            TrustedRoutes::Get => TrustedCommand::Get,
            TrustedRoutes::CmpAndSet => match find_value(pairs, CMP_SET_KEY) {
                Some(value) => match parse_u32(value) {
                    Some(candidate) => TrustedCommand::CmpAndSet(candidate),
                    None => TrustedCommand::Refuse(ProtocolError::NoValueSupplied),
                },
                None => TrustedCommand::Refuse(ProtocolError::NoValueSupplied),
            },
            TrustedRoutes::Unknown(name) => TrustedCommand::Refuse(
                ProtocolError::UnknownRoute(name),
            ),
        }
    }

    /// Reads the command from a request.
    pub fn parse(request: &ActorRequest) -> (command: TrustedCommand)
        ensures
            command@ == TrustedCommandView::of(request@.path, form_pairs(request@.query)),
    {
        let pairs = query_pairs(request.query.as_str());
        TrustedCommand::from_parts(request.path.as_str(), &pairs)
    }
}

/// What the arbiter answers.
#[derive(Clone, Debug, PartialEq, Eq)]
pub enum TrustedReply {
    /// The threshold; status 200, the number in decimal as the body.
    Max(u32),
    /// Done; status 200 and an empty body.
    Empty,
    /// The request was refused.
    Rejected(ProtocolError),
    /// The request failed on the arbiter's side.
    Failed(BackendError),
}

/// Mathematical value of a [`TrustedReply`].
pub enum TrustedReplyView {
    Max(nat),
    Empty,
    Rejected(ProtocolErrorView),
    Failed(BackendError),
}

impl View for TrustedReply {
    type V = TrustedReplyView;

    open spec fn view(&self) -> TrustedReplyView {
        match self {
            TrustedReply::Max(global_max) => TrustedReplyView::Max(*global_max as nat),
            TrustedReply::Empty => TrustedReplyView::Empty,
            TrustedReply::Rejected(error) => TrustedReplyView::Rejected(error@),
            TrustedReply::Failed(error) => TrustedReplyView::Failed(*error),
        }
    }
}

impl TrustedReplyView {
    /// HTTP status of the reply.
    pub open spec fn status(self) -> u16 {
        match self {
            TrustedReplyView::Max(_) => 200,
            TrustedReplyView::Empty => 200,
            TrustedReplyView::Rejected(error) => error.status(),
            TrustedReplyView::Failed(_) => 500,
        }
    }
}

impl TrustedReply {
    /// HTTP status of the reply.
    pub fn status(&self) -> (code: u16)
        ensures
            code == self@.status(),
    {
        match self {
            TrustedReply::Max(_) => 200,
            TrustedReply::Empty => 200,
            TrustedReply::Rejected(error) => error.status(),
            TrustedReply::Failed(error) => error.status(),
        }
    }

    /// The text of the reply: the threshold in decimal, nothing, or what
    /// reports the error.
    pub fn body(&self) -> (text: String)
        ensures
            text@ == match self@ {
                TrustedReplyView::Max(global_max) => decimal_text(global_max),
                TrustedReplyView::Empty => Seq::<char>::empty(),
                TrustedReplyView::Rejected(ProtocolErrorView::NoValueSupplied) => NO_VALUE_MESSAGE@,
                TrustedReplyView::Rejected(error) => error.message(),
                TrustedReplyView::Failed(BackendError::MissingRecord) => "No such value in storage."@,
                TrustedReplyView::Failed(BackendError::CounterOverflow) => "attempt to add with overflow"@,
            },
    {
        match self {
            TrustedReply::Max(global_max) => decimal(*global_max),
            TrustedReply::Empty => String::new(),
            TrustedReply::Rejected(ProtocolError::NoValueSupplied) => String::from_str(
                NO_VALUE_MESSAGE,
            ),
            TrustedReply::Rejected(error) => error.message(),
            TrustedReply::Failed(error) => String::from_str(error.message()),
        }
    }
}

/// The threshold that an arbiter with `stored` in storage works on: an
/// arbiter that was never written starts at the initial threshold.
pub open spec fn loaded(stored: Option<nat>) -> nat {
    match stored {
        Some(global_max) => global_max,
        None => INIT_MAX as nat,
    }
}

/// The arbiter's transition: the threshold that it stores after `command`,
/// and its reply.
///
/// Whatever the command, the arbiter first makes sure that a threshold is
/// stored. A candidate that reaches the threshold and has no successor in
/// `u32` cannot be registered: the request fails and the threshold stays.
pub open spec fn trusted_apply(stored: Option<nat>, command: TrustedCommandView) -> (
    nat,
    TrustedReplyView,
) {
    let global_max = loaded(stored);
    match command {
        TrustedCommandView::Get => (global_max, TrustedReplyView::Max(global_max)),
        TrustedCommandView::CmpAndSet(candidate) => if sets_record(global_max, candidate)
            && candidate >= u32::MAX {
            (global_max, TrustedReplyView::Failed(BackendError::CounterOverflow))
        } else {
            (ratchet(global_max, candidate), TrustedReplyView::Empty)
        },
        TrustedCommandView::Refuse(error) => (global_max, TrustedReplyView::Rejected(error)),
    }
}

/// The threshold never decreases, whatever is asked of the arbiter.
pub proof fn lemma_global_max_never_decreases(stored: Option<nat>, command: TrustedCommandView)
    ensures
        trusted_apply(stored, command).0 >= loaded(stored),
{
}

/// A ratchet with candidate `v` that the arbiter answers with success leaves
/// the threshold above `v`, and at exactly `v + 1` where `v` set the record.
pub proof fn lemma_successful_ratchet(stored: Option<nat>, v: nat)
    requires
        trusted_apply(stored, TrustedCommandView::CmpAndSet(v)).1 is Empty,
    ensures
        trusted_apply(stored, TrustedCommandView::CmpAndSet(v)).0 > v,
        sets_record(loaded(stored), v) ==> trusted_apply(
            stored,
            TrustedCommandView::CmpAndSet(v),
        ).0 == v + 1,
{
}

/// Reading the threshold is idempotent: a second read answers as the first
/// did and leaves the arbiter as the first left it.
pub proof fn lemma_get_is_idempotent(stored: Option<nat>)
    ensures
        ({
            let once = trusted_apply(stored, TrustedCommandView::Get);
            let twice = trusted_apply(Some(once.0), TrustedCommandView::Get);
            twice == once && once.0 == loaded(stored)
        }),
{
}

/// The arbiter: the threshold as storage holds it, and the transition that serves a request.
#[derive(Clone, Debug, PartialEq, Eq)]
pub struct DurableTrusted {
    record: Option<TrustRecord>,
}

impl View for DurableTrusted {
    type V = Option<nat>;

    closed spec fn view(&self) -> Option<nat> {
        match self.record {
            Some(record) => Some(record@),
            None => None,
        }
    }
}

impl DurableTrusted {
    /// An arbiter over what storage holds under [`MAX_SCORE_KEY`].
    pub fn new(stored: Option<u32>) -> (arbiter: DurableTrusted)
        ensures
            arbiter@ == match stored {
                Some(global_max) => Some(global_max as nat),
                None => None,
            },
    {
        match stored {
            Some(global_max) => DurableTrusted { record: Some(TrustRecord { global_max }) },
            None => DurableTrusted { record: None },
        }
    }

    /// The threshold to keep in storage; `None` where none was ever stored.
    pub fn stored(&self) -> (global_max: Option<u32>)
        ensures
            match global_max {
                Some(value) => self@ == Some(value as nat),
                None => self@ is None,
            },
    {
        match &self.record {
            Some(record) => Some(record.get_max()),
            None => None,
        }
    }

    /// Serves `command`.
    pub fn apply(&mut self, command: TrustedCommand) -> (reply: TrustedReply)
        ensures
            final(self)@ == Some(trusted_apply(old(self)@, command@).0),
            reply@ == trusted_apply(old(self)@, command@).1,
    {
        let mut record = match self.record {
            Some(record) => record,
            None => TrustRecord::load(None),
        };
        let reply = match command {
            TrustedCommand::Get => TrustedReply::Max(record.get_max()),
            TrustedCommand::CmpAndSet(candidate) => {
                if candidate >= record.get_max() && candidate == u32::MAX {
                    TrustedReply::Failed(BackendError::CounterOverflow)
                } else {
                    record.compare_and_set(candidate);
                    TrustedReply::Empty
                }
            },
            TrustedCommand::Refuse(error) => TrustedReply::Rejected(error),
        };
        self.record = Some(record);
        reply
    }

    /// Serves `request`: reads the command from it, then [`Self::apply`].
    pub fn fetch(&mut self, request: &ActorRequest) -> (reply: TrustedReply)
        ensures
            ({
                let command = TrustedCommandView::of(request@.path, form_pairs(request@.query));
                &&& final(self)@ == Some(trusted_apply(old(self)@, command).0)
                &&& reply@ == trusted_apply(old(self)@, command).1
            }),
    {
        self.apply(TrustedCommand::parse(request))
    }
}

/// The client side of the arbiter: where it lives, and the requests that reach it.
pub struct TrustedUser {}

/// Name by which the one arbiter is addressed.
pub const TRUSTED_ID: &'static str = "trusted";

impl TrustedUser {
    /// The request that reads the threshold.
    pub fn get_max() -> (request: ActorRequest)
        ensures
            request@.path == TrustedRoutesView::Get.name(),
            request@.method == TrustedRoutesView::Get.method(),
            request@.query == Seq::<char>::empty(),
    {
        ActorRequest {
            path: String::from_str(TrustedRoutes::Get.as_str()),
            method: TrustedRoutes::Get.method(),
            query: String::new(),
        }
    }

    /// The request that registers `other` as a candidate for the record.
    pub fn cmp_and_set(other: u32) -> (request: ActorRequest)
        ensures
            request@.path == TrustedRoutesView::CmpAndSet.name(),
            request@.method == Method::Patch,
            request@.query == CMP_SET_KEY@ + "="@ + decimal_text_u32(other),
    {
        let mut query = String::from_str(CMP_SET_KEY);
        query.append("=");
        query.append(decimal(other).as_str());
        ActorRequest {
            path: String::from_str(TrustedRoutes::CmpAndSet.as_str()),
            method: Method::Patch,
            query,
        }
    }
}

/// The arbiter reads a ratchet request as the client meant it: from the path
/// of the route and the pair that carries `candidate` in decimal, it reads
/// the command to register `candidate`.
pub proof fn lemma_ratchet_request_reads_back(candidate: u32)
    ensures
        TrustedCommandView::of(
            TrustedRoutesView::CmpAndSet.name(),
            seq![(CMP_SET_KEY@, decimal_text(candidate as nat))],
        ) == TrustedCommandView::CmpAndSet(candidate as nat),
{
    let name = TrustedRoutesView::CmpAndSet.name();
    reveal_strlit("cmp_and_set");
    reveal_strlit("get");
    lemma_leading_run_is(name, '/', 0);
    assert(trim_start_spec(name, '/') =~= name);
    lemma_trusted_route_names(TrustedRoutesView::CmpAndSet);
    lemma_parse_of_decimal_text(candidate);
    let pairs = seq![(CMP_SET_KEY@, decimal_text(candidate as nat))];
    assert(first_value(pairs, CMP_SET_KEY@) == Some(decimal_text(candidate as nat)));
}

} // verus!
