//! One user's durable record: score, personal best, password and the
//! pending zero-key, with the operations that change them.

use crate::entropy::{all_alphanumeric, is_hyphenated_uuid, random_alphanumeric, random_uuid_text};
use crate::user::trusted::{ratchet, sets_record, TrustRecord};
use crate::user::PASSWORD_LEN;
use crate::{ScoreKey, ScoreKeyView};
use vstd::prelude::*;

verus! {

/// One user's record as a mathematical value.
pub struct UserState {
    /// Identifier of the actor that owns the record.
    pub id: Seq<char>,
    /// The secret that the owner proves their identity with.
    pub password: Seq<char>,
    /// Points gathered since the last drain.
    pub score: nat,
    /// The largest score that the user ever reached.
    pub high_score: nat,
    /// The token issued by the last drain that found the score at zero, until it is used up.
    pub zero_key: Option<Seq<char>>,
}

impl UserState {
    /// What holds of every record: the score never exceeds the personal
    /// best, both fit in a `u32`, and a zero-key is pending only while the
    /// score is zero.
    pub open spec fn valid(self) -> bool {
        &&& self.score <= self.high_score
        &&& self.high_score <= u32::MAX
        &&& self.zero_key is Some ==> self.score == 0
    }

    /// The record of a user who was just created.
    pub open spec fn created(id: Seq<char>, password: Seq<char>) -> UserState {
        UserState { id, password, score: 0, high_score: 0, zero_key: None }
    }

    /// The record with no zero-key pending.
    pub open spec fn without_zero_key(self) -> UserState {
        UserState { zero_key: None, ..self }
    }

    /// The record with `token` pending as its zero-key.
    pub open spec fn with_zero_key(self, token: Seq<char>) -> UserState {
        UserState { zero_key: Some(token), ..self }
    }

    /// The record after its score was handed out.
    pub open spec fn drained(self) -> UserState {
        UserState { score: 0, zero_key: None, ..self }
    }

    /// Whether `delta` more points make a new personal best.
    pub open spec fn breaks_record(self, delta: nat) -> bool {
        self.score + delta > self.high_score
    }

    /// The record with the score at `score`, which is also the new personal best.
    pub open spec fn with_record(self, score: nat) -> UserState {
        UserState { score, high_score: score, zero_key: None, ..self }
    }

    /// The record after `delta` points were added.
    pub open spec fn credited(self, delta: nat) -> UserState {
        if self.breaks_record(delta) {
            self.with_record(self.score + delta)
        } else {
            UserState { score: self.score + delta, zero_key: None, ..self }
        }
    }

    /// What a drain hands out: the score, or `token` where the score is zero.
    pub open spec fn drain_result(self, token: Seq<char>) -> ScoreKeyView {
        if self.score == 0 {
            ScoreKeyView::ZeroKey(token)
        } else {
            ScoreKeyView::Score(self.score)
        }
    }

    /// The record after a drain that had `token` at hand to issue.
    pub open spec fn after_drain(self, token: Seq<char>) -> UserState {
        if self.score == 0 {
            self.with_zero_key(token)
        } else {
            self.drained()
        }
    }
}

/// How an increment goes on after the record was consulted.
#[derive(Clone, Copy, Debug, PartialEq, Eq, Structural)]
pub enum Increment {
    /// No new personal best: the score is already updated, to this value.
    Settled(u32),
    /// A new personal best: the arbiter has to register this value before
    /// the record takes it.
    Ratchet(u32),
}

/// One user's durable record.
#[derive(Debug, PartialEq, Eq)]
pub struct UserRecord {
    id: String,
    password: String,
    score: u32,
    high_score: u32,
    zero_key: Option<String>,
}

impl View for UserRecord {
    type V = UserState;

    closed spec fn view(&self) -> UserState {
        UserState {
            id: self.id@,
            password: self.password@,
            score: self.score as nat,
            high_score: self.high_score as nat,
            zero_key: match self.zero_key {
                Some(token) => Some(token@),
                None => None,
            },
        }
    }
}

impl Clone for UserRecord {
    fn clone(&self) -> (copy: UserRecord)
        ensures
            copy@ == self@,
    {
        proof {
            use_type_invariant(self);
        }
        UserRecord {
            id: self.id.clone(),
            password: self.password.clone(),
            score: self.score,
            high_score: self.high_score,
            zero_key: match &self.zero_key {
                Some(token) => Some(token.clone()),
                None => None,
            },
        }
    }
}

impl UserRecord {
    #[verifier::type_invariant]
    spec fn well_formed(self) -> bool {
        self@.valid()
    }

    /// The record of a new user with the given password.
    pub fn new(id: String, password: String) -> (record: UserRecord)
        ensures
            record@ == UserState::created(id@, password@),
    {
        UserRecord { id, password, score: 0, high_score: 0, zero_key: None }
    }

    /// The record of a new user, with a password drawn at random:
    /// [`PASSWORD_LEN`] letters and digits.
    pub fn init(id: String) -> (record: UserRecord)
        ensures
            record@ == UserState::created(id@, record@.password),
            record@.password.len() == PASSWORD_LEN,
            all_alphanumeric(record@.password),
    {
        UserRecord::new(id, random_alphanumeric(PASSWORD_LEN))
    }

    /// The record that storage holds, if its parts make a valid record.
    pub fn restore(
        id: String,
        password: String,
        score: u32,
        high_score: u32,
        zero_key: Option<String>,
    ) -> (record: Option<UserRecord>)
        ensures
            ({
                let state = UserState {
                    id: id@,
                    password: password@,
                    score: score as nat,
                    high_score: high_score as nat,
                    zero_key: match zero_key {
                        Some(token) => Some(token@),
                        None => None,
                    },
                };
                match record {
                    Some(r) => state.valid() && r@ == state,
                    None => !state.valid(),
                }
            }),
    {
        if score <= high_score && (zero_key.is_none() || score == 0) {
            Some(UserRecord { id, password, score, high_score, zero_key })
        } else {
            None
        }
    }

    /// Identifier of the actor that owns the record.
    pub fn id(&self) -> (id: &str)
        ensures
            id@ == self@.id,
    {
        self.id.as_str()
    }

    /// The stored password.
    pub fn get_password(&self) -> (password: &str)
        ensures
            password@ == self@.password,
    {
        self.password.as_str()
    }

    /// The current score. Every record is valid, and says so here.
    pub fn get_score(&self) -> (score: u32)
        ensures
            score == self@.score,
            self@.valid(),
    {
        proof {
            use_type_invariant(self);
        }
        self.score
    }

    /// The personal best.
    pub fn get_high_score(&self) -> (high_score: u32)
        ensures
            high_score == self@.high_score,
    {
        self.high_score
    }

    /// The pending zero-key.
    pub fn get_zero_key(&self) -> (zero_key: Option<&str>)
        ensures
            match zero_key {
                Some(token) => self@.zero_key == Some(token@),
                None => self@.zero_key is None,
            },
    {
        match &self.zero_key {
            Some(token) => Some(token.as_str()),
            None => None,
        }
    }

    /// Whether `key` is the pending zero-key.
    pub fn holds_zero_key(&self, key: &str) -> (held: bool)
        ensures
            held == (self@.zero_key == Some(key@)),
    {
        match &self.zero_key {
            Some(token) => token.as_str().eq(key),
            None => false,
        }
    }

    /// Makes a pending zero-key worthless.
    pub fn invalidate_zero_key(&mut self)
        ensures
            final(self)@ == old(self)@.without_zero_key(),
    {
        proof {
            use_type_invariant(&*self);
        }
        self.zero_key = None;
    }

    /// Hands out the score and resets it to zero. Where the score is zero
    /// already, `token` becomes the pending zero-key and is handed out in
    /// the score's place; nothing else changes then.
    pub fn get_and_zero_score_with(&mut self, token: String) -> (drained: ScoreKey)
        ensures
            final(self)@ == old(self)@.after_drain(token@),
            drained@ == old(self)@.drain_result(token@),
    {
        proof {
            use_type_invariant(&*self);
        }
        if self.score == 0 {
            self.zero_key = Some(token.clone());
            ScoreKey::ZeroKey(token)
        } else {
            let score: u32 = self.score;
            self.score = 0;
            self.zero_key = None;
            ScoreKey::Score(score)
        }
    }

    /// Hands out the score and resets it to zero. Where the score is zero
    /// already, a zero-key drawn at random becomes pending and is handed out
    /// in the score's place.
    pub fn get_and_zero_score(&mut self) -> (drained: ScoreKey)
        ensures
            old(self)@.score != 0 ==> {
                &&& final(self)@ == old(self)@.drained()
                &&& drained@ == ScoreKeyView::Score(old(self)@.score)
            },
            old(self)@.score == 0 ==> {
                &&& drained@ matches ScoreKeyView::ZeroKey(token)
                &&& final(self)@ == old(self)@.with_zero_key(token)
                &&& is_hyphenated_uuid(token)
            },
    {
        if self.get_score() == 0 {
            self.get_and_zero_score_with(random_uuid_text())
        } else {
            self.get_and_zero_score_with(String::new())
        }
    }

    /// First half of an increment by `value`. Any pending zero-key loses its
    /// worth. Where the new score is no personal best, it is stored at once.
    /// Where it is one, nothing else changes yet: the arbiter has to register
    /// the new score first, and [`Self::finish_increment`] then stores it.
    pub fn begin_increment(&mut self, value: u32) -> (plan: Increment)
        requires
            old(self)@.score + value <= u32::MAX,
        ensures
            old(self)@.breaks_record(value as nat) ==> {
                &&& final(self)@ == old(self)@.without_zero_key()
                &&& plan == Increment::Ratchet((old(self)@.score + value) as u32)
            },
            !old(self)@.breaks_record(value as nat) ==> {
                &&& final(self)@ == old(self)@.credited(value as nat)
                &&& plan == Increment::Settled((old(self)@.score + value) as u32)
            },
    {
        proof {
            use_type_invariant(&*self);
        }
        self.zero_key = None;
        let new: u32 = self.score + value;
        if new > self.high_score {
            Increment::Ratchet(new)
        } else {
            self.score = new;
            Increment::Settled(new)
        }
    }

    /// Second half of an increment that made a new personal best: stores
    /// `candidate` as the score and as the personal best.
    pub fn finish_increment(&mut self, candidate: u32)
        requires
            candidate > old(self)@.high_score,
        ensures
            final(self)@ == old(self)@.with_record(candidate as nat),
    {
        proof {
            use_type_invariant(&*self);
        }
        self.zero_key = None;
        self.high_score = candidate;
        self.score = candidate;
    }

    /// A whole increment by `value`, with the arbiter at hand. Where the new
    /// score is a personal best, the arbiter registers it first, and only
    /// then does the record take it. Returns the new score.
    pub fn increment_score(&mut self, arbiter: &mut TrustRecord, value: u32) -> (new: u32)
        requires
            old(self)@.score + value <= u32::MAX,
            old(self)@.breaks_record(value as nat) && sets_record(
                old(arbiter)@,
                (old(self)@.score + value) as nat,
            ) ==> old(self)@.score + value < u32::MAX,
        ensures
            new == old(self)@.score + value,
            final(self)@ == old(self)@.credited(value as nat),
            final(arbiter)@ == if old(self)@.breaks_record(value as nat) {
                ratchet(old(arbiter)@, (old(self)@.score + value) as nat)
            } else {
                old(arbiter)@
            },
            old(self)@.breaks_record(value as nat) ==> final(self)@.high_score < final(arbiter)@,
            final(self)@.high_score >= old(self)@.high_score,
    {
        match self.begin_increment(value) {
            Increment::Settled(new) => new,
            Increment::Ratchet(candidate) => {
                arbiter.compare_and_set(candidate);
                self.finish_increment(candidate);
                candidate
            },
        }
    }
}

/// The record after the increments `deltas`, one after the other.
pub open spec fn after_increments(record: UserState, deltas: Seq<nat>) -> UserState
    decreases deltas.len(),
{
    if deltas.len() == 0 {
        record
    } else {
        after_increments(record, deltas.drop_last()).credited(deltas.last())
    }
}

/// An increment never lowers the personal best, and leaves the score at most
/// at the personal best. The personal best is at most the score, hence
/// equal to it, exactly when it did not exceed the new score before.
pub proof fn lemma_increment_high_score(record: UserState, delta: nat)
    requires
        record.score <= record.high_score,
    ensures
        record.credited(delta).high_score >= record.high_score,
        record.credited(delta).score == record.score + delta,
        record.credited(delta).score <= record.credited(delta).high_score,
        record.credited(delta).high_score <= record.credited(delta).score
            <==> record.high_score <= record.score + delta,
        record.credited(delta).zero_key is None,
{
}

/// Over any sequence of increments, the personal best never decreases.
pub proof fn lemma_increments_monotonic(record: UserState, deltas: Seq<nat>)
    ensures
        after_increments(record, deltas).high_score >= record.high_score,
        forall|k: int|
            0 <= k < deltas.len() ==> (#[trigger] after_increments(
                record,
                deltas.take(k),
            )).high_score <= after_increments(record, deltas.take(k + 1)).high_score,
    decreases deltas.len(),
{
    if deltas.len() > 0 {
        let front = deltas.drop_last();
        lemma_increments_monotonic(record, front);
        assert forall|k: int| 0 <= k < deltas.len() implies (#[trigger] after_increments(
            record,
            deltas.take(k),
        )).high_score <= after_increments(record, deltas.take(k + 1)).high_score by {
            if k + 1 < deltas.len() {
                assert(front.take(k) =~= deltas.take(k));
                assert(front.take(k + 1) =~= deltas.take(k + 1));
            } else {
                assert(deltas.take(k) =~= front);
                assert(deltas.take(k + 1) =~= deltas);
            }
        }
    }
}

/// After any sequence of increments on a record whose personal best does not
/// exceed its score (a record that was never drained), the personal best is
/// at most the score. Every prefix of a sequence is a sequence, so this
/// holds after each increment.
pub proof fn lemma_increments_keep_high_score_at_score(record: UserState, deltas: Seq<nat>)
    requires
        record.high_score <= record.score,
    ensures
        after_increments(record, deltas).high_score <= after_increments(record, deltas).score,
    decreases deltas.len(),
{
    if deltas.len() > 0 {
        lemma_increments_keep_high_score_at_score(record, deltas.drop_last());
    }
}

} // verus!
