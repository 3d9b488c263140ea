use starsector_mod_info_shared::user::trusted::{DurableTrusted, TrustedReply, TrustedUser};
use starsector_mod_info_shared::user::{
    DurableUser, Increment, User, UserCommand, UserRecord, UserReply, UserRoutes, UserStep,
    PASSWORD_LEN,
};
use starsector_mod_info_shared::user::trusted::TrustRecord;
use starsector_mod_info_shared::{
    route_from_req, ActorRequest, BackendError, Method, ProtocolError, ScoreKey,
};

fn request(path: &str, method: Method, query: &str) -> ActorRequest {
    ActorRequest { path: path.to_string(), method, query: query.to_string() }
}

fn add(points: u32) -> ActorRequest {
    request("/add", Method::Patch, &format!("value={}", points))
}

fn redeem(token: &str) -> ActorRequest {
    request("/add", Method::Patch, &format!("zero_key={}", token))
}

/// Serves a request to the end, with the arbiter in the same process.
fn serve(user: &mut DurableUser, arbiter: &mut DurableTrusted, req: &ActorRequest) -> UserReply {
    assert!(user.pending().is_none());
    match user.fetch(req) {
        UserStep::Reply(reply) => reply,
        UserStep::Ratchet(candidate) => {
            assert_eq!(user.pending(), Some(candidate));
            let answer = arbiter.fetch(&TrustedUser::cmp_and_set(candidate));
            if answer == TrustedReply::Empty {
                user.resume()
            } else {
                user.abandon();
                UserReply::Failed(BackendError::CounterOverflow)
            }
        }
    }
}

fn created() -> (DurableUser, DurableTrusted) {
    let mut user = DurableUser::new("0af3".to_string());
    let mut arbiter = DurableTrusted::new(None);
    let reply = serve(&mut user, &mut arbiter, &request("/init", Method::Put, ""));
    assert_eq!(reply.status(), 200);
    (user, arbiter)
}

fn score(user: &DurableUser) -> u32 {
    user.record().unwrap().get_score()
}

fn high_score(user: &DurableUser) -> u32 {
    user.record().unwrap().get_high_score()
}

#[test]
fn test_route_serialization() {
    let route = UserRoutes::GetAndZero;

    assert_eq!(&*route, "get_and_zero");

    assert_eq!(UserRoutes::parse("get_and_zero"), route)
}

#[test]
fn routes_read_their_names() {
    assert_eq!(UserRoutes::parse("init"), UserRoutes::Init);
    assert_eq!(UserRoutes::parse("add"), UserRoutes::Add);
    assert_eq!(UserRoutes::parse("password"), UserRoutes::Password);
    assert_eq!(UserRoutes::parse("Init"), UserRoutes::Unknown("Init".to_string()));
    assert_eq!(UserRoutes::parse("unknown"), UserRoutes::Unknown("unknown".to_string()));
    assert_eq!(UserRoutes::parse(""), UserRoutes::Unknown(String::new()));
    assert_eq!(UserRoutes::Unknown("x".to_string()).as_str(), "unknown");
    for route in [UserRoutes::Init, UserRoutes::GetAndZero, UserRoutes::Add, UserRoutes::Password] {
        assert_eq!(UserRoutes::parse(route.as_str()), route);
    }
}

#[test]
fn routes_have_their_verbs() {
    assert_eq!(UserRoutes::Init.method(), Method::Put);
    assert_eq!(UserRoutes::GetAndZero.method(), Method::Patch);
    assert_eq!(UserRoutes::Add.method(), Method::Patch);
    assert_eq!(UserRoutes::Password.method(), Method::Get);
    assert_eq!(UserRoutes::Unknown("x".to_string()).method(), Method::Get);
}

#[test]
fn route_is_path_without_leading_slashes() {
    assert_eq!(route_from_req("/add"), "add");
    assert_eq!(route_from_req("///add"), "add");
    assert_eq!(route_from_req("add"), "add");
    assert_eq!(route_from_req("/add/"), "add/");
    assert_eq!(route_from_req("/"), "");
    assert_eq!(route_from_req(""), "");
}

#[test]
fn init_creates_record_with_random_password() {
    let mut user = DurableUser::new("0af3".to_string());
    assert!(user.record().is_none());
    let step = user.fetch(&request("/init", Method::Put, ""));
    let (id, pass) = match step {
        UserStep::Reply(UserReply::Created { id, pass }) => (id, pass),
        other => panic!("unexpected step {:?}", other),
    };
    assert_eq!(id, "0af3");
    assert_eq!(pass.chars().count(), PASSWORD_LEN);
    assert_eq!(pass.len(), 16);
    assert!(pass.chars().all(|c| c.is_ascii_alphanumeric()));
    let record = user.record().unwrap();
    assert_eq!(record.id(), "0af3");
    assert_eq!(record.get_password(), pass);
    assert_eq!(record.get_score(), 0);
    assert_eq!(record.get_high_score(), 0);
    assert_eq!(record.get_zero_key(), None);
}

#[test]
fn init_draws_a_new_password_each_time() {
    let a = UserRecord::init("a".to_string());
    let b = UserRecord::init("a".to_string());
    assert_ne!(a.get_password(), b.get_password());
}

#[test]
fn init_needs_put() {
    for method in [Method::Get, Method::Post, Method::Patch, Method::Delete, Method::Head] {
        let mut user = DurableUser::new("0af3".to_string());
        let reply = user.fetch(&request("/init", method, ""));
        assert_eq!(reply, UserStep::Reply(UserReply::Rejected(ProtocolError::InvalidMethod)));
        assert!(user.record().is_none());
    }
    let mut user = DurableUser::new("0af3".to_string());
    let step = user.fetch(&User::init());
    assert!(matches!(step, UserStep::Reply(UserReply::Created { .. })));
}

#[test]
fn second_init_is_refused_and_changes_nothing() {
    let (mut user, mut arbiter) = created();
    serve(&mut user, &mut arbiter, &add(30));
    serve(&mut user, &mut arbiter, &User::get_and_zero());
    serve(&mut user, &mut arbiter, &add(4));
    let stored = user.record().unwrap().clone();
    assert_eq!((stored.get_score(), stored.get_high_score()), (4, 30));
    let reply = serve(&mut user, &mut arbiter, &User::init());
    assert_eq!(reply, UserReply::Rejected(ProtocolError::AlreadyInitialised));
    assert_eq!(reply.status(), 409);
    assert_eq!(user.record(), Some(&stored));
    assert_eq!(user.record().unwrap().get_password(), stored.get_password());
}

#[test]
fn requests_before_init_fail() {
    let mut arbiter = DurableTrusted::new(None);
    for req in [add(1), redeem("k"), User::get_and_zero(), User::get_password()] {
        let mut user = DurableUser::new("0af3".to_string());
        let reply = serve(&mut user, &mut arbiter, &req);
        assert_eq!(reply, UserReply::Failed(BackendError::MissingRecord));
        assert_eq!(reply.status(), 500);
        assert!(user.record().is_none());
    }
}

#[test]
fn increments_raise_score_and_high_score() {
    let (mut user, mut arbiter) = created();
    let mut expected = 0;
    for points in [5u32, 0, 7, 30, 1] {
        let before = high_score(&user);
        let reply = serve(&mut user, &mut arbiter, &add(points));
        assert_eq!(reply, UserReply::Empty);
        expected += points;
        assert_eq!(score(&user), expected);
        assert!(high_score(&user) >= before);
        assert_eq!(high_score(&user), score(&user));
    }
    assert_eq!(score(&user), 43);
    assert_eq!(arbiter.stored(), Some(100));
}

#[test]
fn new_high_score_waits_for_the_arbiter() {
    let (mut user, _) = created();
    let step = user.fetch(&add(12));
    assert_eq!(step, UserStep::Ratchet(12));
    assert_eq!(user.pending(), Some(12));
    assert_eq!(score(&user), 0);
    assert_eq!(high_score(&user), 0);
    assert_eq!(user.resume(), UserReply::Empty);
    assert_eq!(user.pending(), None);
    assert_eq!(score(&user), 12);
    assert_eq!(high_score(&user), 12);
}

#[test]
fn abandoned_increment_changes_no_score() {
    let (mut user, _) = created();
    assert_eq!(user.fetch(&add(12)), UserStep::Ratchet(12));
    user.abandon();
    assert_eq!(user.pending(), None);
    assert_eq!(score(&user), 0);
    assert_eq!(high_score(&user), 0);
}

#[test]
fn increment_below_high_score_needs_no_arbiter() {
    let (mut user, mut arbiter) = created();
    serve(&mut user, &mut arbiter, &add(50));
    assert_eq!(serve(&mut user, &mut arbiter, &User::get_and_zero()), UserReply::Drained(ScoreKey::Score(50)));
    assert_eq!(user.fetch(&add(50)), UserStep::Reply(UserReply::Empty));
    assert_eq!(score(&user), 50);
    assert_eq!(high_score(&user), 50);
    assert_eq!(user.fetch(&add(1)), UserStep::Ratchet(51));
}

#[test]
fn high_score_can_exceed_score_after_a_drain() {
    let (mut user, mut arbiter) = created();
    serve(&mut user, &mut arbiter, &add(50));
    serve(&mut user, &mut arbiter, &User::get_and_zero());
    serve(&mut user, &mut arbiter, &add(1));
    assert_eq!(score(&user), 1);
    assert_eq!(high_score(&user), 50);
}

#[test]
fn record_breaking_increment_ratchets_the_arbiter() {
    let (mut user, mut arbiter) = created();
    serve(&mut user, &mut arbiter, &add(99));
    assert_eq!(arbiter.stored(), Some(100));
    serve(&mut user, &mut arbiter, &add(1));
    assert_eq!(arbiter.stored(), Some(101));
    serve(&mut user, &mut arbiter, &add(400));
    assert_eq!(arbiter.stored(), Some(501));
    assert!(high_score(&user) < arbiter.stored().unwrap());
}

#[test]
fn increment_that_overflows_fails_and_keeps_the_score() {
    let (mut user, mut arbiter) = created();
    serve(&mut user, &mut arbiter, &add(10));
    let reply = serve(&mut user, &mut arbiter, &add(u32::MAX - 9));
    assert_eq!(reply, UserReply::Failed(BackendError::CounterOverflow));
    assert_eq!(reply.status(), 500);
    assert_eq!(score(&user), 10);
    assert_eq!(high_score(&user), 10);
}

#[test]
fn largest_score_cannot_be_registered() {
    let (mut user, mut arbiter) = created();
    let reply = serve(&mut user, &mut arbiter, &add(u32::MAX));
    assert_eq!(reply, UserReply::Failed(BackendError::CounterOverflow));
    assert_eq!(score(&user), 0);
    assert_eq!(high_score(&user), 0);
    assert_eq!(arbiter.stored(), Some(100));
    let reply = serve(&mut user, &mut arbiter, &add(u32::MAX - 1));
    assert_eq!(reply, UserReply::Empty);
    assert_eq!(high_score(&user), u32::MAX - 1);
    assert_eq!(arbiter.stored(), Some(u32::MAX));
}

#[test]
fn drain_hands_out_the_score_and_resets_it() {
    let (mut user, mut arbiter) = created();
    serve(&mut user, &mut arbiter, &add(17));
    let reply = serve(&mut user, &mut arbiter, &User::get_and_zero());
    assert_eq!(reply, UserReply::Drained(ScoreKey::Score(17)));
    assert_eq!(score(&user), 0);
    assert_eq!(high_score(&user), 17);
    assert_eq!(user.record().unwrap().get_zero_key(), None);
}

#[test]
fn drain_of_zero_issues_a_uuid() {
    let (mut user, mut arbiter) = created();
    let token = match serve(&mut user, &mut arbiter, &User::get_and_zero()) {
        UserReply::Drained(ScoreKey::ZeroKey(token)) => token,
        other => panic!("unexpected reply {:?}", other),
    };
    assert_eq!(user.record().unwrap().get_zero_key(), Some(token.as_str()));
    assert_eq!(score(&user), 0);
    assert_eq!(high_score(&user), 0);
    let parsed = uuid::Uuid::parse_str(&token).unwrap();
    assert_eq!(parsed.get_version_num(), 4);
    assert_eq!(parsed.to_string(), token);
    assert_eq!(token.len(), 36);
    for (i, c) in token.chars().enumerate() {
        if i == 8 || i == 13 || i == 18 || i == 23 {
            assert_eq!(c, '-');
        } else {
            assert!(c.is_ascii_digit() || ('a'..='f').contains(&c));
        }
    }
}

#[test]
fn drain_needs_patch() {
    let (mut user, mut arbiter) = created();
    serve(&mut user, &mut arbiter, &add(17));
    let reply = serve(&mut user, &mut arbiter, &request("/get_and_zero", Method::Get, ""));
    assert_eq!(reply, UserReply::Rejected(ProtocolError::InvalidMethod));
    assert_eq!(reply.status(), 405);
    assert_eq!(score(&user), 17);
}

#[test]
fn add_needs_patch() {
    let (mut user, mut arbiter) = created();
    let reply = serve(&mut user, &mut arbiter, &request("/add", Method::Post, "value=3"));
    assert_eq!(reply, UserReply::Rejected(ProtocolError::InvalidMethod));
    assert_eq!(score(&user), 0);
}

#[test]
fn zero_key_is_redeemed_once_for_one_point() {
    let (mut user, mut arbiter) = created();
    let token = match serve(&mut user, &mut arbiter, &User::get_and_zero()) {
        UserReply::Drained(ScoreKey::ZeroKey(token)) => token,
        other => panic!("unexpected reply {:?}", other),
    };
    assert_eq!(serve(&mut user, &mut arbiter, &redeem(&token)), UserReply::Empty);
    assert_eq!(score(&user), 1);
    assert_eq!(high_score(&user), 1);
    let again = serve(&mut user, &mut arbiter, &redeem(&token));
    assert_eq!(again, UserReply::Rejected(ProtocolError::InvalidZeroKey));
    assert_eq!(again.status(), 409);
    assert_eq!(score(&user), 1);
}

#[test]
fn zero_key_is_stale_after_an_increment() {
    let (mut user, mut arbiter) = created();
    let token = match serve(&mut user, &mut arbiter, &User::get_and_zero()) {
        UserReply::Drained(ScoreKey::ZeroKey(token)) => token,
        other => panic!("unexpected reply {:?}", other),
    };
    assert_eq!(serve(&mut user, &mut arbiter, &add(3)), UserReply::Empty);
    let reply = serve(&mut user, &mut arbiter, &redeem(&token));
    assert_eq!(reply, UserReply::Rejected(ProtocolError::InvalidZeroKey));
    assert_eq!(score(&user), 3);
}

#[test]
fn wrong_zero_key_is_a_conflict_and_keeps_the_pending_one() {
    let (mut user, mut arbiter) = created();
    let token = match serve(&mut user, &mut arbiter, &User::get_and_zero()) {
        UserReply::Drained(ScoreKey::ZeroKey(token)) => token,
        other => panic!("unexpected reply {:?}", other),
    };
    let reply = serve(&mut user, &mut arbiter, &redeem("00000000-0000-4000-8000-000000000000"));
    assert_eq!(reply, UserReply::Rejected(ProtocolError::InvalidZeroKey));
    assert_eq!(score(&user), 0);
    assert_eq!(serve(&mut user, &mut arbiter, &redeem(&token)), UserReply::Empty);
    assert_eq!(score(&user), 1);
}

#[test]
fn zero_key_without_a_pending_one_is_a_conflict() {
    let (mut user, mut arbiter) = created();
    let reply = serve(&mut user, &mut arbiter, &redeem("whatever"));
    assert_eq!(reply, UserReply::Rejected(ProtocolError::InvalidZeroKey));
}

#[test]
fn second_drain_of_zero_replaces_the_token() {
    let mut record = UserRecord::new("u".to_string(), "pw".to_string());
    assert_eq!(record.get_and_zero_score_with("first".to_string()), ScoreKey::ZeroKey("first".to_string()));
    assert_eq!(record.get_and_zero_score_with("second".to_string()), ScoreKey::ZeroKey("second".to_string()));
    assert!(!record.holds_zero_key("first"));
    assert!(record.holds_zero_key("second"));
}

#[test]
fn password_is_read_without_a_change() {
    let (mut user, mut arbiter) = created();
    serve(&mut user, &mut arbiter, &add(4));
    let stored = user.record().unwrap().clone();
    let first = serve(&mut user, &mut arbiter, &User::get_password());
    let second = serve(&mut user, &mut arbiter, &User::get_password());
    assert_eq!(first, UserReply::Password(stored.get_password().to_string()));
    assert_eq!(first, second);
    assert_eq!(user.record(), Some(&stored));
}

#[test]
fn add_without_value_is_a_client_error() {
    let (mut user, mut arbiter) = created();
    for query in ["", "other=3", "value=", "value=abc", "value=-1", "value=4294967296", "value=1.5"] {
        let reply = serve(&mut user, &mut arbiter, &request("/add", Method::Patch, query));
        assert_eq!(reply, UserReply::Rejected(ProtocolError::NoValueSupplied), "query {:?}", query);
        assert_eq!(reply.status(), 400);
    }
    assert_eq!(score(&user), 0);
}

#[test]
fn first_pair_of_interest_decides() {
    let pairs = |list: &[(&str, &str)]| -> Vec<(String, String)> {
        list.iter().map(|(k, v)| (k.to_string(), v.to_string())).collect()
    };
    assert_eq!(
        UserCommand::add_from_pairs(&pairs(&[("x", "1"), ("value", "7"), ("zero_key", "k")])),
        UserCommand::Add(ScoreKey::Score(7))
    );
    assert_eq!(
        UserCommand::add_from_pairs(&pairs(&[("zero_key", "k"), ("value", "7")])),
        UserCommand::Add(ScoreKey::ZeroKey("k".to_string()))
    );
    assert_eq!(
        UserCommand::add_from_pairs(&pairs(&[("value", "x"), ("value", "7")])),
        UserCommand::Refuse(ProtocolError::NoValueSupplied)
    );
    assert_eq!(
        UserCommand::add_from_pairs(&pairs(&[])),
        UserCommand::Refuse(ProtocolError::NoValueSupplied)
    );
    assert_eq!(
        UserCommand::from_parts("/add", Method::Patch, &pairs(&[("value", "+12")])),
        UserCommand::Add(ScoreKey::Score(12))
    );
    assert_eq!(
        UserCommand::from_parts("/password", Method::Delete, &pairs(&[("value", "12")])),
        UserCommand::Password
    );
}

#[test]
fn query_is_percent_decoded() {
    assert_eq!(
        UserCommand::parse(&request("/add", Method::Patch, "a=b&zero_key=a%2Db+c&value=1")),
        UserCommand::Add(ScoreKey::ZeroKey("a-b c".to_string()))
    );
    assert_eq!(
        UserCommand::parse(&request("/add", Method::Patch, "v%61lue=%31%32")),
        UserCommand::Add(ScoreKey::Score(12))
    );
}

#[test]
fn unknown_route_is_not_found() {
    let (mut user, mut arbiter) = created();
    let reply = serve(&mut user, &mut arbiter, &request("/scores", Method::Get, ""));
    assert_eq!(reply, UserReply::Rejected(ProtocolError::UnknownRoute("scores".to_string())));
    assert_eq!(reply.status(), 404);
}

#[test]
fn record_is_restored_only_if_valid() {
    let s = |t: &str| t.to_string();
    let record = UserRecord::restore(s("u"), s("pw"), 3, 9, None).unwrap();
    assert_eq!((record.get_score(), record.get_high_score()), (3, 9));
    assert!(UserRecord::restore(s("u"), s("pw"), 0, 9, Some(s("k"))).is_some());
    assert!(UserRecord::restore(s("u"), s("pw"), 10, 9, None).is_none());
    assert!(UserRecord::restore(s("u"), s("pw"), 3, 9, Some(s("k"))).is_none());
    let actor = DurableUser::with_record(record.clone());
    assert_eq!(actor.id(), "u");
    assert_eq!(actor.record(), Some(&record));
    assert_eq!(actor.pending(), None);
}

#[test]
fn record_increment_in_two_halves() {
    let mut record = UserRecord::new("u".to_string(), "pw".to_string());
    assert_eq!(record.begin_increment(8), Increment::Ratchet(8));
    assert_eq!(record.get_score(), 0);
    record.finish_increment(8);
    assert_eq!((record.get_score(), record.get_high_score()), (8, 8));
    record.get_and_zero_score_with(String::new());
    assert_eq!(record.begin_increment(8), Increment::Settled(8));
    assert_eq!((record.get_score(), record.get_high_score()), (8, 8));
    assert_eq!(record.begin_increment(0), Increment::Settled(8));
}

#[test]
fn record_increment_with_arbiter_at_hand() {
    let mut record = UserRecord::new("u".to_string(), "pw".to_string());
    let mut arbiter = TrustRecord::load(None);
    assert_eq!(record.increment_score(&mut arbiter, 40), 40);
    assert_eq!(arbiter.get_max(), 100);
    assert_eq!(record.increment_score(&mut arbiter, 60), 100);
    assert_eq!(arbiter.get_max(), 101);
    assert_eq!((record.get_score(), record.get_high_score()), (100, 100));
    record.invalidate_zero_key();
    assert_eq!(record.get_and_zero_score(), ScoreKey::Score(100));
    assert!(matches!(record.get_and_zero_score(), ScoreKey::ZeroKey(_)));
}

#[test]
fn client_requests_reach_their_routes() {
    assert_eq!(User::init(), request("init", Method::Put, ""));
    assert_eq!(User::get_and_zero(), request("get_and_zero", Method::Patch, ""));
    assert_eq!(User::get_password(), request("password", Method::Get, ""));
    assert_eq!(UserCommand::parse(&User::init()), UserCommand::Init);
    assert_eq!(UserCommand::parse(&User::get_and_zero()), UserCommand::GetAndZero);
    assert_eq!(UserCommand::parse(&User::get_password()), UserCommand::Password);
}

#[test]
fn serve_registers_a_new_high_score_before_it_is_stored() {
    let mut user = DurableUser::new("0af3".to_string());
    let mut arbiter = DurableTrusted::new(None);
    assert!(matches!(
        user.serve(&mut arbiter, &request("/init", Method::Put, "")),
        UserReply::Created { .. }
    ));
    assert_eq!(arbiter.stored(), None);
    assert_eq!(user.serve(&mut arbiter, &add(120)), UserReply::Empty);
    assert_eq!((score(&user), high_score(&user)), (120, 120));
    assert_eq!(arbiter.stored(), Some(121));
    assert_eq!(user.serve(&mut arbiter, &User::get_and_zero()), UserReply::Drained(ScoreKey::Score(120)));
    assert_eq!(user.serve(&mut arbiter, &add(7)), UserReply::Empty);
    assert_eq!((score(&user), high_score(&user)), (7, 120));
    assert_eq!(arbiter.stored(), Some(121));
    assert_eq!(
        user.serve(&mut arbiter, &add(u32::MAX - 7)),
        UserReply::Failed(BackendError::CounterOverflow)
    );
    assert_eq!((score(&user), high_score(&user)), (7, 120));
    assert_eq!(user.pending(), None);
}

#[test]
fn two_users_and_one_record() {
    let mut arbiter = DurableTrusted::new(None);
    let mut a = DurableUser::new("a".to_string());
    let mut b = DurableUser::new("b".to_string());
    a.serve(&mut arbiter, &request("/init", Method::Put, ""));
    b.serve(&mut arbiter, &request("/init", Method::Put, ""));
    assert_eq!(a.serve(&mut arbiter, &add(150)), UserReply::Empty);
    assert_eq!(arbiter.stored(), Some(151));
    assert_eq!(b.serve(&mut arbiter, &add(150)), UserReply::Empty);
    assert_eq!(arbiter.stored(), Some(151));
    assert_eq!(b.serve(&mut arbiter, &add(1)), UserReply::Empty);
    assert_eq!(arbiter.stored(), Some(152));
    assert_eq!((high_score(&a), high_score(&b)), (150, 151));
}

#[test]
fn errors_have_their_texts() {
    assert_eq!(ProtocolError::InvalidMethod.message(), "Invalid method");
    assert_eq!(ProtocolError::InvalidZeroKey.message(), "Zero-key invalid");
    assert_eq!(ProtocolError::AlreadyInitialised.message(), "User already initialised");
    assert_eq!(ProtocolError::AlreadyInitialised.status(), 409);
    assert_eq!(ProtocolError::NoValueSupplied.message(), "No values supplied in request");
    assert_eq!(
        ProtocolError::UnknownRoute("scores".to_string()).message(),
        "Could not find path: scores"
    );
    assert_eq!(BackendError::MissingRecord.message(), "No such value in storage.");
    assert_eq!(BackendError::CounterOverflow.message(), "attempt to add with overflow");
    assert_eq!(BackendError::MissingRecord.status(), 500);
    assert_eq!(ProtocolError::InvalidMethod.status(), 405);
    assert_eq!(ProtocolError::InvalidZeroKey.status(), 409);
    assert_eq!(ProtocolError::NoValueSupplied.status(), 400);
    assert_eq!(ProtocolError::UnknownRoute(String::new()).status(), 404);
}
