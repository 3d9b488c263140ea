use starsector_mod_info_shared::amqp::{HTTPAmqp, Stub};
use starsector_mod_info_shared::cache::Rate;
use starsector_mod_info_shared::middleware::authentication::{
    authenticate_internal, basic_authorization, check_password, claimed_credentials,
    credentials_from_payload, parse_auth_header, AuthError,
};
use starsector_mod_info_shared::middleware::rate_limit::{
    cache_control, cache_key, rate_limit_internal, rate_limit_key, CacheLookup, RateDecision,
    RateLimitError, BAN_TTL, WINDOW_TTL,
};
use starsector_mod_info_shared::mod_info::{Contribution, ModCommand, ModRoutes};
use starsector_mod_info_shared::ProtocolError;
use starsector_mod_info_shared::user::{DurableUser, UserReply, UserStep};
use starsector_mod_info_shared::{ActorRequest, Method, ScoreKey, STARSECTOR_MOD_AUTH};

fn pair(user: &str, password: &str) -> Option<(String, String)> {
    Some((user.to_string(), password.to_string()))
}

#[test]
fn header_names_user_and_password() {
    assert_eq!(parse_auth_header("Basic dXNlcjpwYXNz"), pair("user", "pass"));
    assert_eq!(parse_auth_header("Basic dXNlcjpwYTpzcw=="), pair("user", "pa:ss"));
    assert_eq!(parse_auth_header("Basic dXNlcjpwYTpzcw"), pair("user", "pa:ss"));
    assert_eq!(parse_auth_header("Basic Og=="), pair("", ""));
    assert_eq!(parse_auth_header("Basic dXNlcjo="), pair("user", ""));
    let header = format!("Basic {}", base64::encode("0af3:s3cretS3cretS3cr"));
    assert_eq!(parse_auth_header(&header), pair("0af3", "s3cretS3cretS3cr"));
}

#[test]
fn malformed_headers_name_nobody() {
    let no_colon = format!("Basic {}", base64::encode("userpass"));
    let not_text = format!("Basic {}", base64::encode([0xffu8, b':', 0xfe]));
    let cases = [
        "", "Basic", "Basic ", "basic dXNlcjpwYXNz", "Bearer dXNlcjpwYXNz", " Basic dXNlcjpwYXNz",
        "Basic dXNlcjpwYXNz ", "Basic dXNlcjpwYXN", "Basic !!!!", "Basic dXNlcjpwYXNz\n",
        "Basic  dXNlcjpwYXNz", "dXNlcjpwYXNz", no_colon.as_str(), not_text.as_str(),
    ];
    for header in cases {
        assert_eq!(parse_auth_header(header), None, "header {:?}", header);
        assert_eq!(claimed_credentials(Some(header)), Err(AuthError::MissingOrMalformedHeader));
    }
    assert_eq!(claimed_credentials(None), Err(AuthError::MissingOrMalformedHeader));
    assert_eq!(claimed_credentials(Some("Basic dXNlcjpwYXNz")), Ok(("user".to_string(), "pass".to_string())));
}

#[test]
fn payload_is_text_parted_at_the_first_colon() {
    assert_eq!(credentials_from_payload(b"a:b:c".to_vec()), pair("a", "b:c"));
    assert_eq!(credentials_from_payload("é:ü".as_bytes().to_vec()), pair("é", "ü"));
    assert_eq!(credentials_from_payload(b"ab".to_vec()), None);
    assert_eq!(credentials_from_payload(vec![b'a', b':', 0xc3]), None);
    assert_eq!(credentials_from_payload(Vec::new()), None);
}

#[test]
fn password_is_held_against_the_stored_one() {
    assert_eq!(check_password("pw", Some("pw")), None);
    assert_eq!(check_password("pw", Some("pW")), Some(AuthError::InvalidCredentials));
    assert_eq!(check_password("pw", Some("pw ")), Some(AuthError::InvalidCredentials));
    assert_eq!(check_password("", Some("")), None);
    assert_eq!(check_password("pw", None), Some(AuthError::InvalidCredentials));
}

#[test]
fn auth_errors_have_their_status() {
    assert_eq!(AuthError::MissingOrMalformedHeader.status(), 400);
    assert_eq!(AuthError::InvalidCredentials.status(), 401);
    assert_eq!(AuthError::MissingOrMalformedHeader.message(), "Authorization header malformed or missing");
    assert_eq!(AuthError::InvalidCredentials.message(), "Invalid username or password");
}

#[test]
fn basic_authorization_is_base64_of_user_and_password() {
    assert_eq!(basic_authorization("user", "pass"), "Basic dXNlcjpwYXNz");
    assert_eq!(basic_authorization("rbetzayv", "k"), format!("Basic {}", base64::encode("rbetzayv:k")));
    assert_eq!(parse_auth_header(&basic_authorization("0af3", "p:w")), pair("0af3", "p:w"));
    assert_eq!(parse_auth_header(&basic_authorization("é", "ü")), pair("é", "ü"));
    assert_eq!(parse_auth_header(&basic_authorization("a:b", "c")), pair("a", "b:c"));
}

#[test]
fn auth_round_trip() {
    let mut user = DurableUser::new("0af3c2".to_string());
    let request = ActorRequest { path: "/init".to_string(), method: Method::Put, query: String::new() };
    let (id, password) = match user.fetch(&request) {
        UserStep::Reply(UserReply::Created { id, pass }) => (id, pass),
        other => panic!("unexpected step {:?}", other),
    };
    let resolve = |name: &str| -> Option<String> {
        if name == user.id() {
            user.record().map(|record| record.get_password().to_string())
        } else {
            None
        }
    };
    let good = basic_authorization(&id, &password);
    assert_eq!(authenticate_internal(Some(good.as_str()), &resolve), None);
    let bad = basic_authorization(&id, "not the password");
    assert_eq!(authenticate_internal(Some(bad.as_str()), &resolve), Some(AuthError::InvalidCredentials));
    let stranger = basic_authorization("ffff", &password);
    assert_eq!(authenticate_internal(Some(stranger.as_str()), &resolve), Some(AuthError::InvalidCredentials));
    assert_eq!(authenticate_internal(None, &resolve), Some(AuthError::MissingOrMalformedHeader));
    assert_eq!(authenticate_internal(Some("Basic ???"), &resolve), Some(AuthError::MissingOrMalformedHeader));
}

#[test]
fn nobody_is_looked_up_for_a_malformed_header() {
    let resolve = |_: &str| -> Option<String> { panic!("looked up") };
    assert_eq!(authenticate_internal(Some("Bearer x"), resolve), Some(AuthError::MissingOrMalformedHeader));
}

/// An edge cache with one entry, which forgets it when its time to live has run out.
struct Cache {
    entry: Option<(Rate, u64)>,
}

fn visit(cache: &mut Cache, now: u64, limit: u32) -> Option<RateLimitError> {
    let lookup = match cache.entry {
        Some((rate, expires)) if now < expires => CacheLookup::Hit(rate),
        _ => CacheLookup::Miss,
    };
    let decision = rate_limit_internal(lookup, limit);
    match decision {
        RateDecision::Admit { rate, ttl } | RateDecision::Reject { rate, ttl } => {
            cache.entry = Some((rate, now + ttl as u64));
        }
        RateDecision::Purge => cache.entry = None,
    }
    decision.error()
}

#[test]
fn fourth_request_in_a_minute_is_rejected_and_bans() {
    let mut cache = Cache { entry: None };
    assert_eq!(visit(&mut cache, 0, 3), None);
    assert_eq!(visit(&mut cache, 10, 3), None);
    assert_eq!(visit(&mut cache, 20, 3), None);
    assert_eq!(visit(&mut cache, 30, 3), Some(RateLimitError::Exceeded));
    assert_eq!(visit(&mut cache, 30 + 3_600, 3), Some(RateLimitError::Exceeded));
    assert_eq!(RateLimitError::Exceeded.status(), 429);
}

#[test]
fn ban_lasts_a_day_from_the_last_rejection() {
    let mut cache = Cache { entry: None };
    for now in 0..3 {
        assert_eq!(visit(&mut cache, now, 3), None);
    }
    assert_eq!(visit(&mut cache, 3, 3), Some(RateLimitError::Exceeded));
    assert_eq!(visit(&mut cache, 3 + 86_399, 3), Some(RateLimitError::Exceeded));
    assert_eq!(visit(&mut cache, 3 + 86_399 + 86_399, 3), Some(RateLimitError::Exceeded));
    assert_eq!(visit(&mut cache, 3 + 86_399 + 86_399 + 86_400, 3), None);
}

#[test]
fn window_restarts_after_a_quiet_minute() {
    let mut cache = Cache { entry: None };
    assert_eq!(visit(&mut cache, 0, 2), None);
    assert_eq!(visit(&mut cache, 59, 2), None);
    assert_eq!(visit(&mut cache, 59 + 60, 2), None);
    assert_eq!(visit(&mut cache, 59 + 60 + 1, 2), None);
    assert_eq!(visit(&mut cache, 59 + 60 + 2, 2), Some(RateLimitError::Exceeded));
}

#[test]
fn limit_of_zero_admits_nobody() {
    let mut cache = Cache { entry: None };
    assert_eq!(visit(&mut cache, 0, 0), Some(RateLimitError::Exceeded));
    assert_eq!(cache.entry, Some((Rate { count: 0, timeout: true }, 86_400)));
}

#[test]
fn rate_decisions() {
    assert_eq!((WINDOW_TTL, BAN_TTL), (60, 86_400));
    assert_eq!(
        rate_limit_internal(CacheLookup::Miss, 10),
        RateDecision::Admit { rate: Rate { count: 1, timeout: false }, ttl: 60 }
    );
    assert_eq!(
        rate_limit_internal(CacheLookup::Hit(Rate { count: 9, timeout: false }), 10),
        RateDecision::Admit { rate: Rate { count: 10, timeout: false }, ttl: 60 }
    );
    assert_eq!(
        rate_limit_internal(CacheLookup::Hit(Rate { count: 10, timeout: false }), 10),
        RateDecision::Reject { rate: Rate { count: 10, timeout: true }, ttl: 86_400 }
    );
    assert_eq!(
        rate_limit_internal(CacheLookup::Hit(Rate { count: 2, timeout: true }), 10),
        RateDecision::Reject { rate: Rate { count: 2, timeout: true }, ttl: 86_400 }
    );
    assert_eq!(
        rate_limit_internal(CacheLookup::Hit(Rate { count: u32::MAX, timeout: false }), u32::MAX),
        RateDecision::Reject { rate: Rate { count: u32::MAX, timeout: true }, ttl: 86_400 }
    );
    assert_eq!(
        rate_limit_internal(CacheLookup::Hit(Rate { count: u32::MAX - 1, timeout: false }), u32::MAX),
        RateDecision::Admit { rate: Rate { count: u32::MAX, timeout: false }, ttl: 60 }
    );
    assert_eq!(rate_limit_internal(CacheLookup::Corrupt, 10), RateDecision::Purge);
    assert_eq!(RateDecision::Purge.error(), Some(RateLimitError::CorruptCacheRecord));
    assert_eq!(RateLimitError::CorruptCacheRecord.status(), 500);
}

#[test]
fn cache_key_and_control() {
    assert_eq!(
        cache_key("installed-mods", "203.0.113.7"),
        "https://14.installed-mods/203.0.113.7.com"
    );
    assert_eq!(cache_key("", ""), "https://0./.com");
    assert_eq!(cache_key("m", "2001%3Adb8%3A%3A1"), "https://1.m/2001%3Adb8%3A%3A1.com");
    assert_eq!(cache_key("mödß", "x"), "https://4.mödß/x.com");
    assert_eq!(cache_control(WINDOW_TTL), "max-age=60");
    assert_eq!(cache_control(BAN_TTL), "max-age=86400");
}

#[test]
fn cache_key_tells_namespace_and_address() {
    let parts = ["", "a", "b", "ab", "bc", "abc", "/", "a/", "/a", "1", "1.", ".a", "1.a/", ".com"];
    for ident in parts {
        for address in parts {
            for other_ident in parts {
                for other_address in parts {
                    if (ident, address) != (other_ident, other_address) {
                        assert_ne!(
                            cache_key(ident, address),
                            cache_key(other_ident, other_address),
                            "{:?} {:?} {:?} {:?}",
                            ident,
                            address,
                            other_ident,
                            other_address
                        );
                    }
                }
            }
        }
    }
    assert_ne!(cache_key("a", "bc"), cache_key("ab", "c"));
}

#[test]
fn request_without_address_is_not_counted() {
    assert_eq!(rate_limit_key("installed-mods", None), None);
    assert_eq!(
        rate_limit_key("installed-mods", Some("203.0.113.7")),
        Some("https://14.installed-mods/203.0.113.7.com".to_string())
    );
    assert_eq!(rate_limit_key("", Some("")), Some("https://0./.com".to_string()));
}

#[test]
fn amqp_message_carries_payload_in_base64() {
    let message = HTTPAmqp::new("write", "{\"a\":1}");
    assert_eq!(message.routing_key(), "write");
    assert_eq!(message.payload(), "eyJhIjoxfQ==");
    assert_eq!(message.payload_encoding(), "base64");
    assert_eq!(message.properties(), Stub {});
    assert_eq!(base64::decode(message.payload()).unwrap(), b"{\"a\":1}");
    assert_eq!(HTTPAmqp::new("", "").payload(), "");
}

#[test]
fn shared_values() {
    assert_eq!(STARSECTOR_MOD_AUTH, "STARSECTOR_MOD_AUTH");
    let contribution = Contribution::User { user_id: "u".to_string(), value: ScoreKey::Score(3) };
    assert_ne!(contribution, Contribution::Max);
    assert_eq!(contribution.clone(), contribution);
    assert_ne!(ScoreKey::Score(0), ScoreKey::ZeroKey(String::new()));
}

#[test]
fn mod_routes_and_commands() {
    assert_eq!(ModRoutes::parse("init"), ModRoutes::Init);
    assert_eq!(ModRoutes::parse("verified"), ModRoutes::Verified);
    assert_eq!(ModRoutes::parse("add"), ModRoutes::Add);
    assert_eq!(ModRoutes::parse("remove"), ModRoutes::Unknown("remove".to_string()));
    for route in [ModRoutes::Init, ModRoutes::Verified, ModRoutes::Add] {
        assert_eq!(ModRoutes::parse(route.as_str()), route);
    }
    assert_eq!(ModRoutes::Unknown(String::new()).as_str(), "unknown");
    assert_eq!(ModRoutes::Init.method(), Method::Put);
    assert_eq!(ModRoutes::Verified.method(), Method::Get);
    assert_eq!(ModRoutes::Add.method(), Method::Patch);
    assert_eq!(ModRoutes::Unknown(String::new()).method(), Method::Get);
    assert_eq!(ModCommand::from_parts("/init", Method::Put), ModCommand::Init);
    assert_eq!(
        ModCommand::from_parts("/init", Method::Post),
        ModCommand::Refuse(ProtocolError::InvalidMethod)
    );
    assert_eq!(ModCommand::from_parts("/verified", Method::Delete), ModCommand::Verified);
    assert_eq!(ModCommand::from_parts("add", Method::Patch), ModCommand::Add);
    assert_eq!(
        ModCommand::from_parts("/add", Method::Put),
        ModCommand::Refuse(ProtocolError::InvalidMethod)
    );
    assert_eq!(
        ModCommand::from_parts("/mods", Method::Get),
        ModCommand::Refuse(ProtocolError::UnknownRoute("mods".to_string()))
    );
}

#[test]
fn rate_limit_errors_have_their_texts() {
    assert_eq!(
        RateLimitError::Exceeded.message(),
        "Too many requests. Please wait at least 24 hours before making another request."
    );
    assert_eq!(RateLimitError::CorruptCacheRecord.message(), "Cached rate record could not be read");
    assert_eq!(
        rate_limit_internal(CacheLookup::Hit(Rate { count: 3, timeout: false }), 3).error(),
        Some(RateLimitError::Exceeded)
    );
    assert_eq!(rate_limit_internal(CacheLookup::Miss, 3).error(), None);
}
