//! Authentication: reads the credentials that a request claims and
//! holds the password against the one that the user's actor stores.

use crate::codec::{base64_decode, base64_decoded, base64_encode, base64_encoded};
use crate::text::{
    lemma_first_position_is, split_once, split_once_spec, strip_prefix, strip_prefix_spec,
};
use vstd::prelude::*;
use vstd::string::StringExecFns;
use vstd::utf8::{decode_utf8, encode_utf8, valid_utf8};

verus! {

/// Name of the request header that carries the credentials.
pub const AUTHORIZATION_HEADER: &'static str = "Authorization";

/// What the value of the header has to start with.
pub const BASIC_PREFIX: &'static str = "Basic ";

/// Why a request is not authenticated.
#[derive(Clone, Copy, Debug, PartialEq, Eq, Structural)]
pub enum AuthError {
    /// No credentials, or none that can be read; status 400.
    MissingOrMalformedHeader,
    /// The password is not the user's, or there is no such user; status 401.
    InvalidCredentials,
}

impl AuthError {
    /// HTTP status that reports the error.
    pub open spec fn spec_status(self) -> u16 {
        match self {
            AuthError::MissingOrMalformedHeader => 400,
            AuthError::InvalidCredentials => 401,
        }
    }

    /// HTTP status that reports the error.
    #[verifier::when_used_as_spec(spec_status)]
    pub fn status(self) -> (code: u16)
        ensures
            code == self.spec_status(),
    {
        match self {
            AuthError::MissingOrMalformedHeader => 400,
            AuthError::InvalidCredentials => 401,
        }
    }

    /// The text that reports the error.
    pub fn message(self) -> (text: &'static str)
        ensures
            text@ == match self {
                AuthError::MissingOrMalformedHeader => "Authorization header malformed or missing"@,
                AuthError::InvalidCredentials => "Invalid username or password"@,
            },
    {
        match self {
            AuthError::MissingOrMalformedHeader => "Authorization header malformed or missing",
            AuthError::InvalidCredentials => "Invalid username or password",
        }
    }
}

/// The user and the password that a decoded payload names: the payload is
/// UTF-8 text, and its first `:` parts the user from the password.
pub open spec fn payload_credentials(payload: Seq<u8>) -> Option<(Seq<char>, Seq<char>)> {
    if valid_utf8(payload) {
        split_once_spec(decode_utf8(payload), ':')
    } else {
        None
    }
}

/// The user and the password that the value of an `Authorization` header
/// names: the value is `Basic `, followed by the Base64 of `user:password`.
pub open spec fn header_credentials(header: Seq<char>) -> Option<(Seq<char>, Seq<char>)> {
    match strip_prefix_spec(header, BASIC_PREFIX@) {
        Some(encoded) => match base64_decoded(encoded) {
            Some(payload) => payload_credentials(payload),
            None => None,
        },
        None => None,
    }
}

/// The verdict on a password, held against the one that the user's
/// actor stores; `stored` is `None` where there is no such user.
pub open spec fn password_verdict(supplied: Seq<char>, stored: Option<Seq<char>>) -> Option<
    AuthError,
> {
    if stored == Some(supplied) {
        None
    } else {
        Some(AuthError::InvalidCredentials)
    }
}

/// The verdict on a request with the `Authorization` header `header`,
/// where `stored` is the password that the actor of the user named in the
/// header stores. `None` lets the request pass.
pub open spec fn auth_verdict(header: Option<Seq<char>>, stored: Option<Seq<char>>) -> Option<
    AuthError,
> {
    match header {
        Some(value) => match header_credentials(value) {
            Some((_, password)) => password_verdict(password, stored),
            None => Some(AuthError::MissingOrMalformedHeader),
        },
        None => Some(AuthError::MissingOrMalformedHeader),
    }
}

/// Reads user and password from a decoded payload.
pub fn credentials_from_payload(payload: Vec<u8>) -> (credentials: Option<(String, String)>)
    ensures
        match credentials {
            Some((user, password)) => payload_credentials(payload@) == Some((user@, password@)),
            None => payload_credentials(payload@) is None,
        },
{
    match String::from_utf8(payload) {
        Ok(text) => match split_once(text.as_str(), ':') {
            Some((user, password)) => Some((user.to_owned(), password.to_owned())),
            None => None,
        },
        Err(_) => None,
    }
}

/// Reads user and password from the value of an `Authorization` header.
pub fn parse_auth_header(auth: &str) -> (credentials: Option<(String, String)>)
    ensures
        match credentials {
            Some((user, password)) => header_credentials(auth@) == Some((user@, password@)),
            None => header_credentials(auth@) is None,
        },
{
    match strip_prefix(auth, BASIC_PREFIX) {
        Some(encoded) => match base64_decode(encoded) {
            Ok(payload) => credentials_from_payload(payload),
            Err(_) => None,
        },
        None => None,
    }
}

/// First step of authentication: the credentials that a request claims, from its
/// `Authorization` header, if it has one.
pub fn claimed_credentials(header: Option<&str>) -> (credentials: Result<
    (String, String),
    AuthError,
>)
    ensures
        match credentials {
            Ok((user, password)) => header matches Some(value) && header_credentials(value@)
                == Some((user@, password@)),
            Err(error) => error == AuthError::MissingOrMalformedHeader && (header matches Some(
                value,
            ) ==> header_credentials(value@) is None),
        },
{
    match header {
        Some(value) => match parse_auth_header(value) {
            Some(credentials) => Ok(credentials),
            None => Err(AuthError::MissingOrMalformedHeader),
        },
        None => Err(AuthError::MissingOrMalformedHeader),
    }
}

/// Second step of authentication: holds the claimed password against the stored
/// one; `stored` is `None` where there is no such user. `None` lets the
/// request pass.
pub fn check_password(supplied: &str, stored: Option<&str>) -> (verdict: Option<AuthError>)
    ensures
        verdict == password_verdict(
            supplied@,
            match stored {
                Some(password) => Some(password@),
                None => None,
            },
        ),
{
    match stored {
        Some(password) => if password.eq(supplied) {
            None
        } else {
            Some(AuthError::InvalidCredentials)
        },
        None => Some(AuthError::InvalidCredentials),
    }
}

/// Authentication as a whole. `resolve` looks up the password that the actor of a user
/// stores, and answers `None` where there is no such user. `None` lets the
/// request pass.
///
/// A request without readable credentials is turned away before anybody is
/// looked up.
pub fn authenticate_internal<F: FnOnce(&str) -> Option<String>>(
    header: Option<&str>,
    resolve: F,
) -> (verdict: Option<AuthError>)
    requires
        forall|user: &str| call_requires(resolve, (user,)),
    ensures
        match header {
            Some(value) => match header_credentials(value@) {
                Some((user, password)) => exists|name: &str, stored: Option<String>|
                    {
                        &&& name@ == user
                        &&& #[trigger] call_ensures(resolve, (name,), stored)
                        &&& verdict == password_verdict(
                            password,
                            match stored {
                                Some(s) => Some(s@),
                                None => None,
                            },
                        )
                    },
                None => verdict == Some(AuthError::MissingOrMalformedHeader),
            },
            None => verdict == Some(AuthError::MissingOrMalformedHeader),
        },
{
    match claimed_credentials(header) {
        Ok((user, password)) => {
            let stored = resolve(user.as_str());
            match &stored {
                Some(known) => check_password(password.as_str(), Some(known.as_str())),
                None => check_password(password.as_str(), None),
            }
        },
        Err(error) => Some(error),
    }
}

/// The value of the `Authorization` header that claims `user` and `password`.
///
/// Where `user` holds no `:`, `header_credentials` reads the same user and password back from it.
pub fn basic_authorization(user: &str, password: &str) -> (header: String)
    ensures
        header@ == BASIC_PREFIX@ + base64_encoded(encode_utf8(user@ + ":"@ + password@)),
        !user@.contains(':') ==> header_credentials(header@) == Some((user@, password@)),
{
    broadcast use vstd::utf8::encode_utf8_valid_utf8;
    broadcast use vstd::utf8::encode_utf8_decode_utf8;

    let mut payload = String::from_str(user);
    payload.append(":");
    payload.append(password);
    let encoded = base64_encode(payload.as_str().as_bytes());
    let mut header = String::from_str(BASIC_PREFIX);
    header.append(encoded.as_str());
    proof {
        let text = user@ + ":"@ + password@;
        assert(payload@ == text);
        assert(header@ == BASIC_PREFIX@ + encoded@);
        assert(BASIC_PREFIX@.is_prefix_of(header@)) by {
            assert(header@.subrange(0, BASIC_PREFIX@.len() as int) =~= BASIC_PREFIX@);
        }
        assert(header@.skip(BASIC_PREFIX@.len() as int) =~= encoded@);
        assert(valid_utf8(encode_utf8(text)));
        assert(decode_utf8(encode_utf8(text)) == text);
        if !user@.contains(':') {
            reveal_strlit(":");
            let at = user@.len() as int;
            assert(text[at] == ':');
            assert forall|j: int| 0 <= j < at implies text[j] != ':' by {
                assert(text[j] == user@[j]);
                assert(user@.contains(user@[j]));
            }
            lemma_first_position_is(text, ':', at);
            assert(text.take(at) =~= user@);
            assert(text.skip(at + 1) =~= password@);
        }
    }
    header
}

/// The round trip of the credentials: a user whose request claims the
/// password that their actor stores is let through, and with any other
/// password the request is turned away as unauthorised, whatever the header
/// looks like otherwise.
pub proof fn lemma_auth_round_trip(
    header: Seq<char>,
    user: Seq<char>,
    password: Seq<char>,
    stored: Seq<char>,
)
    requires
        header_credentials(header) == Some((user, password)),
    ensures
        stored == password ==> auth_verdict(Some(header), Some(stored)) is None,
        stored != password ==> auth_verdict(Some(header), Some(stored)) == Some(
            AuthError::InvalidCredentials,
        ),
        auth_verdict(Some(header), None) == Some(AuthError::InvalidCredentials),
{
}

} // verus!
