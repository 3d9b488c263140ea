//! The rate limiter: how many requests a client may make in a window, and
//! the ban that follows one request too many.
//!
//! The limiter keeps one [`Rate`] per client in a cache that forgets an entry
//! when its time to live has run out. The cache is local to one region, so
//! the limit holds per region, not for the network as a whole.

use crate::cache::Rate;
use crate::text::{
    decimal, decimal_text, decimal_text_u32, decimal_usize, decimal_value, is_digit,
    lemma_decimal_text_value, lemma_first_position_is,
};
use vstd::prelude::*;
use vstd::string::StringExecFns;

verus! {

/// Seconds for which the cache keeps the record of a client that is not banned.
pub const WINDOW_TTL: u32 = 60;

/// Seconds for which the cache keeps the record of a banned client.
pub const BAN_TTL: u32 = 86_400;

/// Name of the request header that carries the client's address.
pub const CLIENT_ADDRESS_HEADER: &'static str = "CF-Connecting-IP";

/// What a rate-limited request is answered with.
#[derive(Clone, Copy, Debug, PartialEq, Eq, Structural)]
pub enum RateLimitError {
    /// The client made too many requests, or is banned; status 429.
    Exceeded,
    /// The cached record could not be read; it is deleted and the request fails, status 500.
    CorruptCacheRecord,
}

impl RateLimitError {
    /// HTTP status that reports the error.
    pub open spec fn spec_status(self) -> u16 {
        match self {
            RateLimitError::Exceeded => 429,
            RateLimitError::CorruptCacheRecord => 500,
        }
    }

    /// HTTP status that reports the error.
    #[verifier::when_used_as_spec(spec_status)]
    pub fn status(self) -> (code: u16)
        ensures
            code == self.spec_status(),
    {
        match self {
            RateLimitError::Exceeded => 429,
            RateLimitError::CorruptCacheRecord => 500,
        }
    }

    /// The text that reports the error.
    pub fn message(self) -> (text: &'static str)
        ensures
            text@ == match self {
                RateLimitError::Exceeded => "Too many requests. Please wait at least 24 hours before making another request."@,
                RateLimitError::CorruptCacheRecord => "Cached rate record could not be read"@,
            },
    {
        match self {
            RateLimitError::Exceeded => "Too many requests. Please wait at least 24 hours before making another request.",
            RateLimitError::CorruptCacheRecord => "Cached rate record could not be read",
        }
    }
}

/// What the cache held under the client's key.
#[derive(Clone, Copy, Debug, PartialEq, Eq, Structural)]
pub enum CacheLookup {
    /// Nothing.
    Miss,
    /// The client's record.
    Hit(Rate),
    /// Something that is no record.
    Corrupt,
}

/// What the limiter decides on a request, and what the host has to do to the cache.
#[derive(Clone, Copy, Debug, PartialEq, Eq, Structural)]
pub enum RateDecision {
    /// Let the request pass, and store `rate` for `ttl` seconds.
    Admit { rate: Rate, ttl: u32 },
    /// Answer with [`RateLimitError::Exceeded`], and store `rate` for `ttl` seconds.
    Reject { rate: Rate, ttl: u32 },
    /// Delete the entry and fail with [`RateLimitError::CorruptCacheRecord`].
    Purge,
}

impl RateDecision {
    /// The error that the request is answered with, if it does not pass.
    pub open spec fn spec_error(self) -> Option<RateLimitError> {
        match self {
            RateDecision::Admit { .. } => None,
            RateDecision::Reject { .. } => Some(RateLimitError::Exceeded),
            RateDecision::Purge => Some(RateLimitError::CorruptCacheRecord),
        }
    }

    /// The error that the request is answered with, if it does not pass.
    #[verifier::when_used_as_spec(spec_error)]
    pub fn error(self) -> (error: Option<RateLimitError>)
        ensures
            error == self.spec_error(),
    {
        match self {
            RateDecision::Admit { .. } => None,
            RateDecision::Reject { .. } => Some(RateLimitError::Exceeded),
            RateDecision::Purge => Some(RateLimitError::CorruptCacheRecord),
        }
    }
}

/// The record that a lookup stands for: a miss counts as no request seen and no ban.
pub open spec fn seen(lookup: CacheLookup) -> Option<Rate> {
    match lookup {
        CacheLookup::Miss => Some(Rate { count: 0, timeout: false }),
        CacheLookup::Hit(rate) => Some(rate),
        CacheLookup::Corrupt => None,
    }
}

/// The limiter's rule. A client that is banned, or has made `limit` requests
/// in the window, is banned for [`BAN_TTL`] seconds and rejected. Any other
/// request is counted and admitted, and the record kept for [`WINDOW_TTL`]
/// seconds. A record that cannot be read is deleted, and the request fails.
pub open spec fn rate_decision(lookup: CacheLookup, limit: u32) -> RateDecision {
    match seen(lookup) {
        None => RateDecision::Purge,
        Some(rate) => if rate.count >= limit || rate.timeout {
            RateDecision::Reject { rate: Rate { count: rate.count, timeout: true }, ttl: BAN_TTL }
        } else {
            RateDecision::Admit {
                rate: Rate { count: (rate.count + 1) as u32, timeout: false },
                ttl: WINDOW_TTL,
            }
        },
    }
}

/// Decides on a request of a client whose cache entry is `lookup`, under the limit `limit`.
pub fn rate_limit_internal(lookup: CacheLookup, limit: u32) -> (decision: RateDecision)
    ensures
        decision == rate_decision(lookup, limit),
{
    let rate = match lookup {
        CacheLookup::Miss => Rate { count: 0, timeout: false },
        CacheLookup::Hit(rate) => rate,
        CacheLookup::Corrupt => {
            return RateDecision::Purge;
        },
    };
    if rate.count >= limit || rate.timeout {
        RateDecision::Reject { rate: Rate { count: rate.count, timeout: true }, ttl: BAN_TTL }
    } else {
        RateDecision::Admit { rate: Rate { count: rate.count + 1, timeout: false }, ttl: WINDOW_TTL }
    }
}

/// The cache key of a client: a URL made of the namespace `ident`, which
/// keeps the counters of different endpoints apart, and of the client's
/// `address`. The namespace is led by its length and parted from the
/// address by a slash, so that no two pairs of namespace and address share
/// a key.
pub open spec fn cache_key_spec(ident: Seq<char>, address: Seq<char>) -> Seq<char> {
    "https://"@ + decimal_text(ident.len()) + "."@ + ident + "/"@ + address + ".com"@
}

/// The key tells namespace and address: two requests have the same key only
/// if they have the same namespace and the same address. The counter of one
/// endpoint or client is therefore never another's.
pub proof fn lemma_cache_key_injective(
    ident: Seq<char>,
    address: Seq<char>,
    other_ident: Seq<char>,
    other_address: Seq<char>,
)
    requires
        cache_key_spec(ident, address) == cache_key_spec(other_ident, other_address),
    ensures
        ident == other_ident,
        address == other_address,
{
    reveal_strlit("https://");
    reveal_strlit(".");
    reveal_strlit("/");
    reveal_strlit(".com");
    let scheme = "https://"@;
    let digits = decimal_text(ident.len());
    let other_digits = decimal_text(other_ident.len());
    lemma_decimal_text_value(ident.len());
    lemma_decimal_text_value(other_ident.len());
    let rest = digits + "."@ + ident + "/"@ + address + ".com"@;
    let other_rest = other_digits + "."@ + other_ident + "/"@ + other_address + ".com"@;
    assert(cache_key_spec(ident, address).skip(scheme.len() as int) =~= rest);
    assert(cache_key_spec(other_ident, other_address).skip(scheme.len() as int) =~= other_rest);
    assert(rest == other_rest);
    let at = digits.len() as int;
    let other_at = other_digits.len() as int;
    assert(rest[at] == '.');
    assert(other_rest[other_at] == '.');
    assert forall|j: int| 0 <= j < at implies rest[j] != '.' by {
        assert(rest[j] == digits[j]);
        assert(is_digit(digits[j]));
    }
    assert forall|j: int| 0 <= j < other_at implies other_rest[j] != '.' by {
        assert(other_rest[j] == other_digits[j]);
        assert(is_digit(other_digits[j]));
    }
    lemma_first_position_is(rest, '.', at);
    lemma_first_position_is(other_rest, '.', other_at);
    assert(at == other_at);
    assert(digits =~= rest.take(at));
    assert(other_digits =~= other_rest.take(other_at));
    assert(ident.len() == decimal_value(digits));
    assert(other_ident.len() == decimal_value(other_digits));
    let n = ident.len() as int;
    assert(ident =~= rest.subrange(at + 1, at + 1 + n));
    assert(other_ident =~= other_rest.subrange(at + 1, at + 1 + n));
    let tail = address + ".com"@;
    let other_tail = other_address + ".com"@;
    assert(tail =~= rest.skip(at + 1 + n + 1));
    assert(other_tail =~= other_rest.skip(at + 1 + n + 1));
    assert(tail.len() == other_tail.len());
    assert(address =~= tail.take(address.len() as int));
    assert(other_address =~= other_tail.take(other_address.len() as int));
}

/// Builds the cache key of a client: `ident` is the namespace of the
/// endpoint that is limited, `address` the client's address, encoded for
/// use in a URL.
pub fn cache_key(ident: &str, address: &str) -> (key: String)
    ensures
        key@ == cache_key_spec(ident@, address@),
{
    let mut key = String::from_str("https://");
    key.append(decimal_usize(ident.unicode_len()).as_str());
    key.append(".");
    key.append(ident);
    key.append("/");
    key.append(address);
    key.append(".com");
    key
}

/// First step of the limiter: the cache key under which a request is
/// counted. A request that tells no client address is not counted and
/// passes; it has no key.
pub fn rate_limit_key(ident: &str, address: Option<&str>) -> (key: Option<String>)
    ensures
        match address {
            Some(client) => key matches Some(text) && text@ == cache_key_spec(ident@, client@),
            None => key is None,
        },
{
    match address {
        Some(client) => Some(cache_key(ident, client)),
        None => None,
    }
}

/// The `cache-control` value that makes the cache keep an entry for `ttl` seconds.
pub fn cache_control(ttl: u32) -> (value: String)
    ensures
        value@ == "max-age="@ + decimal_text_u32(ttl),
{
    let mut value = String::from_str("max-age=");
    value.append(decimal(ttl).as_str());
    value
}

/// One entry of the cache: the record, and the second at which the cache forgets it.
pub struct CacheSlot {
    pub rate: Rate,
    pub expires: int,
}

/// What a lookup at the second `now` finds in `slot`.
pub open spec fn observed(slot: Option<CacheSlot>, now: int) -> CacheLookup {
    match slot {
        Some(entry) => if now < entry.expires {
            CacheLookup::Hit(entry.rate)
        } else {
            CacheLookup::Miss
        },
        None => CacheLookup::Miss,
    }
}

/// Whether a request at the second `now` passes.
pub open spec fn admits(slot: Option<CacheSlot>, now: int, limit: u32) -> bool {
    rate_decision(observed(slot, now), limit) is Admit
}

/// The client's entry after a request at the second `now`.
pub open spec fn after_request(slot: Option<CacheSlot>, now: int, limit: u32) -> Option<
    CacheSlot,
> {
    match rate_decision(observed(slot, now), limit) {
        RateDecision::Admit { rate, ttl } => Some(CacheSlot { rate, expires: now + ttl }),
        RateDecision::Reject { rate, ttl } => Some(CacheSlot { rate, expires: now + ttl }),
        RateDecision::Purge => None,
    }
}

/// The client's entry after requests at the seconds `times`, one after the other.
pub open spec fn after_requests(slot: Option<CacheSlot>, times: Seq<int>, limit: u32) -> Option<
    CacheSlot,
>
    decreases times.len(),
{
    if times.len() == 0 {
        slot
    } else {
        after_request(after_requests(slot, times.drop_last(), limit), times.last(), limit)
    }
}

/// Whether each of `times` is no earlier than the one before it and less
/// than [`WINDOW_TTL`] seconds after it.
pub open spec fn within_window(times: Seq<int>) -> bool {
    forall|k: int|
        0 < k < times.len() ==> times[k - 1] <= #[trigger] times[k] < times[k - 1] + WINDOW_TTL
}

/// A ban holds: a request of a banned client whose entry the cache still
/// keeps is rejected, and the ban then lasts for [`BAN_TTL`] seconds from
/// that request.
pub proof fn lemma_ban_holds(slot: CacheSlot, now: int, limit: u32)
    requires
        slot.rate.timeout,
        now < slot.expires,
    ensures
        !admits(Some(slot), now, limit),
        rate_decision(observed(Some(slot), now), limit).spec_error() == Some(
            RateLimitError::Exceeded,
        ),
        after_request(Some(slot), now, limit) matches Some(entry) && entry.rate.timeout
            && entry.expires == now + BAN_TTL,
{
}

/// The threshold: of the requests that a client new to the cache makes
/// within the window of one another, the first `limit` pass, each counted,
/// and the next one is rejected and bans the client.
pub proof fn lemma_threshold(times: Seq<int>, limit: u32)
    requires
        within_window(times),
        times.len() <= limit,
    ensures
        forall|k: int|
            0 <= k < times.len() ==> admits(
                #[trigger] after_requests(None, times.take(k), limit),
                times[k],
                limit,
            ),
        times.len() > 0 ==> after_requests(None, times, limit) == Some(
            CacheSlot {
                rate: Rate { count: times.len() as u32, timeout: false },
                expires: times.last() + WINDOW_TTL,
            },
        ),
        times.len() == 0 ==> after_requests(None, times, limit) is None,
        times.len() == limit ==> forall|next: int|
            (times.len() > 0 ==> times.last() <= next < times.last() + WINDOW_TTL) ==> {
                &&& !#[trigger] admits(after_requests(None, times, limit), next, limit)
                &&& after_request(after_requests(None, times, limit), next, limit) == Some(
                    CacheSlot {
                        rate: Rate { count: limit, timeout: true },
                        expires: next + BAN_TTL,
                    },
                )
            },
    decreases times.len(),
{
    if times.len() > 0 {
        let front = times.drop_last();
        assert forall|k: int| 0 < k < front.len() implies front[k - 1] <= #[trigger] front[k]
            < front[k - 1] + WINDOW_TTL by {
            assert(front[k] == times[k]);
        }
        lemma_threshold(front, limit);
        assert(times.take(times.len() - 1) =~= front);
        assert forall|k: int| 0 <= k < times.len() implies admits(
            #[trigger] after_requests(None, times.take(k), limit),
            times[k],
            limit,
        ) by {
            if k < front.len() {
                assert(front.take(k) =~= times.take(k));
                assert(front[k] == times[k]);
            } else {
                assert(times.take(k) =~= front);
                if front.len() > 0 {
                    assert(times[k - 1] == front.last());
                }
            }
        }
        if front.len() > 0 {
            assert(times[times.len() - 2] == front.last());
        }
    }
}

} // verus!
