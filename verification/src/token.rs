//! The access token and the single slot that caches it.

use vstd::prelude::*;
use vstd::string::*;
use crate::error::opt_text;

verus! {

/// The seconds by which a token is taken to expire before the server says
/// it does.
pub const EXPIRY_MARGIN_SECS: u64 = 60;

/// What the token endpoint grants.
#[derive(Debug)]
pub struct TokenGrant {
    /// The bearer token.
    pub access_token: String,
    /// The seconds for which the server honours it.
    pub expires_in: u64,
}

/// A token with the time until which it is used.
#[derive(Debug)]
pub struct TokenInfo {
    /// The bearer token.
    pub access_token: String,
    /// The time, in milliseconds, from which the token is no longer used.
    pub expires_at_ms: u128,
}

/// The cache of one client: at most one token.
#[derive(Debug)]
pub struct TokenCache {
    slot: Option<TokenInfo>,
}

/// The time from which a token granted at `now_ms` for `expires_in` seconds
/// is no longer used: the margin earlier than the server's own expiry, and
/// not before `now_ms`.
pub open spec fn expiry_of(now_ms: u64, expires_in: u64) -> nat {
    if expires_in > EXPIRY_MARGIN_SECS {
        (now_ms + (expires_in - EXPIRY_MARGIN_SECS) * 1000) as nat
    } else {
        now_ms as nat
    }
}

impl View for TokenCache {
    type V = Option<(Seq<char>, nat)>;

    /// The cached token and its expiry, if there is one.
    closed spec fn view(&self) -> Option<(Seq<char>, nat)> {
        match self.slot {
            Some(info) => Some((info.access_token@, info.expires_at_ms as nat)),
            None => None,
        }
    }
}

/// The token that a slot offers at `now_ms`: the one it holds, as long as
/// `now_ms` is before its expiry.
pub open spec fn offered(slot: Option<(Seq<char>, nat)>, now_ms: u64) -> Option<Seq<char>> {
    match slot {
        Some((token, expires_at)) => if now_ms < expires_at {
            Some(token)
        } else {
            None
        },
        None => None,
    }
}

/// The exchanges that are made when callers come by one after the other, at
/// `times`: each looks into the slot first and, only where it offers
/// nothing, makes an exchange and stores what it brought, `token` for
/// `expires_in` seconds.
pub open spec fn exchanges_made(
    slot: Option<(Seq<char>, nat)>,
    times: Seq<u64>,
    token: Seq<char>,
    expires_in: u64,
) -> nat
    decreases times.len(),
{
    if times.len() == 0 {
        0
    } else if offered(slot, times[0]) is Some {
        exchanges_made(slot, times.skip(1), token, expires_in)
    } else {
        1 + exchanges_made(
            Some((token, expiry_of(times[0], expires_in))),
            times.skip(1),
            token,
            expires_in,
        )
    }
}

impl TokenCache {
    /// The token that the cache offers at `now_ms`.
    pub open spec fn token_at(self, now_ms: u64) -> Option<Seq<char>> {
        offered(self@, now_ms)
    }

    /// An empty cache.
    pub fn new() -> (cache: Self)
        ensures
            cache@ is None,
    {
        TokenCache { slot: None }
    }

    /// The cached token, if it is still to be used at `now_ms`.
    pub fn get(&self, now_ms: u64) -> (token: Option<String>)
        ensures
            opt_text(token) == self.token_at(now_ms),
    {
        match &self.slot {
            Some(info) => if (now_ms as u128) < info.expires_at_ms {
                Some(info.access_token.clone())
            } else {
                None
            },
            None => None,
        }
    }

    /// Replaces whatever the cache holds by the token granted at `now_ms`,
    /// and returns that token.
    pub fn store(&mut self, grant: TokenGrant, now_ms: u64) -> (token: String)
        ensures
            final(self)@ == Some((grant.access_token@, expiry_of(now_ms, grant.expires_in))),
            token@ == grant.access_token@,
    {
        let lifetime: u64 = if grant.expires_in > EXPIRY_MARGIN_SECS {
            grant.expires_in - EXPIRY_MARGIN_SECS
        } else {
            0
        };
        let expires_at_ms: u128 = (now_ms as u128) + (lifetime as u128) * 1000;
        let token = grant.access_token.clone();
        self.slot = Some(TokenInfo { access_token: grant.access_token, expires_at_ms });
        token
    }

    /// A token stored at `now_ms` is offered at every time from then until
    /// its expiry, and at no time from its expiry on.
    pub proof fn lemma_token_is_reused_until_expiry(
        self,
        token: Seq<char>,
        now_ms: u64,
        expires_in: u64,
        later_ms: u64,
    )
        requires
            self@ == Some((token, expiry_of(now_ms, expires_in))),
        ensures
            later_ms < expiry_of(now_ms, expires_in) ==> self.token_at(later_ms) == Some(token),
            later_ms >= expiry_of(now_ms, expires_in) ==> self.token_at(later_ms) is None,
    {
    }
}

/// A token is taken to expire the margin before the server lets it expire:
/// sixty seconds early, for every lifetime of at least that margin.
pub proof fn lemma_expiry_keeps_the_margin(now_ms: u64, expires_in: u64)
    requires
        expires_in >= EXPIRY_MARGIN_SECS,
    ensures
        expiry_of(now_ms, expires_in) + EXPIRY_MARGIN_SECS * 1000 == now_ms + expires_in * 1000,
{
}

/// While the cached token is good, no caller makes an exchange, however
/// many come by.
pub proof fn lemma_cached_token_serves_all(
    cached: Seq<char>,
    expires_at: nat,
    times: Seq<u64>,
    token: Seq<char>,
    expires_in: u64,
)
    requires
        forall|i: int| 0 <= i < times.len() ==> #[trigger] times[i] < expires_at,
    ensures
        exchanges_made(Some((cached, expires_at)), times, token, expires_in) == 0,
    decreases times.len(),
{
    if times.len() > 0 {
        assert(times[0] < expires_at);
        let rest = times.skip(1);
        assert forall|i: int| 0 <= i < rest.len() implies #[trigger] rest[i] < expires_at by {
            assert(rest[i] == times[i + 1]);
        }
        lemma_cached_token_serves_all(cached, expires_at, rest, token, expires_in);
    }
}

/// Of any number of callers that find the cache empty and come by, one
/// after the other, before the first one's token expires, exactly one makes
/// an exchange.
pub proof fn lemma_one_exchange_serves_all(times: Seq<u64>, token: Seq<char>, expires_in: u64)
    requires
        times.len() > 0,
        forall|i: int|
            0 <= i < times.len() ==> #[trigger] times[i] < expiry_of(times[0], expires_in),
    ensures
        exchanges_made(None, times, token, expires_in) == 1,
{
    let rest = times.skip(1);
    assert forall|i: int| 0 <= i < rest.len() implies #[trigger] rest[i] < expiry_of(
        times[0],
        expires_in,
    ) by {
        assert(rest[i] == times[i + 1]);
    }
    lemma_cached_token_serves_all(
        token,
        expiry_of(times[0], expires_in),
        rest,
        token,
        expires_in,
    );
}

} // verus!
