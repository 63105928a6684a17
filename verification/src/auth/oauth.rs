use super::cache::{chrono_sum, instant_plus_seconds, CachedToken, Timestamp};
use crate::config::AppConfig;
use vstd::prelude::*;
use vstd::string::StringExecFns;

verus! {

/// The path of the token service under its address.
pub const TOKEN_PATH: &'static str = "/oauth2/token";

/// The content type of a request for an access token.
pub const TOKEN_CONTENT_TYPE: &'static str = "application/x-www-form-urlencoded";

/// The request for a new access token: where it is posted and the fields of its form.
#[derive(Debug, Clone, PartialEq, Eq)]
pub struct TokenRequest {
    pub url: String,
    pub grant_type: String,
    pub appkey: String,
    pub appsecretkey: String,
    pub scope: String,
}

/// The cached token where it can still be used at `now`: where one is cached
/// and it expires after `now`.
pub open spec fn usable(cached: Option<CachedToken>, now: Timestamp) -> Option<Seq<char>> {
    match cached {
        Some(token) => if token.expired_at.spec_is_after(now) {
            Some(token.access_token@)
        } else {
            None
        },
        None => None,
    }
}

/// The access token of the cache, where the cache holds one that has not
/// expired at `now`; `None` where a new token must be requested.
pub fn cached_access_token(cached: Option<&CachedToken>, now: Timestamp) -> (token: Option<String>)
    ensures
        token is Some <==> usable(deref_token(cached), now) is Some,
        token matches Some(t) ==> usable(deref_token(cached), now) == Some(t@),
{
    match cached {
        Some(entry) => if entry.expired_at.is_after(&now) {
            Some(entry.access_token.clone())
        } else {
            None
        },
        None => None,
    }
}

/// The cached token behind a reference.
pub open spec fn deref_token(cached: Option<&CachedToken>) -> Option<CachedToken> {
    match cached {
        Some(token) => Some(*token),
        None => None,
    }
}

/// The request that asks the token service of `config` for a new access
/// token, with the client's credentials.
pub fn token_request(config: &AppConfig) -> (request: TokenRequest)
    ensures
        request.url@ == config.token_url@ + TOKEN_PATH@,
        request.grant_type@ == "client_credentials"@,
        request.appkey@ == config.app_key@,
        request.appsecretkey@ == config.app_secret@,
        request.scope@ == "oob"@,
{
    TokenRequest {
        url: config.token_url.clone().concat(TOKEN_PATH),
        grant_type: "client_credentials".to_owned(),
        appkey: config.app_key.clone(),
        appsecretkey: config.app_secret.clone(),
        scope: "oob".to_owned(),
    }
}

/// The cache entry for a token that was issued at `now` and is valid for
/// `expires_in` seconds: it expires that many seconds after `now`. There is
/// none where that instant cannot be represented.
pub fn issued_token(access_token: String, expires_in: u64, now: Timestamp) -> (entry: Option<CachedToken>)
    ensures
        entry is Some <==> chrono_sum(now, expires_in as i64) is Some,
        entry matches Some(token) ==> token.access_token == access_token && Some(token.expired_at)
            == chrono_sum(now, expires_in as i64),
{
    let seconds = #[verifier::truncate] (expires_in as i64);
    match instant_plus_seconds(now, seconds) {
        Some(expired_at) => Some(CachedToken { access_token, expired_at }),
        None => None,
    }
}

} // verus!
