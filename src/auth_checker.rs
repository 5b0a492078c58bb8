//! The decisions of the layer that guards protected requests: find the
//! bearer token, check it as an auth token, and confirm that its device is
//! still registered before the handler runs.

use vstd::prelude::*;
use std::marker::PhantomData;
use crate::claims::{lit_at, lit_here};
use crate::config::JwtConfig;
use crate::error::{ErrorCode, MatrixError, STATUS_UNAUTHORIZED};
use crate::mock_store::MockStore;
use crate::store::{Error as StorageError, Store};
use crate::text::{chars_of, substring_of};
use crate::token::{auth_token_claims, AuthToken};

verus! {

/// The first position at or after `k` where `pat` stands in `s`.
pub open spec fn find_from(s: Seq<char>, pat: Seq<char>, k: int) -> Option<int>
    decreases s.len() - k,
{
    if k < 0 || k >= s.len() || k + pat.len() > s.len() {
        None
    } else if lit_at(s, k, pat) {
        Some(k)
    } else {
        find_from(s, pat, k + 1)
    }
}

pub open spec fn bearer_prefix() -> Seq<char> {
    "Bearer "@
}

/// The token in an `Authorization` header value: the text between the
/// first `Bearer ` and the next one, or the end.
pub open spec fn bearer_token(h: Seq<char>) -> Option<Seq<char>> {
    match find_from(h, bearer_prefix(), 0) {
        None => None,
        Some(k) => {
            let start = k + bearer_prefix().len();
            match find_from(h, bearer_prefix(), start) {
                Some(e) => Some(h.subrange(start, e)),
                None => Some(h.subrange(start, h.len() as int)),
            }
        },
    }
}

/// The pairs that serde_urlencoded reads from a query string, decoded, in
/// order; `None` when it refuses the string.
pub uninterp spec fn urlencoded_pairs(q: Seq<char>) -> Option<Seq<(Seq<char>, Seq<char>)>>;

/// The text of each pair.
pub open spec fn pairs_view(v: Seq<(String, String)>) -> Seq<(Seq<char>, Seq<char>)> {
    v.map_values(|p: (String, String)| (p.0@, p.1@))
}

/// Relies on serde_urlencoded's `from_str` into a list of string pairs.
#[verifier::external_body]
fn query_pairs(q: &str) -> (r: Option<Vec<(String, String)>>)
    ensures
        r is None <==> urlencoded_pairs(q@) is None,
        r matches Some(v) ==> urlencoded_pairs(q@) == Some(pairs_view(v@)),
{
    serde_urlencoded::from_str::<Vec<(String, String)>>(q).ok()
}

/// The value of the first pair whose key is `key`, from position `i` on.
pub open spec fn first_value(ps: Seq<(Seq<char>, Seq<char>)>, key: Seq<char>, i: int) -> Option<
    Seq<char>,
>
    decreases ps.len() - i,
{
    if i < 0 || i >= ps.len() {
        None
    } else if ps[i].0 == key {
        Some(ps[i].1)
    } else {
        first_value(ps, key, i + 1)
    }
}

/// The token in the `access_token` parameter of a query string.
pub open spec fn query_token(q: Seq<char>) -> Option<Seq<char>> {
    match urlencoded_pairs(q) {
        None => None,
        Some(ps) => first_value(ps, "access_token"@, 0),
    }
}

/// The token of a request: from the `Authorization` header when it holds a
/// bearer token, else from the query string.
pub open spec fn request_token(authorization: Option<Seq<char>>, query: Seq<char>) -> Option<
    Seq<char>,
> {
    match authorization {
        Some(h) => match bearer_token(h) {
            Some(t) => Some(t),
            None => query_token(query),
        },
        None => query_token(query),
    }
}

fn find(s: &Vec<char>, pat: &str, start: usize) -> (r: Option<usize>)
    requires
        pat@.len() > 0,
    ensures
        match find_from(s@, pat@, start as int) {
            Some(k) => r == Some(k as usize),
            None => r is None,
        },
{
    let n = pat.unicode_len();
    let mut k = start;
    if n > s.len() || k > s.len() - n {
        return None;
    }
    while n <= s.len() && k <= s.len() - n
        invariant
            n == pat@.len(),
            n > 0,
            start <= k,
            find_from(s@, pat@, start as int) == find_from(s@, pat@, k as int),
        decreases s.len() - k,
    {
        if lit_here(s, k, pat) {
            return Some(k);
        }
        k = k + 1;
    }
    None
}

/// The token in an `Authorization` header value.
pub fn get_token_from_header(header: &str) -> (r: Option<String>)
    ensures
        match bearer_token(header@) {
            Some(t) => r matches Some(v) && v@ == t,
            None => r is None,
        },
{
    let s = chars_of(header);
    proof {
        reveal_strlit("Bearer ");
        lemma_find_from_bounds(s@, bearer_prefix(), 0);
    }
    let k = match find(&s, "Bearer ", 0) {
        Some(k) => k,
        None => return None,
    };
    assert(k + 7 <= s.len());
    let start = k + "Bearer ".unicode_len();
    match find(&s, "Bearer ", start) {
        Some(e) => {
            proof {
                lemma_find_from_bounds(s@, bearer_prefix(), start as int);
            }
            Some(substring_of(&s, start, e))
        },
        None => Some(substring_of(&s, start, s.len())),
    }
}

proof fn lemma_find_from_bounds(s: Seq<char>, pat: Seq<char>, k: int)
    requires
        pat.len() > 0,
    ensures
        find_from(s, pat, k) matches Some(e) ==> k <= e && e + pat.len() <= s.len(),
    decreases s.len() - k,
{
    if k < 0 || k >= s.len() || k + pat.len() > s.len() {
    } else if lit_at(s, k, pat) {
    } else {
        lemma_find_from_bounds(s, pat, k + 1);
    }
}

/// The token in the `access_token` parameter of a query string.
pub fn get_token_from_query(query: &str) -> (r: Option<String>)
    ensures
        match query_token(query@) {
            Some(t) => r matches Some(v) && v@ == t,
            None => r is None,
        },
{
    let pairs = match query_pairs(query) {
        Some(p) => p,
        None => return None,
    };
    let ghost ps = pairs_view(pairs@);
    let key = String::from_str("access_token");
    let mut i: usize = 0;
    while i < pairs.len()
        invariant
            i <= pairs.len(),
            ps == pairs_view(pairs@),
            urlencoded_pairs(query@) == Some(ps),
            key@ == "access_token"@,
            first_value(ps, key@, 0) == first_value(ps, key@, i as int),
        decreases pairs.len() - i,
    {
        assert(ps[i as int] == (pairs@[i as int].0@, pairs@[i as int].1@));
        if pairs[i].0 == key {
            assert(first_value(ps, key@, i as int) == Some(ps[i as int].1));
            return Some(pairs[i].1.clone());
        }
        i = i + 1;
    }
    None
}

/// The token of a request: from the `Authorization` header when it holds a
/// bearer token, else from the query string.
pub fn extract_token(authorization: Option<&str>, query: &str) -> (r: Option<String>)
    ensures
        match request_token(
            match authorization {
                Some(h) => Some(h@),
                None => None,
            },
            query@,
        ) {
            Some(t) => r matches Some(v) && v@ == t,
            None => r is None,
        },
{
    match authorization {
        Some(h) => match get_token_from_header(h) {
            Some(t) => Some(t),
            None => get_token_from_query(query),
        },
        None => get_token_from_query(query),
    }
}

/// The one answer given for every refused token.
pub open spec fn is_unknown_token(m: MatrixError) -> bool {
    &&& m.status == STATUS_UNAUTHORIZED
    &&& m.errcode == ErrorCode::UNKNOWN_TOKEN
    &&& m.error@ == "Unrecognised access token."@
}

fn unknown_token() -> (r: MatrixError)
    ensures
        is_unknown_token(r),
{
    MatrixError::new(STATUS_UNAUTHORIZED, ErrorCode::UNKNOWN_TOKEN, "Unrecognised access token.")
}

/// The auth token that a request presents, checked; a request with no
/// token, or with one that is forged, expired, from another issuer or not
/// an auth token, is refused.
pub fn authenticate(authorization: Option<&str>, query: &str, jwt: &JwtConfig, now: u64) -> (r:
    Result<AuthToken, MatrixError>)
    ensures
        match request_token(
            match authorization {
                Some(h) => Some(h@),
                None => None,
            },
            query@,
        ) {
            None => r matches Err(m) && is_unknown_token(m),
            Some(t) => match auth_token_claims(t, jwt.auth_key_pub@, jwt.issuer@, now) {
                None => r matches Err(m) && is_unknown_token(m),
                Some(c) => r matches Ok(tok) && tok.sub@ == c.sub && tok.device_id@ == c.device_id
                    && tok.jti == c.jti->0,
            },
        },
{
    let repr = match extract_token(authorization, query) {
        Some(t) => t,
        None => return Err(unknown_token()),
    };
    match get_typed_token(repr.as_str(), jwt, now) {
        Some(tok) => Ok(tok),
        None => Err(unknown_token()),
    }
}

/// Reads a token as a checked auth token; `None` when it is refused.
pub fn get_typed_token(repr: &str, jwt: &JwtConfig, now: u64) -> (r: Option<AuthToken>)
    ensures
        match auth_token_claims(repr@, jwt.auth_key_pub@, jwt.issuer@, now) {
            None => r is None,
            Some(c) => r matches Some(tok) && tok.sub@ == c.sub && tok.device_id@ == c.device_id
                && tok.jti == c.jti->0,
        },
{
    match AuthToken::decode(repr, jwt, now) {
        Ok(t) => Some(t),
        Err(_) => None,
    }
}

/// Lets a checked token through only when storage confirms that its device
/// is still registered; a storage failure refuses it too.
pub fn confirm_live_device(token: AuthToken, device_exists: Result<bool, StorageError>) -> (r:
    Result<AuthToken, MatrixError>)
    ensures
        match device_exists {
            Ok(true) => r == Ok::<AuthToken, MatrixError>(token),
            _ => r matches Err(m) && is_unknown_token(m),
        },
{
    match device_exists {
        Ok(true) => Ok(token),
        _ => Err(unknown_token()),
    }
}

/// The guard of protected requests, for one kind of store.
pub struct AuthChecker<T> {
    phantom: PhantomData<T>,
}

impl AuthChecker<MockStore> {
    /// The guard for the store used in tests.
    pub fn mock_store() -> (r: AuthChecker<MockStore>) {
        AuthChecker { phantom: PhantomData }
    }
}

impl<T: Store> AuthChecker<T> {
    pub fn new() -> (r: AuthChecker<T>) {
        AuthChecker { phantom: PhantomData }
    }

    /// Checks a request before its handler runs: first its token, then,
    /// only for a valid token, whether its device still exists. On success
    /// gives the verified token, which carries the user and device.
    pub fn check(&self, store: &T, authorization: Option<&str>, query: &str, jwt: &JwtConfig, now: u64) -> (r:
        Result<AuthToken, MatrixError>)
        ensures
            match request_token(
                match authorization {
                    Some(h) => Some(h@),
                    None => None,
                },
                query@,
            ) {
                None => r matches Err(m) && is_unknown_token(m),
                Some(t) => match auth_token_claims(t, jwt.auth_key_pub@, jwt.issuer@, now) {
                    None => r matches Err(m) && is_unknown_token(m),
                    Some(c) => match r {
                        Ok(tok) => tok.sub@ == c.sub && tok.device_id@ == c.device_id && tok.jti
                            == c.jti->0,
                        Err(m) => is_unknown_token(m),
                    },
                },
            },
    {
        let token = match authenticate(authorization, query, jwt, now) {
            Ok(t) => t,
            Err(e) => return Err(e),
        };
        let live = store.check_device_id_exists(token.device_id.as_str());
        confirm_live_device(token, live)
    }
}

} // verus!
