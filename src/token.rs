//! Issuing, signing and checking the two kinds of token: auth tokens, the
//! final bearer credential, and session tokens, which carry the progress of
//! interactive authentication.

use vstd::prelude::*;
use crate::auth::{LoginType, TokenKind};
use crate::claims::{Claims, ClaimsView, claims_text, lemma_claims_round_trip, parse_claims};
use crate::config::{p256_public_key, Config, JwtConfig};
use crate::ids::{UserId, user_id_shape};

verus! {

/// Seconds of clock skew allowed when checking expiry.
pub const TOKEN_LEEWAY: u64 = 5;

/// Relies on rand's `random`, which draws a value from the thread's
/// generator; nothing is known of the value.
pub assume_specification<T>[ rand::random::<T> ]() -> (r: T)
    where
        rand::distributions::Standard: rand::distributions::Distribution<T>,
;

/// std's `SystemTime`, carried through as it is.
#[verifier::external_type_specification]
#[verifier::external_body]
pub struct ExSystemTime(std::time::SystemTime);

/// std's `SystemTimeError`, carried through as it is.
#[verifier::external_type_specification]
#[verifier::external_body]
pub struct ExSystemTimeError(std::time::SystemTimeError);

/// Relies on std's `SystemTime::now`: the system clock; nothing is known
/// of its reading.
pub assume_specification[ std::time::SystemTime::now ]() -> std::time::SystemTime;

/// Relies on std's `SystemTime::duration_since`: the time from `earlier` to
/// `t`, or an error when `earlier` is later; nothing more is stated.
pub assume_specification[ std::time::SystemTime::duration_since ](
    t: &std::time::SystemTime,
    earlier: std::time::SystemTime,
) -> Result<core::time::Duration, std::time::SystemTimeError>;

/// Relies on std's `Duration::as_secs`: the whole seconds of a duration;
/// nothing more is stated.
pub assume_specification[ core::time::Duration::as_secs ](d: &core::time::Duration) -> u64;

/// Relies on std's `UNIX_EPOCH`, the start of the Unix epoch.
#[verifier::external_body]
fn unix_epoch() -> std::time::SystemTime {
    std::time::UNIX_EPOCH
}

/// Whole seconds since the Unix epoch, from the time elapsed since it; a
/// clock set before the epoch reads as 0.
pub fn seconds_since_epoch(elapsed: Result<core::time::Duration, std::time::SystemTimeError>) -> (r:
    u64)
    ensures
        elapsed is Err ==> r == 0,
{
    match elapsed {
        Ok(d) => d.as_secs(),
        Err(_) => 0,
    }
}

/// The current time in seconds since the Unix epoch; a clock set before
/// the epoch reads as 0.
pub fn now_secs() -> u64 {
    seconds_since_epoch(std::time::SystemTime::now().duration_since(unix_epoch()))
}

/// The position of the last `.` among the first `k` characters of `t`.
pub open spec fn last_dot(t: Seq<char>, k: int) -> Option<int>
    decreases k,
{
    if k <= 0 || k > t.len() {
        None
    } else if t[k - 1] == '.' {
        Some(k - 1)
    } else {
        last_dot(t, k - 1)
    }
}

/// A token split at its last `.` into the signed message and the
/// signature, as jsonwebtoken splits it.
pub open spec fn split_signed(t: Seq<char>) -> Option<(Seq<char>, Seq<char>)> {
    match last_dot(t, t.len() as int) {
        Some(i) => Some((t.subrange(0, i), t.subrange(i + 1, t.len() as int))),
        None => None,
    }
}

/// Whether the base64url signature is a valid ES256 signature of the
/// message under the public key, as jsonwebtoken and ring check it.
pub uninterp spec fn es256_signature_ok(message: Seq<char>, signature: Seq<char>, public_key: Seq<u8>) -> bool;

/// Relies on jsonwebtoken's `crypto::verify` with ES256, which decodes the
/// signature and has ring verify it over the message; a signature that
/// does not decode counts as not valid.
#[verifier::external_body]
fn verify_es256(message: &str, signature: &str, public_key: &[u8]) -> (r: bool)
    ensures
        r == es256_signature_ok(message@, signature@, public_key@),
{
    jsonwebtoken::crypto::verify(
        signature,
        message,
        &jsonwebtoken::DecodingKey::from_ec_der(public_key),
        jsonwebtoken::Algorithm::ES256,
    ).unwrap_or(false)
}

/// The payload text of a token as jsonwebtoken reads it without checking
/// anything but its form; `None` when the form is wrong.
pub uninterp spec fn jwt_claims_text(token: Seq<char>) -> Option<Seq<char>>;

/// Relies on jsonwebtoken's `dangerous_insecure_decode`, which splits the
/// token, reads its header and hands back the payload, here as a serde_json
/// `RawValue` that keeps its text as written. It checks no signature and
/// reads no clock.
#[verifier::external_body]
fn insecure_payload(token: &str) -> (r: Option<String>)
    ensures
        r is None <==> jwt_claims_text(token@) is None,
        r matches Some(p) ==> jwt_claims_text(token@) == Some(p@),
{
    jsonwebtoken::dangerous_insecure_decode::<Box<serde_json::value::RawValue>>(token).ok().map(
        |d| d.claims.get().to_string(),
    )
}

/// The payload text of a token whose ES256 signature the public key
/// verifies.
pub open spec fn es256_jwt_payload(token: Seq<char>, public_key: Seq<u8>) -> Option<Seq<char>> {
    match split_signed(token) {
        Some((message, signature)) => if es256_signature_ok(message, signature, public_key) {
            jwt_claims_text(token)
        } else {
            None
        },
        None => None,
    }
}

/// The position of the last `.` in `s`.
fn find_last_dot(s: &Vec<char>) -> (r: Option<usize>)
    ensures
        match last_dot(s@, s@.len() as int) {
            Some(i) => r == Some(i as usize),
            None => r is None,
        },
{
    let mut k = s.len();
    while k > 0
        invariant
            k <= s.len(),
            last_dot(s@, s@.len() as int) == last_dot(s@, k as int),
        decreases k,
    {
        if s[k - 1] == '.' {
            return Some(k - 1);
        }
        k = k - 1;
    }
    None
}

/// The payload of a token whose ES256 signature the public key verifies.
fn verified_payload(token: &str, public_key: &[u8]) -> (r: Option<String>)
    ensures
        r is None <==> es256_jwt_payload(token@, public_key@) is None,
        r matches Some(p) ==> es256_jwt_payload(token@, public_key@) == Some(p@),
{
    let s = crate::text::chars_of(token);
    let i = match find_last_dot(&s) {
        Some(i) => i,
        None => return None,
    };
    proof {
        lemma_last_dot_bound(s@, s@.len() as int);
    }
    let message = crate::text::substring_of(&s, 0, i);
    let signature = crate::text::substring_of(&s, i + 1, s.len());
    if verify_es256(message.as_str(), signature.as_str(), public_key) {
        insecure_payload(token)
    } else {
        None
    }
}

proof fn lemma_last_dot_bound(t: Seq<char>, k: int)
    ensures
        last_dot(t, k) matches Some(i) ==> 0 <= i < k <= t.len(),
    decreases k,
{
    if k > 0 && k <= t.len() && t[k - 1] != '.' {
        lemma_last_dot_bound(t, k - 1);
    }
}

/// Relies on jsonwebtoken's `encode` with an ES256 header and the PKCS#8
/// private key: it signs the payload text, handed over as a serde_json
/// `RawValue` so that it is written out unchanged. ECDSA signatures are
/// randomised, so the token itself is not named. What is stated is how it
/// reads back: `encode` joins the encoded header and payload with `.` and
/// appends `.` and the base64url signature (which holds no `.`), so the
/// split at the last `.` gives the signed message and the signature;
/// `crypto::verify` accepts that signature under the matching public key;
/// and `dangerous_insecure_decode` gives the payload back as written. The
/// payload must be a JSON object for that, which claims text is.
#[verifier::external_body]
fn jwt_sign(payload: &str, private_key: &[u8]) -> (r: Option<String>)
    requires
        exists|c: ClaimsView| payload@ == claims_text(c),
    ensures
        r matches Some(t) ==> (p256_public_key(private_key@) matches Some(pk)
            ==> es256_jwt_payload(t@, pk) == Some(payload@)),
{
    let raw = serde_json::value::RawValue::from_string(payload.to_string()).ok()?;
    jsonwebtoken::encode(
        &jsonwebtoken::Header::new(jsonwebtoken::Algorithm::ES256),
        &raw,
        &jsonwebtoken::EncodingKey::from_ec_der(private_key),
    ).ok()
}

/// A token was refused. The reason is deliberately not kept: clients see
/// one answer for a bad signature, a wrong issuer, an expired token and
/// malformed text alike.
#[derive(Clone, Copy, Debug, PartialEq, Eq, Structural)]
pub struct InvalidToken;

/// A token could not be signed.
#[derive(Clone, Copy, Debug, PartialEq, Eq, Structural)]
pub struct SignError;

/// `a + b`, or the largest `u64` when that overflows.
pub open spec fn saturating_sum(a: u64, b: u64) -> u64 {
    if a + b > u64::MAX {
        u64::MAX
    } else {
        (a + b) as u64
    }
}

fn saturating_add(a: u64, b: u64) -> (r: u64)
    ensures
        r == saturating_sum(a, b),
{
    if a > u64::MAX - b {
        u64::MAX
    } else {
        a + b
    }
}

/// The claims a token carries when its signature checks out under the
/// public key, its payload is well formed, it names the issuer, and it has
/// not expired at `now` (allowing [`TOKEN_LEEWAY`] seconds of skew).
pub open spec fn decoded_claims(
    token: Seq<char>,
    public_key: Seq<u8>,
    issuer: Seq<char>,
    now: u64,
) -> Option<ClaimsView> {
    match es256_jwt_payload(token, public_key) {
        None => None,
        Some(p) => match parse_claims(p) {
            None => None,
            Some(c) => if c.iss == issuer && now <= c.exp + TOKEN_LEEWAY {
                Some(c)
            } else {
                None
            },
        },
    }
}

/// No token whose expiry is past, beyond the allowed skew, is ever
/// accepted, whatever its signature.
pub proof fn lemma_expired_rejected(
    token: Seq<char>,
    public_key: Seq<u8>,
    issuer: Seq<char>,
    now: u64,
)
    ensures
        decoded_claims(token, public_key, issuer, now) matches Some(c) ==> now <= c.exp
            + TOKEN_LEEWAY,
        auth_token_claims(token, public_key, issuer, now) matches Some(c) ==> now <= c.exp
            + TOKEN_LEEWAY,
        session_token_claims(token, public_key, issuer, now) matches Some(c) ==> now <= c.exp
            + TOKEN_LEEWAY,
{
}

/// A token that carries the signed claims of a fresh session token decodes
/// to exactly those claims, and is accepted as a session token, until its
/// expiry (plus the allowed skew) has passed.
pub proof fn lemma_session_claims_decode(
    config: &Config,
    user_id: Seq<char>,
    device_id: Seq<char>,
    issued: u64,
    complete: Seq<LoginType>,
    token: Seq<char>,
    now: u64,
)
    requires
        config.wf(),
        user_id_shape(user_id),
        es256_jwt_payload(token, config.jwt_config.auth_key_pub@) == Some(
            claims_text(session_claims(config, user_id, device_id, issued, complete)),
        ),
        now <= saturating_sum(issued, config.session_expiration) + TOKEN_LEEWAY,
    ensures
        session_token_claims(token, config.jwt_config.auth_key_pub@, config.jwt_config.issuer@, now)
            == Some(session_claims(config, user_id, device_id, issued, complete)),
{
    lemma_signed_claims_decode(
        session_claims(config, user_id, device_id, issued, complete),
        token,
        config.jwt_config.auth_key_pub@,
        config.jwt_config.issuer@,
        now,
    );
}

/// A token whose verified payload is the text of some claims decodes to
/// exactly those claims, as long as they name the issuer and have not
/// expired.
pub proof fn lemma_signed_claims_decode(
    c: ClaimsView,
    token: Seq<char>,
    public_key: Seq<u8>,
    issuer: Seq<char>,
    now: u64,
)
    requires
        es256_jwt_payload(token, public_key) == Some(claims_text(c)),
        user_id_shape(c.sub),
        c.iss == issuer,
        now <= c.exp + TOKEN_LEEWAY,
    ensures
        decoded_claims(token, public_key, issuer, now) == Some(c),
{
    lemma_claims_round_trip(c);
}

/// A token that carries the signed claims of a fresh auth token decodes to
/// exactly those claims, and is accepted as an auth token, until its
/// expiry (plus the allowed skew) has passed.
pub proof fn lemma_auth_claims_decode(
    config: &Config,
    user_id: Seq<char>,
    device_id: Seq<char>,
    issued: u64,
    jti: u32,
    token: Seq<char>,
    now: u64,
)
    requires
        config.wf(),
        user_id_shape(user_id),
        es256_jwt_payload(token, config.jwt_config.auth_key_pub@) == Some(
            claims_text(auth_claims(config, user_id, device_id, issued, jti)),
        ),
        now <= saturating_sum(issued, config.auth_token_expiration) + TOKEN_LEEWAY,
    ensures
        decoded_claims(token, config.jwt_config.auth_key_pub@, config.jwt_config.issuer@, now)
            == Some(auth_claims(config, user_id, device_id, issued, jti)),
        auth_token_claims(token, config.jwt_config.auth_key_pub@, config.jwt_config.issuer@, now)
            == Some(auth_claims(config, user_id, device_id, issued, jti)),
{
    lemma_signed_claims_decode(
        auth_claims(config, user_id, device_id, issued, jti),
        token,
        config.jwt_config.auth_key_pub@,
        config.jwt_config.issuer@,
        now,
    );
}

/// Checks a token and reads its claims.
pub fn decode_claims(token: &str, jwt: &JwtConfig, now: u64) -> (r: Result<Claims, InvalidToken>)
    ensures
        r is Ok <==> decoded_claims(token@, jwt.auth_key_pub@, jwt.issuer@, now) is Some,
        r matches Ok(c) ==> decoded_claims(token@, jwt.auth_key_pub@, jwt.issuer@, now) == Some(
            c@,
        ),
{
    let payload = match verified_payload(token, jwt.auth_key_pub.as_slice()) {
        Some(p) => p,
        None => return Err(InvalidToken),
    };
    let c = match Claims::parse(payload.as_str()) {
        Some(c) => c,
        None => return Err(InvalidToken),
    };
    if c.iss == jwt.issuer && (now <= c.exp || now - c.exp <= TOKEN_LEEWAY) {
        Ok(c)
    } else {
        Err(InvalidToken)
    }
}

/// The claims of a fresh auth token.
pub open spec fn auth_claims(
    config: &Config,
    user_id: Seq<char>,
    device_id: Seq<char>,
    now: u64,
    jti: u32,
) -> ClaimsView {
    ClaimsView {
        kind: TokenKind::Auth,
        iss: config.hostname@,
        iat: now,
        exp: saturating_sum(now, config.auth_token_expiration),
        jti: Some(jti),
        sub: user_id,
        device_id,
        complete: None,
    }
}

/// The claims of a fresh session token.
pub open spec fn session_claims(
    config: &Config,
    user_id: Seq<char>,
    device_id: Seq<char>,
    now: u64,
    complete: Seq<LoginType>,
) -> ClaimsView {
    ClaimsView {
        kind: TokenKind::Session,
        iss: config.hostname@,
        iat: now,
        exp: saturating_sum(now, config.session_expiration),
        jti: None,
        sub: user_id,
        device_id,
        complete: Some(complete),
    }
}

impl Claims {
    /// Claims of an auth token issued at `now` with unique id `jti`.
    pub fn auth_at(config: &Config, user_id: &UserId, device_id: &str, now: u64, jti: u32) -> (r:
        Claims)
        ensures
            r@ == auth_claims(config, user_id@, device_id@, now, jti),
    {
        Claims {
            kind: TokenKind::Auth,
            iss: config.hostname.clone(),
            iat: now,
            exp: saturating_add(now, config.auth_token_expiration),
            jti: Some(jti),
            sub: user_id.copied(),
            device_id: String::from_str(device_id),
            complete: None,
        }
    }

    /// Claims of an auth token issued now, with a fresh random unique id.
    pub fn auth(config: &Config, user_id: &UserId, device_id: &str) -> (r: Claims)
        ensures
            exists|now: u64, jti: u32| r@ == auth_claims(config, user_id@, device_id@, now, jti),
    {
        let now = now_secs();
        let jti: u32 = rand::random::<u32>();
        Claims::auth_at(config, user_id, device_id, now, jti)
    }

    /// Claims of a session token issued at `now`.
    pub fn session_at(
        config: &Config,
        user_id: &UserId,
        device_id: &str,
        complete: &Vec<LoginType>,
        now: u64,
    ) -> (r: Claims)
        ensures
            r@ == session_claims(config, user_id@, device_id@, now, complete@),
    {
        Claims {
            kind: TokenKind::Session,
            iss: config.hostname.clone(),
            iat: now,
            exp: saturating_add(now, config.session_expiration),
            jti: None,
            sub: user_id.copied(),
            device_id: String::from_str(device_id),
            complete: Some(copy_stages(complete)),
        }
    }

    /// Claims of a session token issued now.
    pub fn session(config: &Config, user_id: &UserId, device_id: &str, complete: &Vec<LoginType>) -> (r:
        Claims)
        ensures
            exists|now: u64| r@ == session_claims(config, user_id@, device_id@, now, complete@),
    {
        Claims::session_at(config, user_id, device_id, complete, now_secs())
    }

    /// Signs these claims into a token with the server's private key. The
    /// token's verified payload, under the matching public key, is the text
    /// of these claims.
    pub fn as_jwt(&self, jwt: &JwtConfig) -> (r: Result<String, SignError>)
        ensures
            r matches Ok(t) ==> (jwt.wf() ==> es256_jwt_payload(t@, jwt.auth_key_pub@) == Some(
                claims_text(self@),
            )),
    {
        let payload = self.to_text();
        assert(payload@ == claims_text(self@));
        match jwt_sign(payload.as_str(), jwt.auth_key.as_slice()) {
            Some(t) => Ok(t),
            None => Err(SignError),
        }
    }
}

/// Whether the verified payload of `token` is the text of the claims of an
/// auth token for the user's device, issued at some time with some unique
/// id.
pub open spec fn issued_for(config: &Config, token: Seq<char>, user_id: Seq<char>, device_id: Seq<char>) -> bool {
    exists|issued: u64, jti: u32|
        es256_jwt_payload(token, config.jwt_config.auth_key_pub@) == Some(
            #[trigger] claims_text(auth_claims(config, user_id, device_id, issued, jti)),
        )
}

/// Issues a signed auth token for a user's device, now and with a fresh
/// unique id. Its verified payload is the text of the auth claims it was
/// issued with.
pub fn issue_auth_token(config: &Config, user_id: &UserId, device_id: &str) -> (r: Result<
    String,
    SignError,
>)
    ensures
        r matches Ok(t) ==> (config.wf() ==> issued_for(config, t@, user_id@, device_id@)),
{
    let claims = Claims::auth(config, user_id, device_id);
    claims.as_jwt(&config.jwt_config)
}

/// A copy of a list of stages.
pub fn copy_stages(v: &Vec<LoginType>) -> (r: Vec<LoginType>)
    ensures
        r@ == v@,
{
    let mut out: Vec<LoginType> = Vec::new();
    let mut i: usize = 0;
    while i < v.len()
        invariant
            i <= v.len(),
            out@ == v@.take(i as int),
        decreases v.len() - i,
    {
        out.push(v[i]);
        i = i + 1;
        assert(out@ =~= v@.take(i as int));
    }
    assert(v@.take(v.len() as int) =~= v@);
    out
}

/// A checked auth token: the final bearer credential of a user's device.
#[derive(Clone, Debug, PartialEq, Eq)]
pub struct AuthToken {
    pub sub: UserId,
    pub device_id: String,
    /// Unique id, kept so that single tokens can later be revoked.
    pub jti: u32,
}

/// The claims of a token accepted as an auth token.
pub open spec fn auth_token_claims(
    token: Seq<char>,
    public_key: Seq<u8>,
    issuer: Seq<char>,
    now: u64,
) -> Option<ClaimsView> {
    match decoded_claims(token, public_key, issuer, now) {
        Some(c) => if c.kind == TokenKind::Auth && c.jti is Some {
            Some(c)
        } else {
            None
        },
        None => None,
    }
}

impl AuthToken {
    /// Checks a token and reads it as an auth token; a session token is
    /// refused.
    pub fn decode(token: &str, jwt: &JwtConfig, now: u64) -> (r: Result<AuthToken, InvalidToken>)
        ensures
            r is Ok <==> auth_token_claims(token@, jwt.auth_key_pub@, jwt.issuer@, now) is Some,
            r matches Ok(t) ==> ({
                let c = auth_token_claims(token@, jwt.auth_key_pub@, jwt.issuer@, now)->0;
                t.sub@ == c.sub && t.device_id@ == c.device_id && t.jti == c.jti->0
            }),
    {
        let c = match decode_claims(token, jwt, now) {
            Ok(c) => c,
            Err(e) => return Err(e),
        };
        match (c.kind, c.jti) {
            (TokenKind::Auth, Some(jti)) => Ok(AuthToken { sub: c.sub, device_id: c.device_id, jti }),
            _ => Err(InvalidToken),
        }
    }
}

/// A checked session token: the progress of one interactive authentication.
#[derive(Clone, Debug, PartialEq, Eq)]
pub struct SessionToken {
    pub sub: UserId,
    pub device_id: String,
    /// The stages completed so far, in order.
    pub complete: Vec<LoginType>,
}

/// The claims of a token accepted as a session token.
pub open spec fn session_token_claims(
    token: Seq<char>,
    public_key: Seq<u8>,
    issuer: Seq<char>,
    now: u64,
) -> Option<ClaimsView> {
    match decoded_claims(token, public_key, issuer, now) {
        Some(c) => if c.kind == TokenKind::Session && c.complete is Some {
            Some(c)
        } else {
            None
        },
        None => None,
    }
}

impl SessionToken {
    /// Checks a token and reads it as a session token; an auth token is
    /// refused.
    pub fn decode(token: &str, jwt: &JwtConfig, now: u64) -> (r: Result<SessionToken, InvalidToken>)
        ensures
            r is Ok <==> session_token_claims(token@, jwt.auth_key_pub@, jwt.issuer@, now) is Some,
            r matches Ok(t) ==> ({
                let c = session_token_claims(token@, jwt.auth_key_pub@, jwt.issuer@, now)->0;
                t.sub@ == c.sub && t.device_id@ == c.device_id && t.complete@ == c.complete->0
            }),
    {
        let c = match decode_claims(token, jwt, now) {
            Ok(c) => c,
            Err(e) => return Err(e),
        };
        match (c.kind, c.complete) {
            (TokenKind::Session, Some(complete)) => Ok(
                SessionToken { sub: c.sub, device_id: c.device_id, complete },
            ),
            _ => Err(InvalidToken),
        }
    }
}

} // verus!
