//! Login stages, challenges, flows and the other values that the
//! authentication endpoints exchange.

use vstd::prelude::*;
use vstd::string::StringSliceAdditionalSpecFns;
use crate::ids::UserId;
use crate::store::{Error as StorageError, Store};

verus! {

/// Failure while applying a challenge.
#[derive(Clone, Debug)]
pub enum Error {
    Storage(StorageError),
}

impl Error {
    /// The text shown for this error.
    pub fn message(&self) -> (r: String)
        ensures
            match self {
                Error::Storage(e) => r@ == "Storage Error: "@ + crate::store::error_text(e.code),
            },
    {
        match self {
            Error::Storage(e) => {
                let mut s = String::from_str("Storage Error: ");
                let m = e.message();
                s.append(m.as_str());
                s
            },
        }
    }
}

impl From<StorageError> for Error {
    fn from(e: StorageError) -> (r: Error)
        ensures
            r == Error::Storage(e),
    {
        Error::Storage(e)
    }
}

impl vstd::std_specs::convert::FromSpecImpl<StorageError> for Error {
    open spec fn obeys_from_spec() -> bool {
        true
    }

    open spec fn from_spec(e: StorageError) -> Error {
        Error::Storage(e)
    }
}

/// The two kinds of signed token.
#[derive(Clone, Copy, Debug, PartialEq, Eq, Structural)]
pub enum TokenKind {
    Session,
    Auth,
}

/// One stage of authentication.
#[derive(Clone, Copy, Debug, PartialEq, Eq, Hash, Structural)]
pub enum LoginType {
    Password,
    Token,
}

/// The identifier of a stage on the wire.
pub open spec fn login_type_name(t: LoginType) -> Seq<char> {
    match t {
        LoginType::Password => "m.login.password"@,
        LoginType::Token => "m.login.token"@,
    }
}

impl LoginType {
    /// The identifier of this stage on the wire.
    pub fn wire_name(&self) -> (r: &'static str)
        ensures
            r@ == login_type_name(*self),
    {
        match self {
            LoginType::Password => "m.login.password",
            LoginType::Token => "m.login.token",
        }
    }
}

/// A single stage that suffices for a direct login.
#[derive(Clone, Copy, Debug, PartialEq, Eq, Structural)]
pub struct LoginFlow {
    pub login_type: LoginType,
}

/// An ordered sequence of stages that together complete interactive
/// authentication.
#[derive(Clone, Debug, PartialEq, Eq)]
pub struct InteractiveLoginFlow {
    pub stages: Vec<LoginType>,
}

/// A third-party identifier of a user.
#[derive(Clone, Debug)]
pub enum ThirdParty {
    Email { address: String },
    MSISDN { address: String },
}

/// How a client names the account it wants to log in to.
#[derive(Clone, Debug)]
pub enum UserIdentifier {
    UserId { user: UserId },
    ThirdParty(ThirdParty),
    PhoneNumber { country: String, phone: String },
}

/// The credential material presented for one stage.
#[derive(Clone, Debug)]
pub enum Challenge {
    Password { password: String },
    Token { token: String },
}

/// Whether a password is right, from what storage gave as the user's
/// password hash; a storage failure stays a failure.
pub fn password_accepted(fetched: Result<PWHash, StorageError>, password: &str) -> (r: Result<
    bool,
    StorageError,
>)
    ensures
        match fetched {
            Ok(h) => r == Ok::<bool, StorageError>(h.spec_matches(password.spec_bytes())),
            Err(e) => r == Err::<bool, StorageError>(e),
        },
{
    match fetched {
        Ok(h) => Ok(h.matches(password)),
        Err(e) => Err(e),
    }
}

impl Challenge {
    /// The stage that this challenge satisfies when it is accepted.
    pub open spec fn spec_login_type(&self) -> LoginType {
        match self {
            Challenge::Password { .. } => LoginType::Password,
            Challenge::Token { .. } => LoginType::Token,
        }
    }

    pub fn login_type(&self) -> (r: LoginType)
        ensures
            r == self.spec_login_type(),
    {
        match self {
            Challenge::Password { .. } => LoginType::Password,
            Challenge::Token { .. } => LoginType::Token,
        }
    }

    /// What a challenge yields once storage has answered whether its
    /// credential is right: the stage when it is, none when it is not, and
    /// the storage error when storage failed.
    pub fn conclude(&self, accepted: Result<bool, StorageError>) -> (r: Result<
        Option<LoginType>,
        Error,
    >)
        ensures
            r == match accepted {
                Ok(true) => Ok(Some(self.spec_login_type())),
                Ok(false) => Ok(None),
                Err(e) => Err(Error::Storage(e)),
            },
    {
        match accepted {
            Ok(true) => Ok(Some(self.login_type())),
            Ok(false) => Ok(None),
            Err(e) => Err(Error::Storage(e)),
        }
    }

    /// Checks the credential against storage: a password against the
    /// user's stored hash, a one-time token against the user's valid
    /// tokens. Gives the satisfied stage, or none when the credential is
    /// wrong or the user is unknown; a storage failure is an error.
    pub fn passes<T: Store>(&self, store: &T, user_id: &UserId, device_id: &str) -> (r: Result<
        Option<LoginType>,
        Error,
    >)
        ensures
            r matches Ok(Some(t)) ==> t == self.spec_login_type(),
    {
        let accepted = match self {
            Challenge::Password { password } => password_accepted(
                store.fetch_password_hash(user_id),
                password.as_str(),
            ),
            Challenge::Token { token } => store.check_otp_exists(user_id, token.as_str()),
        };
        self.conclude(accepted)
    }
}

/// Where clients reach this homeserver.
#[derive(Clone, Debug)]
pub struct HomeserverInfo {
    pub base_url: String,
}

/// Discovery information returned on login.
#[derive(Clone, Debug)]
pub struct DiscoveryInfo {
    pub homeserver: HomeserverInfo,
}

/// A direct login request.
#[derive(Clone, Debug)]
pub struct LoginRequest {
    pub challenge: Challenge,
    pub identifier: UserIdentifier,
    pub device_id: Option<String>,
    pub initial_device_display_name: Option<String>,
}

/// The answer to a successful login.
#[derive(Clone, Debug)]
pub struct LoginResponse {
    pub user_id: UserId,
    pub access_token: String,
    pub device_id: String,
    pub well_known: DiscoveryInfo,
}

/// The PBKDF2-HMAC-SHA256 value of `len` bytes that ring derives from the
/// iteration count, salt and secret.
pub uninterp spec fn pbkdf2_sha256(iterations: u32, salt: Seq<u8>, secret: Seq<u8>, len: nat) -> Seq<u8>;

/// Relies on ring's `pbkdf2::verify`, which accepts exactly when the stored
/// value is not empty and equals the PBKDF2 value of its length derived
/// from the other inputs.
#[verifier::external_body]
fn pbkdf2_verify(iterations: u32, salt: &[u8], secret: &[u8], derived: &[u8]) -> (r: bool)
    requires
        iterations > 0,
        derived@.len() <= 32,
    ensures
        r == (derived@.len() > 0 && pbkdf2_sha256(iterations, salt@, secret@, derived@.len())
            == derived@),
{
    let n = std::num::NonZeroU32::new(iterations).unwrap();
    ring::pbkdf2::verify(ring::pbkdf2::PBKDF2_HMAC_SHA256, n, salt, secret, derived).is_ok()
}

/// A stored password hash.
#[derive(Clone, Debug)]
pub enum PWHash {
    Pbkdf2Sha256 { iterations: u32, salt: Vec<u8>, hash: Vec<u8> },
}

impl PWHash {
    /// Whether `pw` is the password that this hash was made from.
    pub open spec fn spec_matches(&self, pw: Seq<u8>) -> bool {
        match self {
            PWHash::Pbkdf2Sha256 { iterations, salt, hash } => {
                &&& *iterations > 0
                &&& 0 < hash@.len() <= 32
                &&& pbkdf2_sha256(*iterations, salt@, pw, hash@.len()) == hash@
            },
        }
    }

    /// Whether `pw` is the password that this hash was made from.
    pub fn matches(&self, pw: &str) -> (r: bool)
        ensures
            r == self.spec_matches(pw.spec_bytes()),
    {
        match self {
            PWHash::Pbkdf2Sha256 { iterations, salt, hash } => {
                if *iterations == 0 || hash.len() == 0 || hash.len() > 32 {
                    false
                } else {
                    pbkdf2_verify(*iterations, salt.as_slice(), pw.as_bytes(), hash.as_slice())
                }
            },
        }
    }
}

} // verus!
