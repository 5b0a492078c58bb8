//! Values of account registration.

use vstd::prelude::*;
use crate::auth::LoginFlow;

verus! {

/// What std's `to_lowercase` makes of a string.
pub uninterp spec fn lower_of(s: Seq<char>) -> Seq<char>;

/// Relies on `str::to_lowercase`: the lower-case form depends on the
/// characters alone.
#[verifier::external_body]
fn lowercase(s: &str) -> (r: String)
    ensures
        r@ == lower_of(s@),
{
    s.to_lowercase()
}

/// The kind of account to register.
#[derive(Clone, Copy, Debug, PartialEq, Eq, Structural)]
pub enum Kind {
    /// An anonymous user with no password.
    Guest,
    /// A regular user with a password.
    User,
}

impl Kind {
    /// The kind that a request names: `guest` in any case is a guest,
    /// anything else a regular user.
    pub fn from_str(kind: &str) -> (r: Kind)
        ensures
            r == (if lower_of(kind@) == "guest"@ {
                Kind::Guest
            } else {
                Kind::User
            }),
    {
        let lower = lowercase(kind);
        Kind::from_lowercase(lower.as_str())
    }

    /// The kind that a request names, from its lower-case form: `guest` is
    /// a guest, anything else a regular user.
    pub fn from_lowercase(lower: &str) -> (r: Kind)
        ensures
            r == (if lower@ == "guest"@ {
                Kind::Guest
            } else {
                Kind::User
            }),
    {
        let lower = String::from_str(lower);
        let guest = String::from_str("guest");
        if lower == guest {
            Kind::Guest
        } else {
            Kind::User
        }
    }
}

/// Query parameters of a registration.
#[derive(Clone, Debug)]
pub struct RequestParams {
    pub kind: Option<Kind>,
}

/// Query parameters of an availability check.
#[derive(Clone, Debug)]
pub struct AvailableParams {
    pub username: String,
}

/// A registration request.
#[derive(Clone, Debug)]
pub struct Request {
    /// Interactive authentication of the registration itself.
    pub auth: Option<LoginFlow>,
    /// The client's device; a new one is made when it is not known.
    pub device_id: Option<String>,
    /// When true, no access token or device is returned.
    pub inhibit_login: Option<bool>,
    /// Display name of a new device.
    pub initial_device_display_name: Option<String>,
    /// The desired password.
    pub password: Option<String>,
    /// Guest or regular user; a regular user when not given.
    pub kind: Option<Kind>,
    /// The basis of the localpart of the new user id.
    pub username: Option<String>,
}

/// The answer to a registration.
#[derive(Clone, Debug)]
pub struct Response {
    /// The new user id.
    pub user_id: String,
    /// An access token, unless login was inhibited.
    pub access_token: Option<String>,
    /// The device registered, unless login was inhibited.
    pub device_id: Option<String>,
}

} // verus!
