//! What the login, logout and account endpoints decide, apart from reading
//! requests and writing responses.

use vstd::prelude::*;
use crate::auth::{
    DiscoveryInfo, Error, HomeserverInfo, LoginRequest, LoginResponse, LoginType,
};
use crate::config::{login_flow_set, login_flow_set_contains, Config};
use crate::error::{is_server_failure, server_failure, ErrorCode, MatrixError, STATUS_FORBIDDEN};
use crate::ids::{generate_device_id, UserId};
use crate::store::{Error as StorageError, Store};
use crate::token::{issue_auth_token, issued_for, AuthToken};

verus! {

/// The message of a refused login.
pub open spec fn login_refusal_message() -> Seq<char> {
    "Authentication challenge failed."@
}

/// The answer to a refused login. A wrong credential and an unknown
/// account get the same one.
pub open spec fn is_login_refusal(m: MatrixError) -> bool {
    &&& m.status == STATUS_FORBIDDEN
    &&& m.errcode == ErrorCode::FORBIDDEN
    &&& m.error@ == login_refusal_message()
}

fn login_refusal() -> (r: MatrixError)
    ensures
        is_login_refusal(r),
{
    MatrixError::new(STATUS_FORBIDDEN, ErrorCode::FORBIDDEN, "Authentication challenge failed.")
}

/// The account that a login names, from what storage found for its
/// identifier: an unknown account is refused like a wrong credential, and a
/// storage failure is a server failure.
pub fn account_of(found: Result<Option<UserId>, StorageError>) -> (r: Result<UserId, MatrixError>)
    ensures
        match found {
            Ok(Some(u)) => r matches Ok(v) && v@ == u@,
            Ok(None) => r matches Err(m) && is_login_refusal(m),
            Err(_) => r matches Err(m) && is_server_failure(m),
        },
{
    match found {
        Ok(Some(u)) => Ok(u),
        Ok(None) => Err(login_refusal()),
        Err(_) => Err(server_failure()),
    }
}

/// Whether a stage suffices for a direct login.
pub open spec fn allows_login(config: &Config, t: LoginType) -> bool {
    login_flow_set(config.auth_flows).contains(t)
}

/// Decides a direct login once the challenge has been checked: the stage
/// must have been satisfied and be one that suffices for a direct login.
pub fn check_login_stage(config: &Config, stage: Result<Option<LoginType>, Error>) -> (r: Result<
    LoginType,
    MatrixError,
>)
    ensures
        match stage {
            Err(_) => r matches Err(m) && is_server_failure(m),
            Ok(None) => r matches Err(m) && is_login_refusal(m),
            Ok(Some(t)) => if allows_login(config, t) {
                r == Ok::<LoginType, MatrixError>(t)
            } else {
                r matches Err(m) && is_login_refusal(m)
            },
        },
{
    match stage {
        Err(_) => Err(server_failure()),
        Ok(None) => Err(login_refusal()),
        Ok(Some(t)) => if login_flow_set_contains(&config.auth_flows, t) {
            Ok(t)
        } else {
            Err(login_refusal())
        },
    }
}

/// A direct login: finds the account, checks the challenge, registers the
/// device (a fresh random id when the client gave none) and issues an auth
/// token for it.
pub fn login<T: Store>(store: &T, req: &LoginRequest, config: &Config) -> (r: Result<
    LoginResponse,
    MatrixError,
>)
    ensures
        r matches Ok(resp) ==> {
            &&& allows_login(config, req.challenge.spec_login_type())
            &&& resp.well_known.homeserver.base_url@ == config.base_url@
            &&& (req.device_id matches Some(d) ==> resp.device_id@ == d@)
        },
        r matches Ok(resp) ==> (config.wf() ==> issued_for(
            config,
            resp.access_token@,
            resp.user_id@,
            resp.device_id@,
        )),
        r matches Err(m) ==> is_login_refusal(m) || is_server_failure(m),
{
    let user_id = match account_of(store.fetch_user_id(&req.identifier)) {
        Ok(u) => u,
        Err(m) => return Err(m),
    };
    let device_id = match &req.device_id {
        Some(d) => d.clone(),
        None => generate_device_id(),
    };
    let stage = req.challenge.passes(store, &user_id, device_id.as_str());
    match check_login_stage(config, stage) {
        Ok(_) => {},
        Err(m) => return Err(m),
    }
    let display_name = match &req.initial_device_display_name {
        Some(n) => Some(n.as_str()),
        None => None,
    };
    match storage_done(store.set_device(&user_id, device_id.as_str(), display_name)) {
        Ok(()) => {},
        Err(m) => return Err(m),
    }
    let access_token = match issue_auth_token(config, &user_id, device_id.as_str()) {
        Ok(t) => t,
        Err(_) => return Err(server_failure()),
    };
    let resp = LoginResponse {
        user_id,
        access_token,
        device_id,
        well_known: DiscoveryInfo {
            homeserver: HomeserverInfo { base_url: config.base_url.clone() },
        },
    };
    Ok(resp)
}

/// The answer to a storage operation that returns nothing.
pub fn storage_done(done: Result<(), StorageError>) -> (r: Result<(), MatrixError>)
    ensures
        match done {
            Ok(()) => r is Ok,
            Err(_) => r matches Err(m) && is_server_failure(m),
        },
{
    match done {
        Ok(()) => Ok(()),
        Err(_) => Err(server_failure()),
    }
}

/// Logs out the device of the token.
pub fn logout<T: Store>(store: &T, token: &AuthToken) -> (r: Result<(), MatrixError>)
    ensures
        r matches Err(m) ==> is_server_failure(m),
{
    storage_done(store.remove_device_id(token.device_id.as_str(), &token.sub))
}

/// Logs out every device of the token's user.
pub fn logout_all<T: Store>(store: &T, token: &AuthToken) -> (r: Result<(), MatrixError>)
    ensures
        r matches Err(m) ==> is_server_failure(m),
{
    storage_done(store.remove_all_device_ids(&token.sub))
}

/// Who owns an access token.
#[derive(Clone, Debug)]
pub struct WhoamiResponse {
    pub user_id: UserId,
}

/// The owner of a checked token.
pub fn whoami(token: &AuthToken) -> (r: WhoamiResponse)
    ensures
        r.user_id@ == token.sub@,
{
    WhoamiResponse { user_id: token.sub.copied() }
}

/// A user's display name.
#[derive(Clone, Debug, PartialEq, Eq)]
pub struct DisplayNameResponse {
    pub displayname: String,
}

} // verus!
