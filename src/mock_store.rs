//! A store whose answers are set in advance, for tests.

use vstd::prelude::*;
use crate::auth::{PWHash, UserIdentifier};
use crate::ids::UserId;
use crate::store::{Error, ErrorCode, Store};

verus! {

/// A store that gives back the answers it was built with. A question whose
/// answer was not set is answered with an error.
#[derive(Clone, Debug)]
pub struct MockStore {
    pub check_username_exists_resp: Option<Result<bool, Error>>,
    pub check_device_id_exists_resp: Option<Result<bool, Error>>,
    pub remove_device_id_resp: Option<Result<(), Error>>,
    pub remove_all_device_ids_resp: Option<Result<(), Error>>,
    pub fetch_user_id_resp: Option<Result<Option<UserId>, Error>>,
    pub fetch_password_hash_resp: Option<Result<PWHash, Error>>,
    pub check_otp_exists_resp: Option<Result<bool, Error>>,
    pub set_device_resp: Option<Result<(), Error>>,
}

fn not_set(what: &str) -> (r: Error)
    ensures
        r.code matches ErrorCode::Unknown(m) && m@ == what@,
{
    Error { code: ErrorCode::Unknown(String::from_str(what)) }
}

impl MockStore {
    /// A store with no answers set.
    pub fn new() -> (r: MockStore)
        ensures
            r.check_username_exists_resp is None,
            r.check_device_id_exists_resp is None,
            r.remove_device_id_resp is None,
            r.remove_all_device_ids_resp is None,
            r.fetch_user_id_resp is None,
            r.fetch_password_hash_resp is None,
            r.check_otp_exists_resp is None,
            r.set_device_resp is None,
    {
        MockStore {
            check_username_exists_resp: None,
            check_device_id_exists_resp: None,
            remove_device_id_resp: None,
            remove_all_device_ids_resp: None,
            fetch_user_id_resp: None,
            fetch_password_hash_resp: None,
            check_otp_exists_resp: None,
            set_device_resp: None,
        }
    }

    pub fn with_username_exists_resp(self, resp: Result<bool, Error>) -> (r: MockStore)
        ensures
            r == (MockStore { check_username_exists_resp: Some(resp), ..self }),
    {
        MockStore { check_username_exists_resp: Some(resp), ..self }
    }

    pub fn with_check_device_id_exists_resp(self, resp: Result<bool, Error>) -> (r: MockStore)
        ensures
            r == (MockStore { check_device_id_exists_resp: Some(resp), ..self }),
    {
        MockStore { check_device_id_exists_resp: Some(resp), ..self }
    }

    pub fn with_remove_device_id_resp(self, resp: Result<(), Error>) -> (r: MockStore)
        ensures
            r == (MockStore { remove_device_id_resp: Some(resp), ..self }),
    {
        MockStore { remove_device_id_resp: Some(resp), ..self }
    }

    pub fn with_remove_all_device_ids_resp(self, resp: Result<(), Error>) -> (r: MockStore)
        ensures
            r == (MockStore { remove_all_device_ids_resp: Some(resp), ..self }),
    {
        MockStore { remove_all_device_ids_resp: Some(resp), ..self }
    }

    pub fn with_fetch_user_id_resp(self, resp: Result<Option<UserId>, Error>) -> (r: MockStore)
        ensures
            r == (MockStore { fetch_user_id_resp: Some(resp), ..self }),
    {
        MockStore { fetch_user_id_resp: Some(resp), ..self }
    }

    pub fn with_fetch_password_hash_resp(self, resp: Result<PWHash, Error>) -> (r: MockStore)
        ensures
            r == (MockStore { fetch_password_hash_resp: Some(resp), ..self }),
    {
        MockStore { fetch_password_hash_resp: Some(resp), ..self }
    }

    pub fn with_check_otp_exists_resp(self, resp: Result<bool, Error>) -> (r: MockStore)
        ensures
            r == (MockStore { check_otp_exists_resp: Some(resp), ..self }),
    {
        MockStore { check_otp_exists_resp: Some(resp), ..self }
    }

    pub fn with_set_device_resp(self, resp: Result<(), Error>) -> (r: MockStore)
        ensures
            r == (MockStore { set_device_resp: Some(resp), ..self }),
    {
        MockStore { set_device_resp: Some(resp), ..self }
    }
}

impl Store for MockStore {
    fn get_type(&self) -> String {
        String::from_str("MockStore")
    }

    fn check_username_exists(&self, _username: &str) -> (r: Result<bool, Error>)
        ensures
            match self.check_username_exists_resp {
                Some(Ok(b)) => r == Ok::<bool, Error>(b),
                _ => r is Err,
            },
    {
        match &self.check_username_exists_resp {
            Some(Ok(v)) => Ok(*v),
            Some(Err(e)) => Err(e.clone()),
            None => Err(not_set("check_username_exists_resp not set.")),
        }
    }

    fn check_device_id_exists(&self, _device_id: &str) -> (r: Result<bool, Error>)
        ensures
            match self.check_device_id_exists_resp {
                Some(Ok(b)) => r == Ok::<bool, Error>(b),
                _ => r is Err,
            },
    {
        match &self.check_device_id_exists_resp {
            Some(Ok(v)) => Ok(*v),
            Some(Err(e)) => Err(e.clone()),
            None => Err(not_set("check_device_id_exists_resp not set.")),
        }
    }

    fn remove_device_id(&self, _device_id: &str, _user_id: &UserId) -> (r: Result<(), Error>)
        ensures
            match self.remove_device_id_resp {
                Some(Ok(())) => r is Ok,
                _ => r is Err,
            },
    {
        match &self.remove_device_id_resp {
            Some(Ok(v)) => Ok(*v),
            Some(Err(e)) => Err(e.clone()),
            None => Err(not_set("remove_device_id_resp not set.")),
        }
    }

    fn remove_all_device_ids(&self, _user_id: &UserId) -> (r: Result<(), Error>)
        ensures
            match self.remove_all_device_ids_resp {
                Some(Ok(())) => r is Ok,
                _ => r is Err,
            },
    {
        match &self.remove_all_device_ids_resp {
            Some(Ok(v)) => Ok(*v),
            Some(Err(e)) => Err(e.clone()),
            None => Err(not_set("remove_all_device_ids_resp not set.")),
        }
    }

    fn fetch_user_id(&self, _identifier: &UserIdentifier) -> (r: Result<Option<UserId>, Error>)
        ensures
            match self.fetch_user_id_resp {
                Some(Ok(Some(u))) => r matches Ok(Some(v)) && v@ == u@,
                Some(Ok(None)) => r matches Ok(None),
                _ => r is Err,
            },
    {
        match &self.fetch_user_id_resp {
            Some(Ok(v)) => Ok(match v {
                Some(u) => Some(u.copied()),
                None => None,
            }),
            Some(Err(e)) => Err(e.clone()),
            None => Err(not_set("fetch_user_id_resp not set.")),
        }
    }

    fn fetch_password_hash(&self, _user_id: &UserId) -> (r: Result<PWHash, Error>)
        ensures
            match self.fetch_password_hash_resp {
                Some(Ok(_)) => r is Ok,
                _ => r is Err,
            },
    {
        match &self.fetch_password_hash_resp {
            Some(Ok(v)) => Ok(v.clone()),
            Some(Err(e)) => Err(e.clone()),
            None => Err(not_set("fetch_password_hash_resp not set.")),
        }
    }

    fn check_otp_exists(&self, _user_id: &UserId, _otp: &str) -> (r: Result<bool, Error>)
        ensures
            match self.check_otp_exists_resp {
                Some(Ok(b)) => r == Ok::<bool, Error>(b),
                _ => r is Err,
            },
    {
        match &self.check_otp_exists_resp {
            Some(Ok(v)) => Ok(*v),
            Some(Err(e)) => Err(e.clone()),
            None => Err(not_set("check_otp_exists_resp not set.")),
        }
    }

    fn set_device(&self, _user_id: &UserId, _device_id: &str, _display_name: Option<&str>) -> (r:
        Result<(), Error>)
        ensures
            match self.set_device_resp {
                Some(Ok(())) => r is Ok,
                _ => r is Err,
            },
    {
        match &self.set_device_resp {
            Some(Ok(v)) => Ok(*v),
            Some(Err(e)) => Err(e.clone()),
            None => Err(not_set("set_device_resp not set.")),
        }
    }
}

} // verus!
