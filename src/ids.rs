//! User and device identifiers.

use vstd::prelude::*;
use std::convert::TryFrom;
use crate::text::chars_of;

verus! {

/// The shape that every user id has: `@localpart:server`, the localpart
/// free of `:`.
pub open spec fn user_id_shape(s: Seq<char>) -> bool {
    &&& s.len() > 0
    &&& s[0] == '@'
    &&& exists|k: int| 1 <= k < s.len() && s[k] == ':'
}

/// What ruma_identifiers makes of a user id string: its normalised form
/// (localpart in lower case, default port left out) and whether the
/// localpart uses characters that only historical ids may hold.
pub uninterp spec fn ruma_user_id(s: Seq<char>) -> Option<(Seq<char>, bool)>;

/// Relies on ruma_identifiers' `UserId::try_from(&str)`, which validates a
/// user id, and on its `Display`, which writes `@localpart:server`.
#[verifier::external_body]
fn ruma_parse(s: &str) -> (r: Option<(String, bool)>)
    ensures
        r is None <==> ruma_user_id(s@) is None,
        r matches Some((t, h)) ==> ruma_user_id(s@) == Some((t@, h)) && user_id_shape(t@),
{
    ruma_identifiers::UserId::try_from(s).ok().map(|u| (u.to_string(), u.is_historical()))
}

/// Relies on ruma_identifiers' `UserId::new`, which draws a random localpart
/// for the given server, and on its `Display`, which writes
/// `@localpart:server`.
#[verifier::external_body]
fn ruma_random(server: &str) -> (r: Option<String>)
    ensures
        r matches Some(t) ==> user_id_shape(t@),
{
    ruma_identifiers::UserId::new(server).ok().map(|u| u.to_string())
}

/// Relies on ruma_identifiers' `device_id::generate`, which draws a random
/// device id.
#[verifier::external_body]
pub(crate) fn generate_device_id() -> (r: String) {
    ruma_identifiers::device_id::generate()
}

/// A user id was malformed.
#[derive(Clone, Copy, Debug, PartialEq, Eq)]
pub struct InvalidUserId;

/// A validated user id, held in its normalised text form `@localpart:server`.
#[derive(Clone, Debug, PartialEq, Eq, Hash)]
pub struct UserId {
    id: String,
}

impl View for UserId {
    type V = Seq<char>;

    closed spec fn view(&self) -> Seq<char> {
        self.id@
    }
}

impl UserId {
    pub open spec fn wf(&self) -> bool {
        user_id_shape(self@)
    }

    /// Parses and normalises a user id.
    pub fn parse(s: &str) -> (r: Result<UserId, InvalidUserId>)
        ensures
            r is Err <==> ruma_user_id(s@) is None,
            r matches Ok(u) ==> ruma_user_id(s@) matches Some((t, _)) && u@ == t && u.wf(),
    {
        match ruma_parse(s) {
            Some((id, _)) => Ok(UserId { id }),
            None => Err(InvalidUserId),
        }
    }

    /// A user id with a random localpart on the given server.
    pub fn new(server: &str) -> (r: Result<UserId, InvalidUserId>)
        ensures
            r matches Ok(u) ==> u.wf(),
    {
        match ruma_random(server) {
            Some(id) => Ok(UserId { id }),
            None => Err(InvalidUserId),
        }
    }

    /// Rebuilds a user id from text that this server wrote and signed.
    pub(crate) fn from_trusted(id: String) -> (r: UserId)
        requires
            user_id_shape(id@),
        ensures
            r@ == id@,
            r.wf(),
    {
        UserId { id }
    }

    /// Parses a user id whose server part may be left out; the given
    /// server name is then used.
    pub fn parse_with_default_server(s: &str, server: &str) -> (r: Result<UserId, InvalidUserId>)
        ensures
            r is Err <==> ruma_user_id(with_default_server(s@, server@)) is None,
            r matches Ok(u) ==> ruma_user_id(with_default_server(s@, server@)) matches Some((t, _))
                && u@ == t,
    {
        if has_colon(s) {
            UserId::parse(s)
        } else {
            let mut full = String::from_str(s);
            crate::text::push_char(&mut full, ':');
            full.append(server);
            assert(full@ == with_default_server(s@, server@));
            UserId::parse(full.as_str())
        }
    }

    pub fn as_str(&self) -> (r: &str)
        ensures
            r@ == self@,
    {
        self.id.as_str()
    }

    /// The same id, as a new value.
    pub fn copied(&self) -> (r: UserId)
        ensures
            r@ == self@,
    {
        UserId { id: self.id.clone() }
    }
}

/// `s`, with `:server` added when it names no server.
pub open spec fn with_default_server(s: Seq<char>, server: Seq<char>) -> Seq<char> {
    if s.contains(':') {
        s
    } else {
        s + seq![':'] + server
    }
}

fn has_colon(s: &str) -> (r: bool)
    ensures
        r == s@.contains(':'),
{
    let cs = chars_of(s);
    let mut i: usize = 0;
    while i < cs.len()
        invariant
            i <= cs.len(),
            cs@ == s@,
            forall|k: int| 0 <= k < i ==> cs@[k] != ':',
        decreases cs.len() - i,
    {
        if cs[i] == ':' {
            return true;
        }
        i = i + 1;
    }
    false
}

/// Whether the text has the shape of a user id.
pub fn has_user_id_shape(s: &Vec<char>) -> (r: bool)
    ensures
        r == user_id_shape(s@),
{
    if s.len() == 0 || s[0] != '@' {
        return false;
    }
    let mut i: usize = 1;
    while i < s.len()
        invariant
            1 <= i <= s.len(),
            s@[0] == '@',
            forall|k: int| 1 <= k < i ==> s@[k] != ':',
        decreases s.len() - i,
    {
        if s[i] == ':' {
            assert(1 <= i < s@.len() && s@[i as int] == ':');
            return true;
        }
        i = i + 1;
    }
    false
}

/// The id that registering `username` on `server` would give.
pub open spec fn username_id(username: Seq<char>, server: Seq<char>) -> Seq<char> {
    seq!['@'] + username + seq![':'] + server
}

/// Whether `username` may be registered on `server`: it is not empty, it
/// makes a valid user id there, and that id does not need the characters
/// that only historical ids may hold.
pub fn is_username_valid(username: &str, server: &str) -> (r: bool)
    ensures
        r == (username@.len() > 0 && match ruma_user_id(username_id(username@, server@)) {
            Some((_, historical)) => !historical,
            None => false,
        }),
{
    if username.unicode_len() == 0 {
        return false;
    }
    let mut full = String::new();
    crate::text::push_char(&mut full, '@');
    full.append(username);
    crate::text::push_char(&mut full, ':');
    full.append(server);
    assert(full@ == username_id(username@, server@));
    match ruma_parse(full.as_str()) {
        Some((_, historical)) => !historical,
        None => false,
    }
}

} // verus!
