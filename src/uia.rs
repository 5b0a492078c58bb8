//! The interactive authentication engine: one round applies a challenge to
//! the progress carried by a session token and decides whether the
//! negotiation is complete. The server keeps no state between rounds.

use vstd::prelude::*;
use crate::auth::{Challenge, Error, LoginType};
use crate::claims::{claims_text, Claims};
use crate::config::{interactive_flow_set, interactive_flow_set_contains, Config};
use crate::error::{is_server_failure, server_failure, ErrorCode, MatrixError};
use crate::store::Store;
use crate::token::{copy_stages, es256_jwt_payload, now_secs, session_claims, SessionToken, SignError};

verus! {

/// The stages after one more has been satisfied: a stage already completed
/// is not recorded twice.
pub open spec fn with_stage(done: Seq<LoginType>, t: LoginType) -> Seq<LoginType> {
    if done.contains(t) {
        done
    } else {
        done.push(t)
    }
}

/// Satisfying a stage that the session has already completed leaves its
/// progress as it is: the stage is not recorded a second time.
pub proof fn lemma_satisfied_stage_not_repeated(done: Seq<LoginType>, t: LoginType)
    requires
        done.contains(t),
    ensures
        with_stage(done, t) == done,
        after_outcome(done, Some(t)) == done,
{
}

/// Whether the completed stages are exactly one of the configured flows.
pub open spec fn flows_complete(config: &Config, done: Seq<LoginType>) -> bool {
    interactive_flow_set(config.interactive_auth_flows).contains(done)
}

/// The stages after a challenge with the given outcome.
pub open spec fn after_outcome(done: Seq<LoginType>, outcome: Option<LoginType>) -> Seq<LoginType> {
    match outcome {
        Some(t) => with_stage(done, t),
        None => done,
    }
}

fn contains_stage(v: &Vec<LoginType>, t: LoginType) -> (r: bool)
    ensures
        r == v@.contains(t),
{
    let mut i: usize = 0;
    while i < v.len()
        invariant
            i <= v.len(),
            forall|k: int| 0 <= k < i ==> v@[k] != t,
        decreases v.len() - i,
    {
        if v[i] == t {
            assert(v@[i as int] == t);
            return true;
        }
        i = i + 1;
    }
    false
}

impl SessionToken {
    /// Records the outcome of a challenge: a satisfied stage is added
    /// unless it is already there. Gives whether the challenge passed.
    pub fn apply(&mut self, outcome: Result<Option<LoginType>, Error>) -> (r: Result<bool, Error>)
        ensures
            final(self).sub == old(self).sub,
            final(self).device_id == old(self).device_id,
            match outcome {
                Ok(o) => r == Ok::<bool, Error>(o is Some) && final(self).complete@ == after_outcome(
                    old(self).complete@,
                    o,
                ),
                Err(e) => r == Err::<bool, Error>(e) && final(self).complete@ == old(
                    self,
                ).complete@,
            },
    {
        match outcome {
            Ok(Some(t)) => {
                if !contains_stage(&self.complete, t) {
                    self.complete.push(t);
                }
                Ok(true)
            },
            Ok(None) => Ok(false),
            Err(e) => Err(e),
        }
    }

    /// Applies a challenge to this session: checks it against storage and
    /// records the stage it satisfies. Gives whether it passed; a storage
    /// failure is an error and leaves the session as it was.
    pub fn update<T: Store>(&mut self, store: &T, challenge: &Challenge) -> (r: Result<bool, Error>)
        ensures
            final(self).sub == old(self).sub,
            final(self).device_id == old(self).device_id,
            match r {
                Ok(true) => final(self).complete@ == with_stage(
                    old(self).complete@,
                    challenge.spec_login_type(),
                ),
                _ => final(self).complete@ == old(self).complete@,
            },
    {
        let outcome = challenge.passes(store, &self.sub, self.device_id.as_str());
        self.apply(outcome)
    }

    /// Whether the completed stages are exactly one of the configured
    /// flows: order matters, and a prefix or a longer list does not count.
    pub fn is_complete(&self, config: &Config) -> (r: bool)
        ensures
            r == flows_complete(config, self.complete@),
    {
        interactive_flow_set_contains(&config.interactive_auth_flows, &self.complete)
    }
}

/// The message of a failed challenge. It is the same for a wrong
/// credential and for an unknown account.
pub open spec fn challenge_failed_message() -> Seq<char> {
    "Authentication challenge failed."@
}

/// The answer to a round that did not complete authentication.
#[derive(Clone, Debug)]
pub struct IncompleteAuthResponse {
    /// Set when the challenge of this round failed.
    pub errcode: Option<ErrorCode>,
    pub error: Option<String>,
    /// The stages completed so far.
    pub completed: Vec<LoginType>,
    /// A freshly signed session token that carries the progress.
    pub session: String,
}

/// Why a round did not let the operation proceed.
#[derive(Clone, Debug)]
pub enum UiaError {
    /// More stages are needed (HTTP 401).
    Incomplete(IncompleteAuthResponse),
    /// The server failed (HTTP 500).
    Unknown(MatrixError),
}

/// A challenge together with the session token it is submitted under.
#[derive(Clone, Debug)]
pub struct InteractiveAuth {
    pub challenge: Challenge,
    pub session: SessionToken,
}

/// The answer to a round that leaves authentication incomplete, given
/// the session after the challenge, whether the challenge passed, and the
/// result of signing the new session token. Only a signing failure turns
/// it into a server failure.
pub fn respond(session: &SessionToken, passed: bool, signed: Result<String, SignError>) -> (r: UiaError)
    ensures
        match signed {
            Ok(t) => r matches UiaError::Incomplete(resp) && {
                &&& resp.completed@ == session.complete@
                &&& resp.session == t
                &&& (passed ==> resp.errcode is None && resp.error is None)
                &&& (!passed ==> resp.errcode == Some(ErrorCode::FORBIDDEN) && (resp.error matches Some(
                    m,
                ) && m@ == challenge_failed_message()))
            },
            Err(_) => r matches UiaError::Unknown(m) && is_server_failure(m),
        },
{
    match signed {
        Ok(token) => {
            let (errcode, error) = if passed {
                (None, None)
            } else {
                (
                    Some(ErrorCode::FORBIDDEN),
                    Some(String::from_str("Authentication challenge failed.")),
                )
            };
            UiaError::Incomplete(
                IncompleteAuthResponse {
                    errcode,
                    error,
                    completed: copy_stages(&session.complete),
                    session: token,
                },
            )
        },
        Err(_) => UiaError::Unknown(server_failure()),
    }
}

/// Whether the verified payload of `token` is the text of the claims of a
/// session token for the user's device with the given stages, issued at
/// some time.
pub open spec fn session_issued_for(
    config: &Config,
    token: Seq<char>,
    user_id: Seq<char>,
    device_id: Seq<char>,
    complete: Seq<LoginType>,
) -> bool {
    exists|issued: u64|
        es256_jwt_payload(token, config.jwt_config.auth_key_pub@) == Some(
            #[trigger] claims_text(session_claims(config, user_id, device_id, issued, complete)),
        )
}

impl InteractiveAuth {
    /// Decides a round once the challenge outcome is known, signing the new
    /// session token at `now` when authentication is not yet complete.
    pub fn conclude(self, outcome: Result<Option<LoginType>, Error>, config: &Config, now: u64) -> (r:
        Result<(), UiaError>)
        ensures
            match outcome {
                Err(_) => r matches Err(UiaError::Unknown(m)) && is_server_failure(m),
                Ok(o) => {
                    let done = after_outcome(self.session.complete@, o);
                    if flows_complete(config, done) {
                        r is Ok
                    } else {
                        match r {
                            Ok(_) => false,
                            Err(UiaError::Incomplete(resp)) => {
                                &&& resp.completed@ == done
                                &&& (config.wf() ==> es256_jwt_payload(
                                    resp.session@,
                                    config.jwt_config.auth_key_pub@,
                                ) == Some(
                                    claims_text(
                                        session_claims(
                                            config,
                                            self.session.sub@,
                                            self.session.device_id@,
                                            now,
                                            done,
                                        ),
                                    ),
                                ))
                                &&& (o is Some ==> resp.errcode is None && resp.error is None)
                                &&& (o is None ==> resp.errcode == Some(ErrorCode::FORBIDDEN)
                                    && (resp.error matches Some(m) && m@
                                    == challenge_failed_message()))
                            },
                            Err(UiaError::Unknown(m)) => is_server_failure(m),
                        }
                    }
                },
            },
    {
        let mut session = self.session;
        let success = match session.apply(outcome) {
            Ok(s) => s,
            Err(_) => return Err(UiaError::Unknown(server_failure())),
        };
        if session.is_complete(config) {
            return Ok(());
        }
        let claims = Claims::session_at(
            config,
            &session.sub,
            session.device_id.as_str(),
            &session.complete,
            now,
        );
        let signed = claims.as_jwt(&config.jwt_config);
        Err(respond(&session, success, signed))
    }

    /// Runs one round: checks the challenge against storage, records the
    /// stage it satisfies, and lets the operation proceed only when the
    /// completed stages match a configured flow exactly.
    pub fn handle<T: Store>(self, store: &T, config: &Config) -> (r: Result<(), UiaError>)
        ensures
            r is Ok ==> (flows_complete(config, self.session.complete@) || flows_complete(
                config,
                with_stage(self.session.complete@, self.challenge.spec_login_type()),
            )),
            r matches Err(UiaError::Incomplete(resp)) ==> {
                &&& !flows_complete(config, resp.completed@)
                &&& (resp.completed@ == self.session.complete@ || resp.completed@ == with_stage(
                    self.session.complete@,
                    self.challenge.spec_login_type(),
                ))
                &&& (config.wf() ==> session_issued_for(
                    config,
                    resp.session@,
                    self.session.sub@,
                    self.session.device_id@,
                    resp.completed@,
                ))
            },
            r matches Err(UiaError::Unknown(m)) ==> is_server_failure(m),
    {
        let outcome = self.challenge.passes(store, &self.session.sub, self.session.device_id.as_str());
        self.conclude(outcome, config, now_secs())
    }
}

} // verus!
