//! Server configuration and the authentication policy it carries.

use vstd::prelude::*;
use crate::auth::{InteractiveLoginFlow, LoginFlow, LoginType};
use ring::signature::KeyPair;
use linear_map::set::LinearSet;

verus! {

/// linear_map's `LinearSet`, a set kept as a list without repeats; what a
/// set holds is named below for each kind of item the configuration keeps.
#[verifier::external_type_specification]
#[verifier::external_body]
#[verifier::reject_recursive_types(T)]
pub struct ExLinearSet<T>(LinearSet<T>);

/// The stages of the direct-login flows that a set holds.
pub uninterp spec fn login_flow_set(s: LinearSet<LoginFlow>) -> Set<LoginType>;

/// The stage sequences of the interactive flows that a set holds.
pub uninterp spec fn interactive_flow_set(s: LinearSet<InteractiveLoginFlow>) -> Set<Seq<LoginType>>;

/// Relies on linear_map's `LinearSet::new`: an empty set.
#[verifier::external_body]
fn new_login_flow_set() -> (r: LinearSet<LoginFlow>)
    ensures
        login_flow_set(r) == Set::<LoginType>::empty(),
{
    LinearSet::new()
}

/// Relies on linear_map's `LinearSet::insert`, which adds the flow unless
/// an equal one is there (flows are equal when their stages are).
#[verifier::external_body]
fn insert_login_flow(s: &mut LinearSet<LoginFlow>, f: LoginFlow)
    ensures
        login_flow_set(*final(s)) == login_flow_set(*old(s)).insert(f.login_type),
{
    s.insert(f);
}

/// Relies on linear_map's `LinearSet::contains`, which compares with the
/// flows of the set.
#[verifier::external_body]
pub(crate) fn login_flow_set_contains(s: &LinearSet<LoginFlow>, t: LoginType) -> (r: bool)
    ensures
        r == login_flow_set(*s).contains(t),
{
    s.contains(&LoginFlow { login_type: t })
}

/// Relies on linear_map's `LinearSet::new`: an empty set.
#[verifier::external_body]
fn new_interactive_flow_set() -> (r: LinearSet<InteractiveLoginFlow>)
    ensures
        interactive_flow_set(r) == Set::<Seq<LoginType>>::empty(),
{
    LinearSet::new()
}

/// Relies on linear_map's `LinearSet::insert`, which adds the flow unless
/// an equal one is there (flows are equal when their stage lists are).
#[verifier::external_body]
fn insert_interactive_flow(s: &mut LinearSet<InteractiveLoginFlow>, f: InteractiveLoginFlow)
    ensures
        interactive_flow_set(*final(s)) == interactive_flow_set(*old(s)).insert(f.stages@),
{
    s.insert(f);
}

/// Relies on linear_map's `LinearSet::contains`, which compares with the
/// flows of the set.
#[verifier::external_body]
pub(crate) fn interactive_flow_set_contains(s: &LinearSet<InteractiveLoginFlow>, stages: &Vec<LoginType>) -> (r: bool)
    ensures
        r == interactive_flow_set(*s).contains(stages@),
{
    s.contains(&InteractiveLoginFlow { stages: stages.clone() })
}

/// What pem makes of PEM text: the bytes of its first armored block.
pub uninterp spec fn pem_contents(data: Seq<u8>) -> Option<Seq<u8>>;

/// Relies on pem's `parse`, which decodes the first PEM block of the input.
#[verifier::external_body]
fn pem_decode(data: &[u8]) -> (r: Option<Vec<u8>>)
    ensures
        r is None <==> pem_contents(data@) is None,
        r matches Some(v) ==> pem_contents(data@) == Some(v@),
{
    pem::parse(data).ok().map(|p| p.contents)
}

/// The public key of a valid PKCS#8 P-256 private key, as ring derives it;
/// `None` when the bytes are not such a key.
pub uninterp spec fn p256_public_key(pkcs8: Seq<u8>) -> Option<Seq<u8>>;

/// Relies on ring's `EcdsaKeyPair::from_pkcs8` for ECDSA P-256 with SHA-256
/// and on `public_key` of the key pair it makes. `from_pkcs8` also draws
/// from the system's random source and fails when that fails, so a valid
/// key may still be refused.
#[verifier::external_body]
fn p256_key_pair(pkcs8: &[u8]) -> (r: Option<Vec<u8>>)
    ensures
        p256_public_key(pkcs8@) is None ==> r is None,
        r matches Some(v) ==> p256_public_key(pkcs8@) == Some(v@),
{
    ring::signature::EcdsaKeyPair::from_pkcs8(
        &ring::signature::ECDSA_P256_SHA256_FIXED_SIGNING,
        pkcs8,
    ).ok().map(|k| k.public_key().as_ref().to_vec())
}

/// Why a signing key could not be loaded.
#[derive(Clone, Copy, Debug, PartialEq, Eq, Structural)]
pub enum KeyError {
    /// The text is not PEM.
    NotPem,
    /// The PEM block is not a PKCS#8 P-256 private key.
    NotP256Key,
}

/// Reads a PEM encoded PKCS#8 P-256 private key: gives the private key's
/// DER bytes and the matching public key. A key that is not P-256 is
/// refused; so is a valid one when ring cannot draw random bytes.
pub fn parse_keypair(pem_data: &[u8]) -> (r: Result<(Vec<u8>, Vec<u8>), KeyError>)
    ensures
        match pem_contents(pem_data@) {
            None => r == Err::<(Vec<u8>, Vec<u8>), KeyError>(KeyError::NotPem),
            Some(der) => {
                &&& (p256_public_key(der) is None ==> r == Err::<(Vec<u8>, Vec<u8>), KeyError>(
                    KeyError::NotP256Key,
                ))
                &&& match r {
                    Ok((private_key, public_key)) => private_key@ == der && p256_public_key(der)
                        == Some(public_key@),
                    Err(e) => e == KeyError::NotP256Key,
                }
            },
        },
{
    let der = match pem_decode(pem_data) {
        Some(d) => d,
        None => return Err(KeyError::NotPem),
    };
    match p256_key_pair(der.as_slice()) {
        Some(public_key) => Ok((der, public_key)),
        None => Err(KeyError::NotP256Key),
    }
}

/// The keys and rules with which tokens are signed and checked.
pub struct JwtConfig {
    /// PKCS#8 DER of the ES256 private key that signs tokens.
    pub auth_key: Vec<u8>,
    /// The matching public key, which checks signatures.
    pub auth_key_pub: Vec<u8>,
    /// The issuer that every accepted token must name.
    pub issuer: String,
}

impl JwtConfig {
    /// The public key is the one that matches the private key.
    pub open spec fn wf(&self) -> bool {
        p256_public_key(self.auth_key@) == Some(self.auth_key_pub@)
    }

    /// The token configuration for this server, from its PEM encoded key.
    pub fn new(hostname: &str, pem_data: &[u8]) -> (r: Result<JwtConfig, KeyError>)
        ensures
            match pem_contents(pem_data@) {
                None => r matches Err(KeyError::NotPem),
                Some(der) => {
                    &&& (p256_public_key(der) is None ==> r matches Err(KeyError::NotP256Key))
                    &&& match r {
                        Ok(c) => c.auth_key@ == der && c.wf() && c.issuer@ == hostname@,
                        Err(e) => e == KeyError::NotP256Key,
                    }
                },
            },
    {
        match parse_keypair(pem_data) {
            Ok((auth_key, auth_key_pub)) => Ok(
                JwtConfig { auth_key, auth_key_pub, issuer: String::from_str(hostname) },
            ),
            Err(e) => Err(e),
        }
    }
}

/// Settings as they are read, before the signing key is loaded.
pub struct RawConfig {
    /// The port and address to run the server on.
    pub server_addr: String,
    /// The hostname of the server, used to construct user ids.
    pub hostname: String,
    /// The base url of the server, advertised to clients.
    pub base_url: String,
    /// Database URL.
    pub database_url: String,
    /// Path to a PEM encoded ES256 key for signing tokens.
    pub auth_key_file: String,
    /// Seconds that an auth token is valid for.
    pub auth_token_expiration: u64,
    /// Seconds that a session token is valid for.
    pub session_expiration: u64,
}

/// The server configuration, read once at startup.
pub struct Config {
    pub server_addr: String,
    pub hostname: String,
    pub base_url: String,
    pub database_url: String,
    pub jwt_config: JwtConfig,
    /// Seconds that an auth token is valid for.
    pub auth_token_expiration: u64,
    /// Seconds that a session token is valid for.
    pub session_expiration: u64,
    /// The stages that suffice for a direct login.
    pub auth_flows: LinearSet<LoginFlow>,
    /// The flows that complete interactive authentication.
    pub interactive_auth_flows: LinearSet<InteractiveLoginFlow>,
}

impl Config {
    /// Tokens name this server as their issuer, and its keys match.
    pub open spec fn wf(&self) -> bool {
        &&& self.jwt_config.issuer@ == self.hostname@
        &&& self.jwt_config.wf()
    }
}

/// Why the configuration could not be built.
#[derive(Clone, Copy, Debug, PartialEq, Eq, Structural)]
pub enum ConfigError {
    Key(KeyError),
}

impl RawConfig {
    /// Builds the configuration, given the contents of the key file: a
    /// direct login by password or by token, and interactive
    /// authentication by a password alone.
    pub fn into_config(self, key_pem: &[u8]) -> (r: Result<Config, ConfigError>)
        ensures
            match pem_contents(key_pem@) {
                None => r == Err::<Config, ConfigError>(ConfigError::Key(KeyError::NotPem)),
                Some(der) => {
                    &&& (p256_public_key(der) is None ==> r == Err::<Config, ConfigError>(
                        ConfigError::Key(KeyError::NotP256Key),
                    ))
                    &&& match r {
                        Ok(c) => c.wf() && c.jwt_config.auth_key@ == der && c.hostname@
                            == self.hostname@ && c.base_url@ == self.base_url@ && c.server_addr@
                            == self.server_addr@ && c.database_url@ == self.database_url@
                            && c.auth_token_expiration == self.auth_token_expiration
                            && c.session_expiration == self.session_expiration && login_flow_set(
                            c.auth_flows,
                        ) == set![LoginType::Password, LoginType::Token] && interactive_flow_set(
                            c.interactive_auth_flows,
                        ) == set![seq![LoginType::Password]],
                        Err(e) => e == ConfigError::Key(KeyError::NotP256Key),
                    }
                },
            },
    {
        let jwt_config = match JwtConfig::new(self.hostname.as_str(), key_pem) {
            Ok(j) => j,
            Err(e) => return Err(ConfigError::Key(e)),
        };
        let mut auth_flows = new_login_flow_set();
        insert_login_flow(&mut auth_flows, LoginFlow { login_type: LoginType::Password });
        insert_login_flow(&mut auth_flows, LoginFlow { login_type: LoginType::Token });
        let mut stages: Vec<LoginType> = Vec::new();
        stages.push(LoginType::Password);
        let mut interactive_auth_flows = new_interactive_flow_set();
        insert_interactive_flow(&mut interactive_auth_flows, InteractiveLoginFlow { stages });
        assert(login_flow_set(auth_flows) =~= set![LoginType::Password, LoginType::Token]);
        assert(interactive_flow_set(interactive_auth_flows) =~= set![seq![LoginType::Password]]);
        Ok(
            Config {
                server_addr: self.server_addr,
                hostname: self.hostname,
                base_url: self.base_url,
                database_url: self.database_url,
                jwt_config,
                auth_token_expiration: self.auth_token_expiration,
                session_expiration: self.session_expiration,
                auth_flows,
                interactive_auth_flows,
            },
        )
    }
}

} // verus!
