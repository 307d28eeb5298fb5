//! The calls this library makes into the crates it builds on. Verus does not
//! look into their bodies: each contract here is taken on trust, and says in
//! its comment what it claims of the function it calls.

use crate::common::constant::{CLAIM_EMAIL, CLAIM_EXP, CLAIM_PK_ID, CLAIM_USERNAME, PHC_PREFIX};
use crate::model::user::{RawClaims, RawClaimsView, UserToken, UserTokenView};
use argon2::password_hash::{PasswordHasher, PasswordVerifier};
use vstd::prelude::*;

verus! {

/// The error type of the `password-hash` crate, which `argon2` reports with.
#[verifier::external_type_specification]
#[verifier::external_body]
pub struct ExPasswordHashError(argon2::password_hash::Error);

/// The error type of `jsonwebtoken`.
#[verifier::external_type_specification]
#[verifier::external_body]
pub struct ExJwtError(jsonwebtoken::errors::Error);

/// The PHC string that Argon2id computes for a password under a salt and the
/// given costs and version, or `None` where it rejects them.
pub uninterp spec fn argon2_phc(
    password: Seq<char>,
    salt: Seq<char>,
    t_cost: u32,
    m_cost: u32,
    parallelism: u32,
    version: u32,
) -> Option<Seq<char>>;

/// Whether Argon2 accepts a password for a stored PHC string, or `None` where
/// the stored string or the costs are rejected before any comparison.
pub uninterp spec fn argon2_check(
    password: Seq<char>,
    stored: Seq<char>,
    t_cost: u32,
    m_cost: u32,
    parallelism: u32,
    version: u32,
) -> Option<bool>;

/// The compact HS256 token that carries the claims under a secret, or `None`
/// where signing fails.
pub uninterp spec fn jwt_compact(claims: UserTokenView, secret: Seq<u8>) -> Option<Seq<char>>;

/// The payload of a compact token whose HS256 signature checks out under a
/// secret, or `None` where the token is malformed or the signature is another.
pub uninterp spec fn jwt_payload(token: Seq<char>, secret: Seq<u8>) -> Option<RawClaimsView>;

/// `SaltString::generate` of `password-hash`, fed by the operating system's
/// random source: sixteen random bytes in unpadded base64, which makes
/// twenty-two characters. Nothing else is claimed of the result.
#[verifier::external_body]
pub(crate) fn random_salt() -> (salt: String)
    ensures
        salt@.len() == 22,
{
    argon2::password_hash::SaltString::generate(&mut rand_core::OsRng).as_str().to_string()
}

/// The largest number of lanes Argon2 takes. `Argon2::new` multiplies the lanes
/// by eight before it holds them to this bound, so a larger number may
/// overflow there.
pub const ARGON2_MAX_LANES: u32 = 0xFFFFFF;

/// `Argon2::new` followed by `hash_password_simple`, rendered as a PHC string.
/// The result is a function of the arguments alone and is named
/// [`argon2_phc`]. The second claim is that the same costs accept the password
/// for the string just computed: verification reads algorithm, version, costs
/// and salt back from the string and recomputes the same digest. The lanes are
/// held to the bound under which `Argon2::new` returns.
#[verifier::external_body]
pub(crate) fn argon2_hash(
    password: &str,
    salt: &str,
    t_cost: u32,
    m_cost: u32,
    parallelism: u32,
    version: u32,
) -> (out: Result<String, argon2::password_hash::Error>)
    requires
        parallelism <= ARGON2_MAX_LANES,
    ensures
        out matches Ok(phc) ==> argon2_phc(password@, salt@, t_cost, m_cost, parallelism, version)
            == Some(phc@) && argon2_check(password@, phc@, t_cost, m_cost, parallelism, version)
            == Some(true),
        out is Err ==> argon2_phc(password@, salt@, t_cost, m_cost, parallelism, version) is None,
{
    let version = argon2::Version::try_from(version)?;
    let argon2 = argon2::Argon2::new(None, t_cost, m_cost, parallelism, version)?;
    Ok(argon2.hash_password_simple(password.as_bytes(), salt)?.to_string())
}

/// `PasswordHash::new`, `Argon2::new` and `verify_password`: `Ok(true)` where
/// the stored string parses and the password reproduces its digest, `Ok(false)`
/// where it parses and the password does not, an error where the stored string
/// or the costs are rejected. The result is a function of the arguments alone
/// and is named [`argon2_check`].
///
/// Verification computes with the costs it reads from the stored string, not
/// with those it is given, and with too many lanes it does not return. So the
/// stored string has to begin as the hashes of this library do, which fixes
/// the costs it names; and the lanes given are held to their bound as well.
#[verifier::external_body]
pub(crate) fn argon2_verify(
    password: &str,
    stored: &str,
    t_cost: u32,
    m_cost: u32,
    parallelism: u32,
    version: u32,
) -> (out: Result<bool, argon2::password_hash::Error>)
    requires
        parallelism <= ARGON2_MAX_LANES,
        PHC_PREFIX@.is_prefix_of(stored@),
    ensures
        out matches Ok(accepted) ==> argon2_check(
            password@,
            stored@,
            t_cost,
            m_cost,
            parallelism,
            version,
        ) == Some(accepted),
        out is Err ==> argon2_check(password@, stored@, t_cost, m_cost, parallelism, version)
            is None,
{
    let parsed = argon2::password_hash::PasswordHash::new(stored)?;
    let version = argon2::Version::try_from(version)?;
    let argon2 = argon2::Argon2::new(None, t_cost, m_cost, parallelism, version)?;
    Ok(argon2.verify_password(password.as_bytes(), &parsed).is_ok())
}

/// `jsonwebtoken::encode` with the default header (HS256) over a JSON object
/// that holds the four claims, each under its name, in the order of their
/// declaration. The result is
/// a function of the arguments alone and is named [`jwt_compact`]. The second
/// claim is that the token just signed decodes, under the same secret, to a
/// payload with exactly these four fields.
#[verifier::external_body]
pub(crate) fn jwt_encode(claims: &UserToken, secret: &[u8]) -> (out: Result<
    String,
    jsonwebtoken::errors::Error,
>)
    ensures
        out matches Ok(token) ==> jwt_compact(claims@, secret@) == Some(token@) && jwt_payload(
            token@,
            secret@,
        ) == Some(claims@.payload()),
        out is Err ==> jwt_compact(claims@, secret@) is None,
{
    let mut payload = serde_json::Map::new();
    payload.insert(CLAIM_PK_ID.to_string(), serde_json::Value::from(claims.pk_id));
    payload.insert(CLAIM_USERNAME.to_string(), serde_json::Value::from(claims.uk_username.as_str()));
    payload.insert(CLAIM_EMAIL.to_string(), serde_json::Value::from(claims.email.as_str()));
    payload.insert(CLAIM_EXP.to_string(), serde_json::Value::from(claims.exp));
    let key = jsonwebtoken::EncodingKey::from_secret(secret);
    jsonwebtoken::encode(&jsonwebtoken::Header::default(), &serde_json::Value::Object(payload), &key)
}

/// `jsonwebtoken::decode` with the default validation (HS256), but with the
/// check of `exp` against the clock switched off, so that the result is a
/// function of the arguments alone; it is named [`jwt_payload`]. Each of the
/// four claims is handed out as it is found under its name in the payload.
#[verifier::external_body]
pub(crate) fn jwt_decode(token: &str, secret: &[u8]) -> (out: Result<
    RawClaims,
    jsonwebtoken::errors::Error,
>)
    ensures
        out matches Ok(raw) ==> jwt_payload(token@, secret@) == Some(raw@),
        out is Err ==> jwt_payload(token@, secret@) is None,
{
    let rules = jsonwebtoken::Validation { validate_exp: false, ..Default::default() };
    let key = jsonwebtoken::DecodingKey::from_secret(secret);
    let payload = jsonwebtoken::decode::<serde_json::Value>(token, &key, &rules)?.claims;
    Ok(RawClaims {
        pk_id: payload.get(CLAIM_PK_ID).and_then(serde_json::Value::as_u64),
        uk_username: payload.get(CLAIM_USERNAME).and_then(serde_json::Value::as_str).map(String::from),
        email: payload.get(CLAIM_EMAIL).and_then(serde_json::Value::as_str).map(String::from),
        exp: payload.get(CLAIM_EXP).and_then(serde_json::Value::as_u64),
    })
}

/// `Local::now().timestamp()` of `chrono`: the seconds since the Unix epoch by
/// the machine's clock. Nothing is claimed of the result.
#[verifier::external_body]
pub(crate) fn unix_time() -> i64 {
    chrono::Local::now().timestamp()
}

/// `Uuid::new_v4().to_urn()` of `uuid`, as text: `urn:uuid:` and the random
/// identifier in its hyphenated form, forty-five characters in all. Nothing
/// else is claimed of the result.
#[verifier::external_body]
pub(crate) fn random_urn() -> (urn: String)
    ensures
        urn@.len() == 45,
{
    uuid::Uuid::new_v4().to_urn().to_string()
}

} // verus!
