//! The hashing operation: derive a self-describing digest string.

use vstd::prelude::*;
use vstd::string::StrSliceExecFns;
use argon2::password_hash::Salt;
use argon2::Algorithm as ExtAlgorithm;
use argon2::Argon2;
use argon2::Params as ExtParams;
use argon2::PasswordHash;
use argon2::Version as ExtVersion;
use crate::digest::algorithm_ident;
use crate::digest::digest_of;
use crate::digest::opt_view;
use crate::digest::password_ok;
use crate::digest::phc_parse;
use crate::digest::secret_ok;
use crate::digest::verifies;
use crate::encode::b64_encode;
use crate::encode::b64_len;
use crate::encode::b64_no_pad;
use crate::encode::is_b64_char;
use crate::encode::lemma_b64_len;
use crate::failure::Failure;
use crate::params::Algorithm;
use crate::params::AllParams;
use crate::params::Version;

verus! {

/// The digest that `hash` derives for the given configuration and
/// inputs, or the failure it reports: the salt must encode to between
/// 4 and 64 characters of salt text, the raw salt must be at least 8
/// bytes, and password and secret must each fit in 2^32 - 1 bytes.
pub open spec fn hash_spec(
    cfg: AllParams,
    password: Seq<u8>,
    salt: Seq<u8>,
    secret: Option<Seq<u8>>,
) -> Result<Seq<char>, Failure> {
    if b64_len(salt.len()) < 4 || b64_len(salt.len()) > 64 {
        Err(Failure::InvalidSalt)
    } else if salt.len() < 8 || !password_ok(password) || !secret_ok(secret) {
        Err(Failure::HashingFailed)
    } else {
        Ok(
            digest_of(
                algorithm_ident(cfg.algorithm),
                cfg.version.number(),
                cfg.m_cost,
                cfg.t_cost,
                cfg.p_cost,
                secret,
                password,
                b64_no_pad(salt),
            ),
        )
    }
}

/// Derive the PHC digest string for a password, salt text and optional
/// secret under the given configuration.
///
/// Relies on `password_hash::PasswordHash::generate` driving an
/// `argon2::Argon2` hasher, and on the `PasswordHash` rendering of the
/// result:
/// - the digest text is a deterministic function of variant, version,
///   costs, secret, password and salt text, and starts with `$`;
/// - generation succeeds exactly when the salt text decodes under strict
///   unpadded base64 (in particular its length is not 1 mod 4) to at
///   least 8 bytes, and password and secret each fit in 2^32 - 1 bytes;
/// - the digest embeds the variant identifier, the version number and
///   the three costs, and `password_hash::PasswordHash::new` parses them
///   back;
/// - the digest verifies against the same password and secret
///   (`password_hash::PasswordVerifier::verify_password`).
///
/// The derivation allocates the configured memory cost up front; a cost
/// the machine cannot serve ends in the global allocation failure path,
/// as every exhausted allocation does in this module's host model.
#[verifier::external_body]
fn argon2_generate(
    cfg: &AllParams,
    secret: Option<&Vec<u8>>,
    password: &Vec<u8>,
    salt_b64: &String,
) -> (r: Result<String, ()>)
    requires
        cfg.wf(),
        4 <= salt_b64@.len() <= 64,
        forall|i: int| 0 <= i < salt_b64@.len() ==> is_b64_char(#[trigger] salt_b64@[i]),
    ensures
        r.is_ok() ==> salt_b64@.len() >= 11 && password_ok(password@) && secret_ok(
            opt_view(secret),
        ),
        (password_ok(password@) && secret_ok(opt_view(secret)) && (exists|b: Seq<u8>|
            salt_b64@ == b64_no_pad(b) && b.len() >= 8)) ==> r.is_ok(),
        r matches Ok(d) ==> d@ == digest_of(
            algorithm_ident(cfg.algorithm),
            cfg.version.number(),
            cfg.m_cost,
            cfg.t_cost,
            cfg.p_cost,
            opt_view(secret),
            password@,
            salt_b64@,
        ),
        r matches Ok(d) ==> phc_parse(d@) == Some(
            (
                algorithm_ident(cfg.algorithm),
                Some(cfg.version.number()),
                cfg.m_cost,
                cfg.t_cost,
                cfg.p_cost,
            ),
        ),
        r matches Ok(d) ==> verifies(d@, password@, opt_view(secret)),
        r matches Ok(d) ==> d@.len() > 0 && d@[0] == '$',
{
    let params = ExtParams::new(cfg.m_cost, cfg.t_cost, cfg.p_cost, None).map_err(|_| ())?;
    let algorithm = match cfg.algorithm {
        Algorithm::Argon2i => ExtAlgorithm::Argon2i,
        Algorithm::Argon2d => ExtAlgorithm::Argon2d,
        Algorithm::Argon2id => ExtAlgorithm::Argon2id,
    };
    let version = if matches!(cfg.version, Version::V0x10) { ExtVersion::V0x10 } else { ExtVersion::V0x13 };
    let salt = Salt::from_b64(salt_b64.as_str()).map_err(|_| ())?;
    let hasher = match secret {
        Some(s) => Argon2::new_with_secret(s, algorithm, version, params).map_err(|_| ())?,
        None => Argon2::new(algorithm, version, params),
    };
    Ok(PasswordHash::generate(hasher, password, salt).map_err(|_| ())?.to_string())
}

/// Derive the self-describing digest string for `password` and `salt`
/// under the configuration `params`, keyed with `secret` where one is
/// given.  The salt bytes are encoded as unpadded standard base64 salt
/// text first; the digest embeds the configuration, so verification
/// needs no access to it.
pub fn hash(
    password: &Vec<u8>,
    salt: &Vec<u8>,
    secret: Option<&Vec<u8>>,
    params: &AllParams,
) -> (r: Result<String, Failure>)
    requires
        params.wf(),
    ensures
        r matches Ok(d) ==> hash_spec(*params, password@, salt@, opt_view(secret)) == Ok::<
            Seq<char>,
            Failure,
        >(d@),
        r matches Err(f) ==> hash_spec(*params, password@, salt@, opt_view(secret)) == Err::<
            Seq<char>,
            Failure,
        >(f),
        r matches Ok(d) ==> phc_parse(d@) == Some(
            (
                algorithm_ident(params.algorithm),
                Some(params.version.number()),
                params.m_cost,
                params.t_cost,
                params.p_cost,
            ),
        ),
        r matches Ok(d) ==> verifies(d@, password@, opt_view(secret)),
        r matches Ok(d) ==> d@.len() > 0 && d@[0] == '$',
{
    let salt_b64 = b64_encode(salt);
    let len = salt_b64.as_str().unicode_len();
    proof {
        lemma_b64_len(salt@.len());
    }
    if len < 4 || len > 64 {
        return Err(Failure::InvalidSalt);
    }
    match argon2_generate(params, secret, password, &salt_b64) {
        Ok(d) => {
            proof {
                assert(salt@.len() >= 8);
            }
            Ok(d)
        },
        Err(()) => {
            proof {
                if salt@.len() >= 8 && password_ok(password@) && secret_ok(opt_view(secret)) {
                    assert(salt_b64@ == b64_no_pad(salt@) && salt@.len() >= 8);
                    assert(false);
                }
            }
            Err(Failure::HashingFailed)
        },
    }
}

} // verus!
