//! The verification operation: check a password against a digest.
//!
//! The digest is self-describing: algorithm, version and costs are
//! parsed out of it and always take precedence, so verification never
//! consults a configuration.

use vstd::prelude::*;
use argon2::Algorithm as ExtAlgorithm;
use argon2::Argon2;
use argon2::Params as ExtParams;
use argon2::PasswordHash;
use argon2::PasswordVerifier;
use argon2::Version as ExtVersion;
use crate::digest::opt_view;
use crate::digest::phc_parse;
use crate::digest::secret_ok;
use crate::digest::spec_ident_algorithm;
use crate::digest::verifies;
use crate::digest::ParsedDigest;
use crate::failure::Failure;
use crate::params::params_valid;
use crate::params::Algorithm;
use crate::params::Version;

verus! {

/// The outcome `verify` reports for a digest, password and optional
/// secret: a boolean match for well-formed digests of a supported
/// algorithm and version, a failure otherwise.
pub open spec fn verify_spec(
    digest: Seq<char>,
    password: Seq<u8>,
    secret: Option<Seq<u8>>,
) -> Result<bool, Failure> {
    if digest.len() == 0 || digest[0] != '$' {
        Err(Failure::InvalidDigest)
    } else {
        match phc_parse(digest) {
            None => Err(Failure::InvalidDigest),
            Some((ident, version, m_cost, t_cost, p_cost)) => {
                match spec_ident_algorithm(ident) {
                    None => Err(Failure::UnknownAlgorithm),
                    Some(_) => {
                        match version {
                            Some(v) if v != 0x10 && v != 0x13 => Err(Failure::UnknownVersion),
                            _ => {
                                if !secret_ok(secret) {
                                    Err(Failure::SecretTooLong)
                                } else {
                                    Ok(verifies(digest, password, secret))
                                }
                            },
                        }
                    },
                }
            },
        }
    }
}

/// Parse a PHC digest string into its self-describing fields.
///
/// Relies on `password_hash::PasswordHash::new` and
/// `argon2::Params::try_from`: parsing succeeds exactly where the text
/// is a well-formed PHC string whose embedded parameters the hashing
/// library accepts; it recovers the algorithm identifier, the embedded
/// version where one is present, and the three costs; a text that is
/// empty or does not begin with `$` never parses; recovered costs lie
/// within the parameter builder's bounds.  A digest whose embedded `p`
/// exceeds 2^24 - 1 is rejected before the builder sees it: the
/// builder's own `8 * p_cost` bound check would overflow on such a
/// value, the same overflow that `params_build` guards against on the
/// configuration path.
#[verifier::external_body]
fn parse_digest(digest: &str) -> (r: Result<ParsedDigest, ()>)
    ensures
        r.is_ok() <==> phc_parse(digest@) is Some,
        r matches Ok(p) ==> phc_parse(digest@) == Some(
            (p.algorithm@, p.version, p.m_cost, p.t_cost, p.p_cost),
        ),
        r matches Ok(p) ==> params_valid(p.m_cost, p.t_cost, p.p_cost),
        digest@.len() == 0 || digest@[0] != '$' ==> r is Err,
{
    let parsed = PasswordHash::new(digest).map_err(|_| ())?;
    if matches!(parsed.params.get_decimal("p"), Some(p) if p > 0xFFFFFF) {
        return Err(());
    }
    let params = ExtParams::try_from(&parsed).map_err(|_| ())?;
    Ok(
        ParsedDigest {
            algorithm: parsed.algorithm.as_str().as_bytes().to_vec(),
            version: parsed.version,
            m_cost: params.m_cost(),
            t_cost: params.t_cost(),
            p_cost: params.p_cost(),
        },
    )
}

/// Recompute and compare a digest against a password and optional
/// secret.
///
/// Relies on `password_hash::PasswordVerifier::verify_password` for
/// `argon2::Argon2`: the verifier takes algorithm, version, salt and
/// costs from the digest itself, keeps only the hasher's secret, and
/// compares the recomputed key in constant time, so the outcome is a
/// function of digest, password and secret alone; every internal error
/// counts as a mismatch.  Construction of the keyed hasher fails only
/// where the secret exceeds 2^32 - 1 bytes
/// (`argon2::Argon2::new_with_secret`).
#[verifier::external_body]
fn argon2_verify(
    digest: &str,
    algorithm: Algorithm,
    version: Version,
    m_cost: u32,
    t_cost: u32,
    p_cost: u32,
    secret: Option<&Vec<u8>>,
    password: &Vec<u8>,
) -> (r: Result<bool, ()>)
    requires
        phc_parse(digest@) is Some,
        params_valid(m_cost, t_cost, p_cost),
    ensures
        r.is_ok() <==> secret_ok(opt_view(secret)),
        r matches Ok(m) ==> m == verifies(digest@, password@, opt_view(secret)),
{
    let params = ExtParams::new(m_cost, t_cost, p_cost, None).map_err(|_| ())?;
    let algorithm = match algorithm {
        Algorithm::Argon2i => ExtAlgorithm::Argon2i,
        Algorithm::Argon2d => ExtAlgorithm::Argon2d,
        Algorithm::Argon2id => ExtAlgorithm::Argon2id,
    };
    let version = if matches!(version, Version::V0x10) { ExtVersion::V0x10 } else { ExtVersion::V0x13 };
    let hasher = match secret {
        Some(s) => Argon2::new_with_secret(s, algorithm, version, params).map_err(|_| ())?,
        None => Argon2::new(algorithm, version, params),
    };
    let parsed = PasswordHash::new(digest).map_err(|_| ())?;
    Ok(hasher.verify_password(password, &parsed).is_ok())
}

/// The supported variant named by a digest's algorithm identifier.
fn algorithm_of_ident(ident: &Vec<u8>) -> (r: Option<Algorithm>)
    ensures
        r == spec_ident_algorithm(ident@),
{
    if ident.len() == 7 && ident[0] == 97 && ident[1] == 114 && ident[2] == 103 && ident[3] == 111
        && ident[4] == 110 && ident[5] == 50 {
        if ident[6] == 105 {
            proof {
                assert(ident@ =~= crate::digest::algorithm_ident(Algorithm::Argon2i));
            }
            return Some(Algorithm::Argon2i);
        }
        if ident[6] == 100 {
            proof {
                assert(ident@ =~= crate::digest::algorithm_ident(Algorithm::Argon2d));
            }
            return Some(Algorithm::Argon2d);
        }
        return None;
    }
    if ident.len() == 8 && ident[0] == 97 && ident[1] == 114 && ident[2] == 103 && ident[3] == 111
        && ident[4] == 110 && ident[5] == 50 && ident[6] == 105 && ident[7] == 100 {
        proof {
            assert(ident@ =~= crate::digest::algorithm_ident(Algorithm::Argon2id));
        }
        return Some(Algorithm::Argon2id);
    }
    None
}

/// Check `password` (together with `secret`, where one is given)
/// against a self-describing digest string.  The parameters embedded in
/// the digest always take precedence; no stored configuration is read.
/// A structurally invalid digest, an unrecognized algorithm name and an
/// unrecognized version number are failures, distinct from a valid but
/// non-matching digest, which is an `Ok(false)`.
pub fn verify(digest: &str, password: &Vec<u8>, secret: Option<&Vec<u8>>) -> (r: Result<
    bool,
    Failure,
>)
    ensures
        r == verify_spec(digest@, password@, opt_view(secret)),
{
    let parsed = match parse_digest(digest) {
        Ok(p) => p,
        Err(()) => {
            return Err(Failure::InvalidDigest);
        },
    };
    let algorithm = match algorithm_of_ident(&parsed.algorithm) {
        Some(a) => a,
        None => {
            return Err(Failure::UnknownAlgorithm);
        },
    };
    let version = match parsed.version {
        Some(v) => {
            if v == 0x10 {
                Version::V0x10
            } else if v == 0x13 {
                Version::V0x13
            } else {
                return Err(Failure::UnknownVersion);
            }
        },
        None => Version::V0x13,
    };
    match argon2_verify(
        digest,
        algorithm,
        version,
        parsed.m_cost,
        parsed.t_cost,
        parsed.p_cost,
        secret,
        password,
    ) {
        Ok(matches) => Ok(matches),
        Err(()) => Err(Failure::SecretTooLong),
    }
}

} // verus!
