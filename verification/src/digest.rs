//! The spec-level model of self-describing Argon2 digests.
//!
//! A digest is a PHC string: `$argon2<variant>$v=<version>$m=<mem>,
//! t=<time>,p=<par>$<salt-b64>$<hash-b64>`.  Deriving and comparing the
//! derived key is the hashing library's work; these functions name what
//! it computes so that contracts can speak about it.

use vstd::prelude::*;
use crate::params::Algorithm;

verus! {

/// The byte sequence view of an optional borrowed byte buffer.
pub open spec fn opt_view(s: Option<&Vec<u8>>) -> Option<Seq<u8>> {
    match s {
        None => None,
        Some(v) => Some(v@),
    }
}

/// A secret the hashing library accepts: at most 2^32 - 1 bytes.
pub open spec fn secret_ok(s: Option<Seq<u8>>) -> bool {
    match s {
        None => true,
        Some(b) => b.len() <= 0xFFFFFFFF,
    }
}

/// A password the hashing library accepts: at most 2^32 - 1 bytes.
pub open spec fn password_ok(p: Seq<u8>) -> bool {
    p.len() <= 0xFFFFFFFF
}

/// The identifier under which a variant appears in digests:
/// `argon2i`, `argon2d` or `argon2id`.
pub open spec fn algorithm_ident(a: Algorithm) -> Seq<u8> {
    match a {
        Algorithm::Argon2i => seq![97u8, 114u8, 103u8, 111u8, 110u8, 50u8, 105u8],
        Algorithm::Argon2d => seq![97u8, 114u8, 103u8, 111u8, 110u8, 50u8, 100u8],
        Algorithm::Argon2id => seq![97u8, 114u8, 103u8, 111u8, 110u8, 50u8, 105u8, 100u8],
    }
}

/// The variant named by a digest's algorithm identifier, if any.
pub open spec fn spec_ident_algorithm(ident: Seq<u8>) -> Option<Algorithm> {
    if ident == algorithm_ident(Algorithm::Argon2i) {
        Some(Algorithm::Argon2i)
    } else if ident == algorithm_ident(Algorithm::Argon2d) {
        Some(Algorithm::Argon2d)
    } else if ident == algorithm_ident(Algorithm::Argon2id) {
        Some(Algorithm::Argon2id)
    } else {
        None
    }
}

/// The digest text the hashing library derives for the given variant
/// identifier, version number, costs, optional secret, password and
/// salt text.  The derivation is deterministic: it depends on these
/// arguments alone.
pub uninterp spec fn digest_of(
    alg_ident: Seq<u8>,
    version: u32,
    m_cost: u32,
    t_cost: u32,
    p_cost: u32,
    secret: Option<Seq<u8>>,
    password: Seq<u8>,
    salt_b64: Seq<char>,
) -> Seq<char>;

/// What parsing a PHC string recovers: the algorithm identifier bytes,
/// the version number if one is embedded, and the three embedded costs
/// — or nothing, where the text is not a well-formed PHC string whose
/// parameters the hashing library accepts.
pub uninterp spec fn phc_parse(digest: Seq<char>) -> Option<(Seq<u8>, Option<u32>, u32, u32, u32)>;

/// Whether the hashing library, recomputing from the digest's embedded
/// salt and parameters, accepts `password` together with `secret`
/// against `digest`.  The outcome depends on these arguments alone.
pub uninterp spec fn verifies(
    digest: Seq<char>,
    password: Seq<u8>,
    secret: Option<Seq<u8>>,
) -> bool;

/// The fields recovered from a digest: algorithm identifier, embedded
/// version, and the three embedded costs.
pub struct ParsedDigest {
    /// Algorithm identifier bytes, e.g. `argon2id`.
    pub algorithm: Vec<u8>,
    /// Version number, where the digest embeds one.
    pub version: Option<u32>,
    /// Embedded memory cost in KiB.
    pub m_cost: u32,
    /// Embedded time cost in iterations.
    pub t_cost: u32,
    /// Embedded parallelism in lanes.
    pub p_cost: u32,
}

} // verus!
