//! The laws that hold across the exported operations.

use vstd::prelude::*;
use crate::digest::algorithm_ident;
use crate::digest::phc_parse;
use crate::digest::secret_ok;
use crate::digest::spec_ident_algorithm;
use crate::digest::verifies;
use crate::failure::Failure;
use crate::params::setup_params_spec;
use crate::params::spec_tag_algorithm;
use crate::params::Algorithm;
use crate::params::AllParams;
use crate::verification::verify_spec;

verus! {

/// A variant's digest identifier names that variant back.
proof fn lemma_ident_algorithm(a: Algorithm)
    ensures
        spec_ident_algorithm(algorithm_ident(a)) == Some(a),
{
    assert(algorithm_ident(Algorithm::Argon2i).len() == 7);
    assert(algorithm_ident(Algorithm::Argon2d).len() == 7);
    assert(algorithm_ident(Algorithm::Argon2id).len() == 8);
    assert(algorithm_ident(Algorithm::Argon2i)[6] == 105u8);
    assert(algorithm_ident(Algorithm::Argon2d)[6] == 100u8);
}

/// Round trip: a digest that `hash` produced verifies against the
/// password and secret it was produced from, under whatever supported
/// parameter set was configured at hashing time.  The premises are
/// exactly what `hash` ensures of every digest it returns: the digest
/// opens with `$`, embeds the configuration it was produced under, and
/// verifies against its own password and secret.  Verification reads no
/// configuration, so the conclusion is unchanged by any reconfiguration
/// between the two calls: the embedded parameters take precedence.
pub proof fn lemma_round_trip(
    cfg: AllParams,
    d: Seq<char>,
    password: Seq<u8>,
    secret: Option<Seq<u8>>,
)
    requires
        d.len() > 0 && d[0] == '$',
        phc_parse(d) == Some(
            (
                algorithm_ident(cfg.algorithm),
                Some(cfg.version.number()),
                cfg.m_cost,
                cfg.t_cost,
                cfg.p_cost,
            ),
        ),
        verifies(d, password, secret),
        secret_ok(secret),
    ensures
        verify_spec(d, password, secret) == Ok::<bool, Failure>(true),
{
    lemma_ident_algorithm(cfg.algorithm);
}

/// Idempotent configuration: two configurations built from identical
/// valid arguments are the same observable state, so applying the
/// second changes nothing.
pub proof fn lemma_setup_params_idempotent(
    tag: Seq<u8>,
    version: u32,
    m_cost: u32,
    t_cost: u32,
    p_cost: u32,
    r1: AllParams,
    r2: AllParams,
)
    requires
        setup_params_spec(tag, version, m_cost, t_cost, p_cost) == Ok::<AllParams, Failure>(r1),
        setup_params_spec(tag, version, m_cost, t_cost, p_cost) == Ok::<AllParams, Failure>(r2),
    ensures
        r1 == r2,
{
}

/// A configuration naming no supported algorithm tag is rejected and
/// produces no configuration.
pub proof fn lemma_invalid_tag_rejected(
    tag: Seq<u8>,
    version: u32,
    m_cost: u32,
    t_cost: u32,
    p_cost: u32,
)
    requires
        spec_tag_algorithm(tag) is None,
    ensures
        setup_params_spec(tag, version, m_cost, t_cost, p_cost) == Err::<AllParams, Failure>(
            Failure::InvalidAlgorithm,
        ),
{
}

/// A digest that does not open with `$` is rejected as structurally
/// invalid, never reported as a match or a mismatch.
pub proof fn lemma_unprefixed_digest_rejected(
    d: Seq<char>,
    password: Seq<u8>,
    secret: Option<Seq<u8>>,
)
    requires
        d.len() == 0 || d[0] != '$',
    ensures
        verify_spec(d, password, secret) == Err::<bool, Failure>(Failure::InvalidDigest),
{
}

/// A parsed digest whose algorithm identifier names no supported
/// variant is rejected, whatever else it holds.
pub proof fn lemma_unknown_algorithm_rejected(
    d: Seq<char>,
    password: Seq<u8>,
    secret: Option<Seq<u8>>,
)
    requires
        phc_parse(d) matches Some(fields) && spec_ident_algorithm(fields.0) is None,
    ensures
        verify_spec(d, password, secret) is Err,
{
}

} // verus!
