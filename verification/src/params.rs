//! Algorithm selection and cost parameters.
//!
//! A host configures one [`AllParams`] value and threads it into every
//! hashing call.  [`setup_params`] validates raw configuration input the
//! way the hashing library's parameter builder does and produces the new
//! configuration as a value, so replacing the old one is atomic at the
//! caller.

use vstd::prelude::*;
use crate::failure::Failure;

verus! {

/// The Argon2 variant in use.
#[derive(Clone, Copy, Debug, PartialEq, Eq, Structural)]
pub enum Algorithm {
    /// Data-independent addressing.
    Argon2i,
    /// Data-dependent addressing.
    Argon2d,
    /// Hybrid addressing.
    Argon2id,
}

/// The Argon2 version in use.
#[derive(Clone, Copy, Debug, PartialEq, Eq, Structural)]
pub enum Version {
    /// Version 0x10.
    V0x10,
    /// Version 0x13 (current).
    V0x13,
}

impl Version {
    /// The numeric value embedded in digests for this version.
    pub open spec fn number(self) -> u32 {
        match self {
            Version::V0x10 => 0x10,
            Version::V0x13 => 0x13,
        }
    }
}

/// One full parameter configuration: variant, version and the three
/// cost parameters.
#[derive(Clone, Copy, Debug, PartialEq, Eq, Structural)]
pub struct AllParams {
    /// Algorithm variant.
    pub algorithm: Algorithm,
    /// Version number.
    pub version: Version,
    /// Memory cost in KiB.
    pub m_cost: u32,
    /// Time cost in iterations.
    pub t_cost: u32,
    /// Parallelism in lanes.
    pub p_cost: u32,
}

/// The bounds that the hashing library's parameter builder accepts:
/// at least 8 KiB of memory and 8 KiB per lane, at least one iteration,
/// and between 1 and 2^24 - 1 lanes.
pub open spec fn params_valid(m_cost: u32, t_cost: u32, p_cost: u32) -> bool {
    &&& m_cost >= 8
    &&& m_cost as int >= 8 * (p_cost as int)
    &&& t_cost >= 1
    &&& 1 <= p_cost <= 0xFFFFFF
}

impl AllParams {
    /// A configuration is well formed when its costs lie within the
    /// hashing library's accepted bounds.
    pub open spec fn wf(self) -> bool {
        params_valid(self.m_cost, self.t_cost, self.p_cost)
    }
}

/// The costs of the hashing library's recommended default parameters.
///
/// Relies on `argon2::Params::{DEFAULT_M_COST, DEFAULT_T_COST,
/// DEFAULT_P_COST}`, whose values are 19 * 1024, 2 and 1.
#[verifier::external_body]
fn default_costs() -> (r: (u32, u32, u32))
    ensures
        r == (19456u32, 2u32, 1u32),
{
    (
        argon2::Params::DEFAULT_M_COST,
        argon2::Params::DEFAULT_T_COST,
        argon2::Params::DEFAULT_P_COST,
    )
}

impl Default for AllParams {
    /// The fixed starting configuration: Argon2id, version 0x13, the
    /// library's default costs.
    fn default() -> (d: Self)
        ensures
            d == (AllParams {
                algorithm: Algorithm::Argon2id,
                version: Version::V0x13,
                m_cost: 19456u32,
                t_cost: 2u32,
                p_cost: 1u32,
            }),
            d.wf(),
    {
        let (m_cost, t_cost, p_cost) = default_costs();
        AllParams { algorithm: Algorithm::Argon2id, version: Version::V0x13, m_cost, t_cost, p_cost }
    }
}

/// Validate the three cost parameters through the hashing library's
/// parameter builder.
///
/// Relies on `argon2::ParamsBuilder::build` (through `argon2::Params::new`):
/// it returns `Ok` exactly when `m_cost >= 8`, `m_cost >= 8 * p_cost`,
/// `t_cost >= 1` and `1 <= p_cost <= 0xFFFFFF`, and it stores the three
/// costs unchanged.  `p_cost` must stay below 2^24 so that the builder's
/// `8 * p_cost` bound check cannot overflow.
#[verifier::external_body]
fn params_build(m_cost: u32, t_cost: u32, p_cost: u32) -> (r: Result<(u32, u32, u32), ()>)
    requires
        p_cost <= 0xFFFFFF,
    ensures
        r.is_ok() <==> params_valid(m_cost, t_cost, p_cost),
        r.is_ok() ==> r.unwrap() == (m_cost, t_cost, p_cost),
{
    let params = argon2::ParamsBuilder::new()
        .m_cost(m_cost)
        .t_cost(t_cost)
        .p_cost(p_cost)
        .build()
        .map_err(|_| ())?;
    Ok((params.m_cost(), params.t_cost(), params.p_cost()))
}

/// The algorithm variant named by a four-byte tag: `i___`, `d___` or
/// `id__`.
pub open spec fn spec_tag_algorithm(tag: Seq<u8>) -> Option<Algorithm> {
    if tag =~= seq![105u8, 95u8, 95u8, 95u8] {
        Some(Algorithm::Argon2i)
    } else if tag =~= seq![100u8, 95u8, 95u8, 95u8] {
        Some(Algorithm::Argon2d)
    } else if tag =~= seq![105u8, 100u8, 95u8, 95u8] {
        Some(Algorithm::Argon2id)
    } else {
        None
    }
}

/// The configuration that `setup_params` produces for the given raw
/// input, or the failure it reports.
pub open spec fn setup_params_spec(
    tag: Seq<u8>,
    version: u32,
    m_cost: u32,
    t_cost: u32,
    p_cost: u32,
) -> Result<AllParams, Failure> {
    match spec_tag_algorithm(tag) {
        None => Err(Failure::InvalidAlgorithm),
        Some(algorithm) => {
            if version != 0x10 && version != 0x13 {
                Err(Failure::InvalidVersion)
            } else if !params_valid(m_cost, t_cost, p_cost) {
                Err(Failure::InvalidParams)
            } else {
                Ok(
                    AllParams {
                        algorithm,
                        version: if version == 0x10 {
                            Version::V0x10
                        } else {
                            Version::V0x13
                        },
                        m_cost,
                        t_cost,
                        p_cost,
                    },
                )
            }
        },
    }
}

/// Build a new configuration from raw input: a four-byte algorithm tag,
/// a version number, and the three cost parameters.  The costs are
/// validated by the hashing library's parameter builder; any invalid
/// input is reported as a failure and leaves no partial state behind.
pub fn setup_params(
    algorithm: [u8; 4],
    version: u32,
    m_cost: u32,
    t_cost: u32,
    p_cost: u32,
) -> (r: Result<AllParams, Failure>)
    ensures
        r == setup_params_spec(algorithm@, version, m_cost, t_cost, p_cost),
        r matches Ok(c) ==> c.wf(),
{
    let algorithm = if algorithm[0] == 105u8 && algorithm[1] == 95u8 && algorithm[2] == 95u8
        && algorithm[3] == 95u8 {
        proof {
            assert(algorithm@ =~= seq![105u8, 95u8, 95u8, 95u8]);
        }
        Algorithm::Argon2i
    } else if algorithm[0] == 100u8 && algorithm[1] == 95u8 && algorithm[2] == 95u8 && algorithm[3]
        == 95u8 {
        proof {
            assert(algorithm@ =~= seq![100u8, 95u8, 95u8, 95u8]);
        }
        Algorithm::Argon2d
    } else if algorithm[0] == 105u8 && algorithm[1] == 100u8 && algorithm[2] == 95u8 && algorithm[3]
        == 95u8 {
        proof {
            assert(algorithm@ =~= seq![105u8, 100u8, 95u8, 95u8]);
        }
        Algorithm::Argon2id
    } else {
        proof {
            assert(spec_tag_algorithm(algorithm@) is None);
        }
        return Err(Failure::InvalidAlgorithm);
    };

    let version = match version {
        0x10 => Version::V0x10,
        0x13 => Version::V0x13,
        _ => {
            return Err(Failure::InvalidVersion);
        },
    };

    if p_cost > 0xFFFFFF {
        return Err(Failure::InvalidParams);
    }
    match params_build(m_cost, t_cost, p_cost) {
        Ok((m_cost, t_cost, p_cost)) => Ok(
            AllParams { algorithm, version, m_cost, t_cost, p_cost },
        ),
        Err(()) => Err(Failure::InvalidParams),
    }
}

} // verus!
