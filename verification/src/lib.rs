//! Argon2 password hashing with caller-tunable cost parameters.
//!
//! The library computes and verifies self-describing Argon2 password
//! digests (PHC strings).  Every operation takes its inputs as plain
//! values and reports unrecoverable conditions as a [`failure::Failure`]
//! value instead of halting, so a host layer can decide how to react.

pub mod digest;
pub mod encode;
pub mod failure;
pub mod hashing;
pub mod laws;
pub mod params;
pub mod verification;

pub use failure::alloc_error_handler;
pub use failure::Failure;
pub use hashing::hash;
pub use params::setup_params;
pub use params::Algorithm;
pub use params::AllParams;
pub use params::Version;
pub use verification::verify;
