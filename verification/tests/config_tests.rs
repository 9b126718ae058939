use pwhash::alloc_error_handler;
use pwhash::setup_params;
use pwhash::Algorithm;
use pwhash::AllParams;
use pwhash::Failure;
use pwhash::Version;

#[test]
fn configure_valid_stores_costs() {
    let cfg = setup_params(*b"id__", 0x13, 19456, 2, 1).unwrap();
    assert_eq!(cfg.algorithm, Algorithm::Argon2id);
    assert_eq!(cfg.version, Version::V0x13);
    assert_eq!(cfg.m_cost, 19456);
    assert_eq!(cfg.t_cost, 2);
    assert_eq!(cfg.p_cost, 1);
}

#[test]
fn configure_is_idempotent() {
    let first = setup_params(*b"id__", 0x13, 19456, 2, 1).unwrap();
    let second = setup_params(*b"id__", 0x13, 19456, 2, 1).unwrap();
    assert_eq!(first, second);
}

#[test]
fn configure_accepts_each_variant() {
    assert_eq!(
        setup_params(*b"i___", 0x13, 32, 1, 1).unwrap().algorithm,
        Algorithm::Argon2i
    );
    assert_eq!(
        setup_params(*b"d___", 0x13, 32, 1, 1).unwrap().algorithm,
        Algorithm::Argon2d
    );
    assert_eq!(
        setup_params(*b"id__", 0x10, 32, 1, 1).unwrap().version,
        Version::V0x10
    );
}

#[test]
fn configure_rejects_unknown_tag() {
    let r = setup_params(*b"xx__", 0x13, 19456, 2, 1);
    assert_eq!(r, Err(Failure::InvalidAlgorithm));
}

#[test]
fn configure_rejects_bad_version() {
    let r = setup_params(*b"id__", 0x12, 19456, 2, 1);
    assert_eq!(r, Err(Failure::InvalidVersion));
}

#[test]
fn configure_rejects_bad_costs() {
    // Memory below the 8 KiB minimum.
    assert_eq!(setup_params(*b"id__", 0x13, 4, 2, 1), Err(Failure::InvalidParams));
    // Memory below 8 KiB per lane.
    assert_eq!(setup_params(*b"id__", 0x13, 32, 2, 8), Err(Failure::InvalidParams));
    // Zero iterations.
    assert_eq!(setup_params(*b"id__", 0x13, 32, 0, 1), Err(Failure::InvalidParams));
    // Zero lanes.
    assert_eq!(setup_params(*b"id__", 0x13, 32, 1, 0), Err(Failure::InvalidParams));
    // Too many lanes.
    assert_eq!(
        setup_params(*b"id__", 0x13, u32::MAX, 1, 0x1000000),
        Err(Failure::InvalidParams)
    );
}

#[test]
fn default_configuration() {
    let cfg = AllParams::default();
    assert_eq!(cfg.algorithm, Algorithm::Argon2id);
    assert_eq!(cfg.version, Version::V0x13);
    assert_eq!(cfg.m_cost, 19456);
    assert_eq!(cfg.t_cost, 2);
    assert_eq!(cfg.p_cost, 1);
}

#[test]
fn failure_messages() {
    assert_eq!(Failure::InvalidAlgorithm.message(), "Invalid algorithm");
    assert_eq!(
        Failure::InvalidParams.message(),
        "Invalid parameter memory, time, or parallelism"
    );
    assert_eq!(Failure::HashingFailed.message(), "Failed to hash password");
}

#[test]
fn alloc_error_reports_size() {
    let f = alloc_error_handler(1024);
    assert_eq!(f, Failure::AllocationFailed { size: 1024 });
    assert_eq!(f.message(), "Memory allocation of 1024 bytes failed");
    assert_eq!(
        alloc_error_handler(0).message(),
        "Memory allocation of 0 bytes failed"
    );
    assert_eq!(
        alloc_error_handler(907).message(),
        "Memory allocation of 907 bytes failed"
    );
}
