use pwhash::hash;
use pwhash::setup_params;
use pwhash::verify;
use pwhash::Failure;

fn cheap_config() -> pwhash::AllParams {
    setup_params(*b"id__", 0x13, 32, 1, 1).unwrap()
}

fn salt16() -> Vec<u8> {
    vec![
        0x9f, 0x12, 0x3a, 0x44, 0x07, 0xe1, 0x5c, 0x68, 0x2b, 0x90, 0xd3, 0x6e, 0x71, 0x08,
        0xaa, 0x55,
    ]
}

#[test]
fn round_trip_matches() {
    let cfg = cheap_config();
    let password = b"correct horse battery staple".to_vec();
    let digest = hash(&password, &salt16(), None, &cfg).unwrap();
    assert_eq!(verify(&digest, &password, None), Ok(true));
}

#[test]
fn wrong_password_mismatches() {
    let cfg = cheap_config();
    let password = b"correct horse battery staple".to_vec();
    let digest = hash(&password, &salt16(), None, &cfg).unwrap();
    let other = b"incorrect horse".to_vec();
    assert_eq!(verify(&digest, &other, None), Ok(false));
}

#[test]
fn secret_sensitivity() {
    let cfg = cheap_config();
    let password = b"hunter42".to_vec();
    let pepper = b"first pepper".to_vec();
    let other_pepper = b"second pepper".to_vec();
    let digest = hash(&password, &salt16(), Some(&pepper), &cfg).unwrap();
    assert_eq!(verify(&digest, &password, Some(&pepper)), Ok(true));
    assert_eq!(verify(&digest, &password, Some(&other_pepper)), Ok(false));
    assert_eq!(verify(&digest, &password, None), Ok(false));

    let unkeyed = hash(&password, &salt16(), None, &cfg).unwrap();
    assert_eq!(verify(&unkeyed, &password, Some(&pepper)), Ok(false));
}

#[test]
fn embedded_parameters_take_precedence() {
    let password = b"hunter42".to_vec();
    let cfg_a = cheap_config();
    let digest = hash(&password, &salt16(), None, &cfg_a).unwrap();

    // Reconfigure: the host's current configuration changes entirely.
    let cfg_b = setup_params(*b"i___", 0x10, 64, 2, 1).unwrap();
    // Verification reads only the digest, so the old digest still matches.
    assert_eq!(verify(&digest, &password, None), Ok(true));
    // New digests carry the new configuration.
    let digest_b = hash(&password, &salt16(), None, &cfg_b).unwrap();
    assert!(digest_b.starts_with("$argon2i$v=16$m=64,t=2,p=1$"));
    assert_eq!(verify(&digest_b, &password, None), Ok(true));
}

#[test]
fn scenario_recommended_costs() {
    let cfg = setup_params(*b"id__", 0x13, 19456, 2, 1).unwrap();
    let password = b"correct horse".to_vec();
    let digest = hash(&password, &salt16(), None, &cfg).unwrap();
    assert!(digest.starts_with("$argon2id$v=19$m=19456,t=2,p=1$"));
    assert_eq!(verify(&digest, &password, None), Ok(true));
    let wrong = b"wrong password".to_vec();
    assert_eq!(verify(&digest, &wrong, None), Ok(false));
}

#[test]
fn digest_without_prefix_is_fatal() {
    let cfg = cheap_config();
    let password = b"hunter42".to_vec();
    let digest = hash(&password, &salt16(), None, &cfg).unwrap();
    let stripped = &digest[1..];
    assert!(stripped.starts_with("argon2id"));
    assert_eq!(verify(stripped, &password, None), Err(Failure::InvalidDigest));
    assert_eq!(verify("", &password, None), Err(Failure::InvalidDigest));
    assert_eq!(verify("$", &password, None), Err(Failure::InvalidDigest));
}

#[test]
fn unknown_algorithm_in_digest_is_fatal() {
    let cfg = cheap_config();
    let password = b"hunter42".to_vec();
    let digest = hash(&password, &salt16(), None, &cfg).unwrap();
    let renamed = digest.replace("$argon2id$", "$bogus$");
    assert_eq!(verify(&renamed, &password, None), Err(Failure::UnknownAlgorithm));
}

#[test]
fn unknown_version_in_digest_is_fatal() {
    let cfg = cheap_config();
    let password = b"hunter42".to_vec();
    let digest = hash(&password, &salt16(), None, &cfg).unwrap();
    let reversioned = digest.replace("$v=19$", "$v=21$");
    assert_eq!(verify(&reversioned, &password, None), Err(Failure::UnknownVersion));
}

#[test]
fn oversized_parallelism_in_digest_is_fatal() {
    let cfg = cheap_config();
    let password = b"hunter42".to_vec();
    let digest = hash(&password, &salt16(), None, &cfg).unwrap();
    // 2^29 lanes: the embedded parameters are invalid, so the digest is
    // structurally rejected rather than reported as a mismatch.
    let inflated = digest.replace(",p=1$", ",p=536870912$");
    assert_ne!(digest, inflated);
    assert_eq!(verify(&inflated, &password, None), Err(Failure::InvalidDigest));
}

#[test]
fn digest_without_version_uses_default() {
    let cfg = cheap_config();
    let password = b"hunter42".to_vec();
    let digest = hash(&password, &salt16(), None, &cfg).unwrap();
    let unversioned = digest.replace("$v=19$", "$");
    assert_eq!(verify(&unversioned, &password, None), Ok(true));
}

#[test]
fn salt_length_bounds() {
    let cfg = cheap_config();
    let password = b"hunter42".to_vec();
    // Two bytes encode to three characters: under the four-character floor.
    let tiny = vec![1u8, 2u8];
    assert_eq!(hash(&password, &tiny, None, &cfg), Err(Failure::InvalidSalt));
    // 49 bytes encode to 66 characters: over the 64-character ceiling.
    let huge = vec![7u8; 49];
    assert_eq!(hash(&password, &huge, None, &cfg), Err(Failure::InvalidSalt));
    // Four bytes encode fine but decode below the 8-byte minimum.
    let short = vec![1u8, 2, 3, 4];
    assert_eq!(hash(&password, &short, None, &cfg), Err(Failure::HashingFailed));
    // Eight bytes are the smallest accepted salt.
    let minimal = vec![1u8, 2, 3, 4, 5, 6, 7, 8];
    let digest = hash(&password, &minimal, None, &cfg).unwrap();
    assert_eq!(verify(&digest, &password, None), Ok(true));
    // 48 bytes are the largest accepted salt.
    let maximal = vec![9u8; 48];
    let digest = hash(&password, &maximal, None, &cfg).unwrap();
    assert_eq!(verify(&digest, &password, None), Ok(true));
}

#[test]
fn digest_embeds_encoded_salt() {
    let cfg = cheap_config();
    let password = b"hunter42".to_vec();
    // Twelve zero bytes encode as sixteen 'A' characters.
    let zeros = vec![0u8; 12];
    let digest = hash(&password, &zeros, None, &cfg).unwrap();
    assert!(digest.contains("$AAAAAAAAAAAAAAAA$"));
}

#[test]
fn distinct_salts_give_distinct_digests() {
    let cfg = cheap_config();
    let password = b"hunter42".to_vec();
    let first = hash(&password, &salt16(), None, &cfg).unwrap();
    let second = hash(&password, &vec![3u8; 16], None, &cfg).unwrap();
    assert_ne!(first, second);
    // Hashing is deterministic for identical inputs.
    let again = hash(&password, &salt16(), None, &cfg).unwrap();
    assert_eq!(first, again);
}
