use fractured_keyspace::key_management::derive_keys_from_seed;
use fractured_keyspace::key_management::is_fallback_seed;
use fractured_keyspace::key_management::is_well_formed_secret_key;
use fractured_keyspace::key_management::KeyManager;
use fractured_keyspace::key_management::PUBLIC_KEY_LEN;
use fractured_keyspace::key_management::SECRET_KEY_LEN;
use fractured_keyspace::key_management::SIGNATURE_LEN;

#[test]
fn fallback_seed_recognised_exactly() {
    assert!(is_fallback_seed(&[0x42u8; 32]));
    let mut nearly = [0x42u8; 32];
    nearly[31] = 0x43;
    assert!(!is_fallback_seed(&nearly));
    let mut nearly_front = [0x42u8; 32];
    nearly_front[0] = 0x00;
    assert!(!is_fallback_seed(&nearly_front));
    assert!(!is_fallback_seed(&[0u8; 32]));
}

#[test]
fn fallback_derivation_is_deterministic() {
    let first = derive_keys_from_seed(&[0x42u8; 32]);
    let second = derive_keys_from_seed(&[0x42u8; 32]);
    assert_eq!(first.0, second.0);
    assert_eq!(first.1, second.1);
    assert_eq!(first.0.len(), PUBLIC_KEY_LEN);
    assert_eq!(first.1.len(), SECRET_KEY_LEN);
}

#[test]
fn fresh_derivations_differ() {
    // Two non-fallback seeds: generation ignores their content and draws
    // fresh randomness, so the keypairs differ (with overwhelming
    // probability) from each other and from the fallback keypair.
    let a = derive_keys_from_seed(&[0u8; 32]);
    let b = derive_keys_from_seed(&[0u8; 32]);
    let fallback = derive_keys_from_seed(&[0x42u8; 32]);
    assert_ne!(a.0, b.0);
    assert_ne!(a.1, b.1);
    assert_ne!(a.0, fallback.0);
    assert_ne!(b.0, fallback.0);
    assert_eq!(a.0.len(), PUBLIC_KEY_LEN);
    assert_eq!(a.1.len(), SECRET_KEY_LEN);
}

#[test]
fn sign_verify_round_trip() {
    let key_manager = KeyManager::new();
    let (pk, sk) = derive_keys_from_seed(&[7u8; 32]);
    let message = b"a message of no particular form";

    let signature = key_manager.sign_message(message, &sk);
    assert_eq!(signature.len(), SIGNATURE_LEN);
    assert!(key_manager.verify_signature(message, &signature, &pk));

    // Any other message is rejected under the same signature.
    assert!(!key_manager.verify_signature(b"a different message", &signature, &pk));
    assert!(!key_manager.verify_signature(b"", &signature, &pk));
}

#[test]
fn deterministic_signatures_repeat() {
    let key_manager = KeyManager::new();
    let (_, sk) = derive_keys_from_seed(&[0x42u8; 32]);
    let one = key_manager.sign_message(b"repeatable", &sk);
    let two = key_manager.sign_message(b"repeatable", &sk);
    assert_eq!(one, two);
}

#[test]
fn verification_rejects_wrong_key() {
    let key_manager = KeyManager::new();
    let (pk_a, sk_a) = derive_keys_from_seed(&[1u8; 32]);
    let (pk_b, _) = derive_keys_from_seed(&[1u8; 32]);
    let message = b"addressed to a";
    let signature = key_manager.sign_message(message, &sk_a);
    assert!(key_manager.verify_signature(message, &signature, &pk_a));
    assert!(!key_manager.verify_signature(message, &signature, &pk_b));
}

#[test]
fn verification_rejects_malformed_inputs() {
    let key_manager = KeyManager::new();
    let (pk, sk) = derive_keys_from_seed(&[9u8; 32]);
    let message = b"well formed";
    let signature = key_manager.sign_message(message, &sk);

    // Tampered signature bytes.
    let mut tampered = signature.clone();
    tampered[0] ^= 0x01;
    assert!(!key_manager.verify_signature(message, &tampered, &pk));

    // Signature of the wrong length.
    assert!(!key_manager.verify_signature(message, &signature[..signature.len() - 1], &pk));
    assert!(!key_manager.verify_signature(message, b"", &pk));

    // Public key of the wrong length: fail closed, no fault.
    assert!(!key_manager.verify_signature(message, &signature, b"not a key"));
    assert!(!key_manager.verify_signature(message, &signature, &pk[..PUBLIC_KEY_LEN - 1]));
}

#[test]
fn generated_identity_carries_username() {
    let key_manager = KeyManager::new();
    let mut rift = fractured_keyspace::dimensional_rift::DimensionalRift::new();
    let identity = key_manager.generate_identity("operator_9", &mut rift);
    assert_eq!(identity.username, "operator_9");
    assert_eq!(identity.public_key.len(), PUBLIC_KEY_LEN);
    assert_eq!(identity.secret_key.len(), SECRET_KEY_LEN);
}

#[test]
fn well_formedness_check_matches_derived_keys() {
    // Every derived secret key is well formed; the checker agrees.
    let (_, sk) = derive_keys_from_seed(&[3u8; 32]);
    assert!(is_well_formed_secret_key(&sk));
    let (_, fallback_sk) = derive_keys_from_seed(&[0x42u8; 32]);
    assert!(is_well_formed_secret_key(&fallback_sk));

    // The all-zero pattern decodes (every coefficient field is zero).
    assert!(is_well_formed_secret_key(&[0u8; 2560]));

    // All-ones bytes put 7 into the coefficient fields of the s1 region:
    // not a valid expanded key, and signing must not be attempted with it.
    assert!(!is_well_formed_secret_key(&[0xffu8; 2560]));

    // A single oversized field in the s2 region is caught too.
    let (_, mut damaged) = derive_keys_from_seed(&[4u8; 32]);
    damaged[600] = 0xff;
    assert!(!is_well_formed_secret_key(&damaged));

    // The t0 region accepts every bit pattern.
    let (_, mut t0_noise) = derive_keys_from_seed(&[6u8; 32]);
    t0_noise[2000] = 0xff;
    assert!(is_well_formed_secret_key(&t0_noise));

    // Wrong length is rejected outright.
    assert!(!is_well_formed_secret_key(&[0u8; 2559]));
    assert!(!is_well_formed_secret_key(b""));
}
