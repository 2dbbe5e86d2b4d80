use fyles_core::crypto::{
    deserialize_dilithium_private_key, deserialize_dilithium_public_key,
    deserialize_ed25519_private_key, deserialize_ed25519_public_key,
    serialize_dilithium_private_key, serialize_dilithium_public_key,
    serialize_ed25519_private_key, serialize_ed25519_public_key, ContactKeys, DecryptionError,
    Dencryptor, DilithiumDecodeError, Encrypted, EncryptionError,
    PrivateEd25519DeserializationError, PublicEd25519DeserializationError,
};
use fyles_core::domain_models::{Contact, ContactId, SelfContact};
use fyles_core::rolling_nonce_window::{
    new_nonce_generator_validator_for_session_initiator,
    new_nonce_generator_validator_for_session_responder, BitStoreError, NonceValidationError,
    U64_HALF,
};
use fyles_core::wire::{SelfContactProto, SelfContactPublicProto};

fn session() -> (Dencryptor, Dencryptor) {
    let key: Vec<u8> = (0..32).collect();
    (
        Dencryptor::new(
            key.clone(),
            new_nonce_generator_validator_for_session_initiator(),
        ),
        Dencryptor::new(key, new_nonce_generator_validator_for_session_responder()),
    )
}

#[test]
fn messages_reach_the_other_side() {
    let (mut initiator, mut responder) = session();
    let sent = initiator.encrypt(b"hello").unwrap();
    assert_eq!(sent.nonce, 0);
    assert_ne!(sent.encrypted, b"hello".to_vec());
    assert_eq!(sent.encrypted.len(), 5 + 16);
    assert_eq!(responder.decrypt(&sent.encrypted, sent.nonce).unwrap(), b"hello");

    let answer = responder.encrypt(b"welcome").unwrap();
    assert_eq!(answer.nonce, U64_HALF);
    assert_eq!(
        initiator.decrypt(&answer.encrypted, answer.nonce).unwrap(),
        b"welcome"
    );
}

#[test]
fn messages_are_accepted_once() {
    let (mut initiator, mut responder) = session();
    let sent = initiator.encrypt(b"hello").unwrap();
    responder.decrypt(&sent.encrypted, sent.nonce).unwrap();
    let repeated = responder.decrypt(&sent.encrypted, sent.nonce).unwrap_err();
    assert!(matches!(
        repeated,
        DecryptionError::NonceValidationError(NonceValidationError::NonceValidationError(_))
    ));
}

#[test]
fn changed_messages_are_refused() {
    let (mut initiator, mut responder) = session();
    let mut sent = initiator.encrypt(b"hello").unwrap();
    sent.encrypted[0] ^= 1;
    assert!(matches!(
        responder.decrypt(&sent.encrypted, sent.nonce),
        Err(DecryptionError::DecryptionFailure)
    ));
}

#[test]
fn serialized_messages_are_encrypted_and_decrypted() {
    let (mut initiator, mut responder) = session();
    let serialized: Vec<u8> = vec![1, 2, 3];
    let encrypted: Encrypted<u32> =
        Encrypted::encrypt_serialized(&mut initiator, &serialized).unwrap();
    let (nonce, message) = encrypted.into_parts();
    assert_ne!(message, serialized);
    let received: Encrypted<u32> = Encrypted::from_parts(nonce, message);
    assert_eq!(received.decrypt_serialized(&mut responder).unwrap(), serialized);
}

#[test]
fn nonces_count_up_on_both_sides() {
    let mut initiator = new_nonce_generator_validator_for_session_initiator();
    let mut responder = new_nonce_generator_validator_for_session_responder();
    for i in 0..5 {
        assert_eq!(initiator.get_next_send_nonce().unwrap(), i);
        assert_eq!(responder.get_next_send_nonce().unwrap(), i + U64_HALF);
    }
}

#[test]
fn nonces_come_in_any_order_within_the_window() {
    let mut responder = new_nonce_generator_validator_for_session_responder();
    for nonce in [5, 3, 99, 0] {
        assert!(responder.validate(nonce).is_ok());
    }
    assert!(responder.validate(3).is_err());
    assert!(responder.validate(100).is_ok());
}

#[test]
fn nonces_outside_the_window_are_refused() {
    let mut responder = new_nonce_generator_validator_for_session_responder();
    match responder.validate(100) {
        Err(NonceValidationError::NonceValidationError(BitStoreError::OutOfBoundsAccess {
            tried,
            min,
            ..
        })) => {
            assert_eq!(tried, 100);
            assert_eq!(min, 0);
        }
        other => panic!("{:?}", other),
    }
}

#[test]
fn repeated_nonces_are_refused() {
    let mut responder = new_nonce_generator_validator_for_session_responder();
    responder.validate(7).unwrap();
    let error = responder.validate(7).unwrap_err();
    assert_eq!(
        error.to_text(),
        "Nonce was invalid or could not be validated: Tried to invalidate the same nonce more \
         than once: 7"
    );
}

#[test]
fn initiators_accept_the_nonces_of_responders() {
    let mut initiator = new_nonce_generator_validator_for_session_initiator();
    assert!(initiator.validate(U64_HALF).is_ok());
    assert!(initiator.validate(U64_HALF).is_err());
    assert!(initiator.validate(U64_HALF + 99).is_ok());
}

#[test]
fn errors_of_sessions_say_what_happened() {
    let failure = EncryptionError::EncryptionFailure;
    assert!(!failure.to_text().is_empty());
    let exhausted = fyles_core::rolling_nonce_window::NonceGenerationError::NonceSpaceExhausted {
        space_bits: 63,
    };
    assert_eq!(exhausted.to_text(), "Nonce space exhausted: 63 bits");
}

#[test]
fn keys_survive_serialization() {
    let keys = ContactKeys::new();
    let ed25519 = serialize_ed25519_public_key(&keys.public.ed25519);
    let private = serialize_ed25519_private_key(&keys.private.ed25519);
    assert_eq!(ed25519.len(), 32);
    assert_eq!(private.len(), 32);
    assert_ne!(ed25519, private);
    let again = deserialize_ed25519_public_key(ed25519.clone()).unwrap();
    assert_eq!(serialize_ed25519_public_key(&again), ed25519);
    let again = deserialize_ed25519_private_key(private.clone()).unwrap();
    assert_eq!(serialize_ed25519_private_key(&again), private);
    let dilithium = serialize_dilithium_public_key(&keys.public.dilithium).unwrap();
    let again = deserialize_dilithium_public_key(dilithium.clone()).unwrap();
    assert_eq!(serialize_dilithium_public_key(&again).unwrap(), dilithium);
    let secret = serialize_dilithium_private_key(&keys.private.dilithium).unwrap();
    let again = deserialize_dilithium_private_key(secret.clone()).unwrap();
    assert_eq!(serialize_dilithium_private_key(&again).unwrap(), secret);
    assert_ne!(dilithium.len(), secret.len());
}

#[test]
fn public_keys_belong_to_private_keys() {
    let keys = ContactKeys::new();
    let mut bytes = [0u8; 32];
    bytes.copy_from_slice(&serialize_ed25519_private_key(&keys.private.ed25519));
    let expected = ed25519_dalek::SigningKey::from_bytes(&bytes).verifying_key();
    assert_eq!(
        serialize_ed25519_public_key(&keys.public.ed25519),
        expected.as_bytes().to_vec()
    );
}

#[test]
fn keys_of_the_wrong_length_are_refused() {
    let error = deserialize_ed25519_public_key(vec![0; 31]).unwrap_err();
    assert!(matches!(
        error,
        PublicEd25519DeserializationError::PublicEd25519Length {
            got: 31,
            expected: 32
        }
    ));
    let error = deserialize_ed25519_private_key(vec![0; 33]).unwrap_err();
    assert!(matches!(
        error,
        PrivateEd25519DeserializationError::PrivateEd25519Length {
            got: 33,
            expected: 32
        }
    ));
    assert!(matches!(
        deserialize_dilithium_public_key(vec![0; 10]),
        Err(DilithiumDecodeError { got: 10 })
    ));
    assert!(deserialize_dilithium_private_key(vec![0; 10]).is_err());
}

#[test]
fn keys_that_are_no_points_are_refused() {
    let mut refused = 0;
    for first in 0..=255u8 {
        let mut bytes = vec![0u8; 32];
        bytes[0] = first;
        if matches!(
            deserialize_ed25519_public_key(bytes),
            Err(PublicEd25519DeserializationError::PublicEd25519Format)
        ) {
            refused += 1;
        }
    }
    assert!(refused > 0 && refused < 256);
}

#[test]
fn short_keys_are_told_as_the_decoder_tells_them() {
    let decoded = bincode::serde::decode_from_slice::<pqcrypto_dilithium::dilithium5::PublicKey, _>(
        &[1, 2, 3],
        bincode::config::standard(),
    );
    let told = match decoded {
        Ok(_) => panic!("three bytes are no key"),
        Err(error) => error.to_string(),
    };
    assert_eq!(DilithiumDecodeError { got: 3 }.to_text(), told);
}

#[test]
fn own_contacts_survive_the_wire() {
    let contact = SelfContact {
        id: ContactId::from("me"),
        name: "Me".to_string(),
        keys: ContactKeys::new(),
    };
    let public = serialize_ed25519_public_key(&contact.keys.public.ed25519);
    let proto = SelfContactProto::try_from(contact).unwrap();
    let again = SelfContact::try_from(proto).unwrap();
    assert_eq!(again.id.0, "me");
    assert_eq!(again.name, "Me");
    assert_eq!(
        serialize_ed25519_public_key(&again.keys.public.ed25519),
        public
    );
}

#[test]
fn shared_contacts_survive_the_wire() {
    let contact = Contact::for_test();
    let id = contact.id.0.clone();
    let public = serialize_ed25519_public_key(&contact.public_keys.ed25519);
    let proto = SelfContactPublicProto::try_from(contact).unwrap();
    let again = Contact::try_from(proto).unwrap();
    assert_eq!(again.id.0, id);
    assert_eq!(
        serialize_ed25519_public_key(&again.public_keys.ed25519),
        public
    );
}

#[test]
fn nonces_of_the_wrong_half_are_not_looked_at() {
    let (initiator, responder) = session();
    assert!(!initiator.takes_nonce(0));
    assert!(!initiator.takes_nonce(U64_HALF - 1));
    assert!(initiator.takes_nonce(U64_HALF));
    assert!(responder.takes_nonce(0));
    assert!(responder.takes_nonce(u64::MAX));
}

#[test]
fn new_keys_differ() {
    let first = ContactKeys::new();
    let second = ContactKeys::new();
    assert!(first.public.dilithium != second.public.dilithium);
    assert!(first.public.ed25519 != second.public.ed25519);
}
