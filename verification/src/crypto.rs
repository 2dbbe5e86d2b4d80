//! Session encryption, and the key pairs that identify a contact.
use chacha20poly1305::aead::{Aead, KeyInit};
use pqcrypto_traits::sign::{PublicKey, SecretKey};
use vstd::prelude::*;

use crate::rolling_nonce_window::{
    NonceGenerationError, NonceGeneratorValidator, NonceValidationError, U64_HALF,
};
use crate::text::u64_to_string;

verus! {

/// The length of an ed25519 key, public or private.
pub const ED25519_KEY_LENGTH: usize = 32;

/// The length of a dilithium5 public key.
pub const DILITHIUM_PUBLIC_KEY_LENGTH: usize = 2592;

/// The length of a dilithium5 secret key.
pub const DILITHIUM_SECRET_KEY_LENGTH: usize = 4896;

/// The length of the symmetric key of a session.
pub const SESSION_KEY_LENGTH: usize = 32;

/// By how much a message gets longer when it is encrypted.
pub const TAG_LENGTH: usize = 16;

/// A copy of `bytes`.
pub fn copy_bytes(bytes: &Vec<u8>) -> (r: Vec<u8>)
    ensures
        r@ == bytes@,
{
    let r = bytes.clone();
    assert(r@ =~= bytes@);
    r
}

// Authenticated encryption

/// What ChaCha20-Poly1305 makes of `plaintext` under `key` and `nonce`.
pub uninterp spec fn sealed(key: Seq<u8>, nonce: Seq<u8>, plaintext: Seq<u8>) -> Seq<u8>;

/// What ChaCha20-Poly1305 reads from `ciphertext` under `key` and `nonce`, or `None` where the
/// ciphertext is not authentic.
pub uninterp spec fn opened(key: Seq<u8>, nonce: Seq<u8>, ciphertext: Seq<u8>) -> Option<Seq<u8>>;

/// How long a message can be: ChaCha20 counts its blocks of 64 bytes with 32 bits, and the first
/// block is spent on the tag.
pub const MAX_MESSAGE_LENGTH: u64 = 274_877_906_816;

/// Whether ChaCha20 has blocks for a message of this length.
pub open spec fn is_sealable(plaintext: Seq<u8>) -> bool {
    plaintext.len() <= MAX_MESSAGE_LENGTH
}

/// Whether ChaCha20 has blocks for the message in a ciphertext of this length.
pub open spec fn is_openable(ciphertext: Seq<u8>) -> bool {
    ciphertext.len() <= MAX_MESSAGE_LENGTH + TAG_LENGTH
}

/// `Aead::encrypt` of `chacha20poly1305::ChaCha20Poly1305`: encrypts and authenticates a message
/// that is not too long for the cipher. What it returns is a function of key, nonce and message,
/// it is longer than the message by the tag, and the same key and nonce open it.
#[verifier::external_body]
fn chacha_encrypt(key: &Vec<u8>, nonce: &Vec<u8>, plaintext: &[u8]) -> (r: Option<Vec<u8>>)
    requires
        key@.len() == SESSION_KEY_LENGTH,
        nonce@.len() == 12,
        is_sealable(plaintext@),
    ensures
        r is Some,
        r matches Some(c) ==> c@ == sealed(key@, nonce@, plaintext@),
        r matches Some(c) ==> c@.len() == plaintext@.len() + TAG_LENGTH,
        r matches Some(c) ==> opened(key@, nonce@, c@) == Some(plaintext@),
{
    let cipher = chacha20poly1305::ChaCha20Poly1305::new(key.as_slice().into());
    cipher.encrypt(nonce.as_slice().into(), plaintext).ok()
}

/// `Aead::decrypt` of `chacha20poly1305::ChaCha20Poly1305`: authenticates and decrypts a message.
/// What it returns is a function of key, nonce and ciphertext, which is not too long for the
/// cipher.
#[verifier::external_body]
fn chacha_decrypt(key: &Vec<u8>, nonce: &Vec<u8>, ciphertext: &[u8]) -> (r: Option<Vec<u8>>)
    requires
        key@.len() == SESSION_KEY_LENGTH,
        nonce@.len() == 12,
        is_openable(ciphertext@),
    ensures
        r is Some <==> opened(key@, nonce@, ciphertext@) is Some,
        r matches Some(p) ==> opened(key@, nonce@, ciphertext@) == Some(p@),
{
    let cipher = chacha20poly1305::ChaCha20Poly1305::new(key.as_slice().into());
    cipher.decrypt(nonce.as_slice().into(), ciphertext).ok()
}

/// The cipher's nonce for message number `nonce`: its eight bytes, least significant first,
/// followed by four zeros.
pub open spec fn cipher_nonce(nonce: u64) -> Seq<u8> {
    vstd::bytes::spec_u64_to_le_bytes(nonce) + seq![0u8, 0u8, 0u8, 0u8]
}

fn make_cipher_nonce(nonce: u64) -> (r: Vec<u8>)
    ensures
        r@ == cipher_nonce(nonce),
        r@.len() == 12,
{
    let mut r = vstd::bytes::u64_to_le_bytes(nonce);
    proof {
        vstd::bytes::lemma_auto_spec_u64_to_from_le_bytes();
    }
    r.push(0);
    r.push(0);
    r.push(0);
    r.push(0);
    assert(r@ =~= cipher_nonce(nonce));
    r
}

/// Encrypts what one side of a session sends and decrypts what it receives.
pub struct Dencryptor {
    key: Vec<u8>,
    nonce_generator_validator: NonceGeneratorValidator,
}

pub struct EncryptAndNonce {
    pub encrypted: Vec<u8>,
    pub nonce: u64,
}

#[derive(Debug)]
pub enum EncryptionError {
    NonceGenerationError(NonceGenerationError),
    EncryptionFailure,
}

impl EncryptionError {
    pub open spec fn text(self) -> Seq<char> {
        match self {
            EncryptionError::NonceGenerationError(source) =>
                "Could not generate a nonce for encryption: "@ + source.text(),
            EncryptionError::EncryptionFailure => "Error during encryption"@,
        }
    }

    pub fn to_text(&self) -> (r: String)
        ensures
            r@ == self.text(),
    {
        match self {
            EncryptionError::NonceGenerationError(
                source,
            ) => "Could not generate a nonce for encryption: ".to_owned()
                .concat(source.to_text().as_str()),
            EncryptionError::EncryptionFailure => "Error during encryption".to_owned(),
        }
    }
}

#[derive(Debug)]
pub enum DecryptionError {
    NonceValidationError(NonceValidationError),
    DecryptionFailure,
}

impl DecryptionError {
    pub open spec fn text(self) -> Seq<char> {
        match self {
            DecryptionError::NonceValidationError(source) => "Error while validating nonce: "@
                + source.text(),
            DecryptionError::DecryptionFailure => "Error during decryption"@,
        }
    }

    pub fn to_text(&self) -> (r: String)
        ensures
            r@ == self.text(),
    {
        match self {
            DecryptionError::NonceValidationError(
                source,
            ) => "Error while validating nonce: ".to_owned().concat(
                source.to_text().as_str(),
            ),
            DecryptionError::DecryptionFailure => "Error during decryption".to_owned(),
        }
    }
}

impl Dencryptor {
    /// The symmetric key of the session.
    pub closed spec fn key(&self) -> Seq<u8> {
        self.key@
    }

    pub closed spec fn nonces(&self) -> NonceGeneratorValidator {
        self.nonce_generator_validator
    }

    pub open spec fn well_formed(&self) -> bool {
        self.key().len() == SESSION_KEY_LENGTH && self.nonces().well_formed()
    }

    /// The session state for `key` with the given nonce state.
    pub fn new(key: Vec<u8>, nonce_generator_validator: NonceGeneratorValidator) -> (r: Self)
        requires
            key@.len() == SESSION_KEY_LENGTH,
            nonce_generator_validator.well_formed(),
        ensures
            r.well_formed(),
            r.key() == key@,
            r.nonces() == nonce_generator_validator,
    {
        Dencryptor { key, nonce_generator_validator }
    }

    /// Whether this is what comes of encrypting `plaintext` under the next nonce for sending. A
    /// nonce is spent even where the cipher refuses the message. Whoever holds the key opens what
    /// comes out with the nonce that stands beside it.
    pub open spec fn encrypts(
        self,
        plaintext: Seq<u8>,
        r: Result<(Seq<u8>, u64), EncryptionError>,
        after: Dencryptor,
    ) -> bool {
        let nonce = crate::rolling_nonce_window::send_nonce(
            self.nonces().is_initiator(),
            self.nonces().sent(),
        ) as u64;
        &&& after.key() == self.key()
        &&& after.nonces().is_initiator() == self.nonces().is_initiator()
        &&& after.nonces().received() == self.nonces().received()
        &&& if self.nonces().sent() == U64_HALF {
            &&& after.nonces().sent() == self.nonces().sent()
            &&& r == Err::<(Seq<u8>, u64), EncryptionError>(
                EncryptionError::NonceGenerationError(
                    NonceGenerationError::NonceSpaceExhausted { space_bits: 63 },
                ),
            )
        } else {
            &&& after.nonces().sent() == self.nonces().sent() + 1
            &&& match r {
                Ok(message) => {
                    &&& is_sealable(plaintext)
                    &&& message.1 == nonce
                    &&& message.0 == sealed(self.key(), cipher_nonce(nonce), plaintext)
                    &&& message.0.len() == plaintext.len() + TAG_LENGTH
                    &&& opened(self.key(), cipher_nonce(nonce), message.0) == Some(plaintext)
                },
                Err(error) => !is_sealable(plaintext) && error is EncryptionFailure,
            }
        }
    }

    /// Whether this is what comes of decrypting what the peer sent under `nonce`. The nonce is
    /// spent as soon as it is accepted, whether or not the ciphertext turns out to be authentic,
    /// and even where it is too long for the cipher.
    pub open spec fn decrypts(
        self,
        ciphertext: Seq<u8>,
        nonce: u64,
        r: Result<Seq<u8>, DecryptionError>,
        after: Dencryptor,
    ) -> bool {
        let count = crate::rolling_nonce_window::peer_count(self.nonces().is_initiator(), nonce);
        let received = self.nonces().received();
        let plain = opened(self.key(), cipher_nonce(nonce), ciphertext);
        &&& after.key() == self.key()
        &&& after.nonces().is_initiator() == self.nonces().is_initiator()
        &&& after.nonces().sent() == self.nonces().sent()
        &&& received.step(
            count as nat,
            received.accepts(count as nat),
            after.nonces().received(),
        )
        &&& match r {
            Ok(plaintext) => received.accepts(count as nat) && is_openable(ciphertext) && plain
                == Some(plaintext),
            Err(DecryptionError::NonceValidationError(
                NonceValidationError::NonceValidationError(error),
            )) => !received.accepts(count as nat) && received.refusal(count as u64, error),
            Err(DecryptionError::DecryptionFailure) => received.accepts(count as nat) && (
            !is_openable(ciphertext) || plain is None),
        }
    }

    /// Whether a nonce can be looked at: the responder's are those of the upper half, and the
    /// window has not come to the end of all nonces.
    pub open spec fn can_decrypt(self, nonce: u64) -> bool {
        &&& self.nonces().is_initiator() ==> nonce >= U64_HALF
        &&& self.nonces().received().lower + self.nonces().received().capacity <= u64::MAX
    }

    /// Whether a nonce can be looked at.
    pub fn takes_nonce(&self, nonce: u64) -> (r: bool)
        ensures
            r == self.can_decrypt(nonce),
    {
        self.nonce_generator_validator.can_validate(nonce)
    }

    /// Encrypts `plaintext` under the next nonce for sending. A nonce is spent even where the
    /// cipher refuses the message.
    pub fn encrypt(&mut self, plaintext: &[u8]) -> (r: Result<EncryptAndNonce, EncryptionError>)
        requires
            old(self).well_formed(),
        ensures
            final(self).well_formed(),
            old(self).encrypts(
                plaintext@,
                match r {
                    Ok(message) => Ok((message.encrypted@, message.nonce)),
                    Err(error) => Err(error),
                },
                *final(self),
            ),
    {
        let nonce: u64 = match self.nonce_generator_validator.get_next_send_nonce() {
            Ok(nonce) => nonce,
            Err(error) => {
                return Err(EncryptionError::NonceGenerationError(error));
            },
        };
        if plaintext.len() as u64 > MAX_MESSAGE_LENGTH {
            return Err(EncryptionError::EncryptionFailure);
        }
        let cipher_nonce = make_cipher_nonce(nonce);
        match chacha_encrypt(&self.key, &cipher_nonce, plaintext) {
            Some(encrypted) => Ok(EncryptAndNonce { encrypted, nonce }),
            None => Err(EncryptionError::EncryptionFailure),
        }
    }

    /// Decrypts what the peer sent under `nonce`. The nonce is spent as soon as it is accepted,
    /// whether or not the ciphertext turns out to be authentic.
    pub fn decrypt(
        &mut self,
        ciphertext: &[u8],
        nonce: u64,
    ) -> (r: Result<Vec<u8>, DecryptionError>)
        requires
            old(self).well_formed(),
            old(self).can_decrypt(nonce),
        ensures
            final(self).well_formed(),
            old(self).decrypts(
                ciphertext@,
                nonce,
                match r {
                    Ok(plaintext) => Ok(plaintext@),
                    Err(error) => Err(error),
                },
                *final(self),
            ),
    {
        match self.nonce_generator_validator.validate(nonce) {
            Ok(()) => {},
            Err(error) => {
                return Err(DecryptionError::NonceValidationError(error));
            },
        }
        if ciphertext.len() as u64 > MAX_MESSAGE_LENGTH + TAG_LENGTH as u64 {
            return Err(DecryptionError::DecryptionFailure);
        }
        let cipher_nonce = make_cipher_nonce(nonce);
        match chacha_decrypt(&self.key, &cipher_nonce, ciphertext) {
            Some(plaintext) => Ok(plaintext),
            None => Err(DecryptionError::DecryptionFailure),
        }
    }
}

/// A message in encrypted form, which holds a serialized `T` once it is opened.
pub struct Encrypted<T> {
    nonce: u64,
    message: Vec<u8>,
    _type: std::marker::PhantomData<T>,
}

impl<T> Encrypted<T> {
    pub closed spec fn nonce(&self) -> u64 {
        self.nonce
    }

    pub closed spec fn message(&self) -> Seq<u8> {
        self.message@
    }

    /// The message that was received as `message` under `nonce`.
    pub fn from_parts(nonce: u64, message: Vec<u8>) -> (r: Self)
        ensures
            r.nonce() == nonce,
            r.message() == message@,
    {
        Encrypted { nonce, message, _type: std::marker::PhantomData }
    }

    /// The nonce and the ciphertext, as they go over the wire.
    pub fn into_parts(self) -> (r: (u64, Vec<u8>))
        ensures
            r.0 == self.nonce(),
            r.1@ == self.message(),
    {
        (self.nonce, self.message)
    }

    /// Encrypts a value in its serialized form.
    pub fn encrypt_serialized(
        dencryptor: &mut Dencryptor,
        serialized: &Vec<u8>,
    ) -> (r: Result<Self, EncryptionError>)
        requires
            old(dencryptor).well_formed(),
        ensures
            final(dencryptor).well_formed(),
            old(dencryptor).encrypts(
                serialized@,
                match r {
                    Ok(encrypted) => Ok((encrypted.message(), encrypted.nonce())),
                    Err(error) => Err(error),
                },
                *final(dencryptor),
            ),
    {
        match dencryptor.encrypt(serialized.as_slice()) {
            Ok(e) => Ok(Self::from_parts(e.nonce, e.encrypted)),
            Err(error) => Err(error),
        }
    }

    /// Opens the message and returns the value in its serialized form.
    pub fn decrypt_serialized(
        &self,
        dencryptor: &mut Dencryptor,
    ) -> (r: Result<Vec<u8>, DecryptionError>)
        requires
            old(dencryptor).well_formed(),
            old(dencryptor).can_decrypt(self.nonce()),
        ensures
            final(dencryptor).well_formed(),
            old(dencryptor).decrypts(
                self.message(),
                self.nonce(),
                match r {
                    Ok(plaintext) => Ok(plaintext@),
                    Err(error) => Err(error),
                },
                *final(dencryptor),
            ),
    {
        dencryptor.decrypt(self.message.as_slice(), self.nonce)
    }
}

/// What one side of a session encrypts, the other side decrypts, as long as it has not yet seen
/// the nonce and the nonce lies in its window.
pub proof fn law_peer_decrypts_what_was_encrypted(
    sender: Dencryptor,
    plaintext: Seq<u8>,
    message: (Seq<u8>, u64),
    sender_after: Dencryptor,
    receiver: Dencryptor,
    r: Result<Seq<u8>, DecryptionError>,
    receiver_after: Dencryptor,
)
    requires
        sender.well_formed(),
        sender.encrypts(plaintext, Ok(message), sender_after),
        receiver.key() == sender.key(),
        receiver.nonces().is_initiator() != sender.nonces().is_initiator(),
        receiver.nonces().received().accepts(sender.nonces().sent()),
        receiver.decrypts(message.0, message.1, r, receiver_after),
    ensures
        r == Ok::<Seq<u8>, DecryptionError>(plaintext),
{
    sender.nonces().lemma_sent_is_bounded();
    crate::rolling_nonce_window::law_peer_counts_agree(
        sender.nonces().is_initiator(),
        sender.nonces().sent(),
    );
}

// Keys

/// The dilithium5 key that quantum safe signatures are verified with.
#[derive(Debug, PartialEq, Eq)]
pub struct DilithiumPublicKey {
    bytes: Vec<u8>,
}

impl View for DilithiumPublicKey {
    type V = Seq<u8>;

    closed spec fn view(&self) -> Seq<u8> {
        self.bytes@
    }
}

impl DilithiumPublicKey {
    #[verifier::type_invariant]
    spec fn has_key_length(self) -> bool {
        self.bytes@.len() == DILITHIUM_PUBLIC_KEY_LENGTH
    }
}

impl Clone for DilithiumPublicKey {
    fn clone(&self) -> (r: Self)
        ensures
            r@ == self@,
    {
        proof {
            use_type_invariant(self);
        }
        DilithiumPublicKey { bytes: copy_bytes(&self.bytes) }
    }
}

/// The dilithium5 key that quantum safe signatures are made with.
#[derive(Debug, PartialEq, Eq)]
pub struct DilithiumSecretKey {
    bytes: Vec<u8>,
}

impl View for DilithiumSecretKey {
    type V = Seq<u8>;

    closed spec fn view(&self) -> Seq<u8> {
        self.bytes@
    }
}

impl DilithiumSecretKey {
    #[verifier::type_invariant]
    spec fn has_key_length(self) -> bool {
        self.bytes@.len() == DILITHIUM_SECRET_KEY_LENGTH
    }
}

impl Clone for DilithiumSecretKey {
    fn clone(&self) -> (r: Self)
        ensures
            r@ == self@,
    {
        proof {
            use_type_invariant(self);
        }
        DilithiumSecretKey { bytes: copy_bytes(&self.bytes) }
    }
}

/// The ed25519 key that signatures are made with.
#[derive(Debug, PartialEq, Eq)]
pub struct Ed25519PrivateKey {
    bytes: Vec<u8>,
}

impl View for Ed25519PrivateKey {
    type V = Seq<u8>;

    closed spec fn view(&self) -> Seq<u8> {
        self.bytes@
    }
}

impl Ed25519PrivateKey {
    #[verifier::type_invariant]
    spec fn has_key_length(self) -> bool {
        self.bytes@.len() == ED25519_KEY_LENGTH
    }
}

impl Clone for Ed25519PrivateKey {
    fn clone(&self) -> (r: Self)
        ensures
            r@ == self@,
    {
        proof {
            use_type_invariant(self);
        }
        Ed25519PrivateKey { bytes: copy_bytes(&self.bytes) }
    }
}

/// Whether `ed25519_dalek::VerifyingKey::from_bytes` takes these bytes for a point of the curve.
pub uninterp spec fn is_ed25519_point(bytes: Seq<u8>) -> bool;

/// The ed25519 key that signatures are verified with: a point of the curve in compressed form.
#[derive(Debug, PartialEq, Eq)]
pub struct Ed25519PublicKey {
    bytes: Vec<u8>,
}

impl View for Ed25519PublicKey {
    type V = Seq<u8>;

    closed spec fn view(&self) -> Seq<u8> {
        self.bytes@
    }
}

impl Ed25519PublicKey {
    #[verifier::type_invariant]
    spec fn is_point(self) -> bool {
        self.bytes@.len() == ED25519_KEY_LENGTH && is_ed25519_point(self.bytes@)
    }
}

impl Clone for Ed25519PublicKey {
    fn clone(&self) -> (r: Self)
        ensures
            r@ == self@,
    {
        proof {
            use_type_invariant(self);
        }
        Ed25519PublicKey { bytes: copy_bytes(&self.bytes) }
    }
}

/// The error of `ed25519_dalek` for bytes that are no point of the curve.
#[verifier::external_type_specification]
#[verifier::external_body]
pub struct ExSignatureError(ed25519_dalek::SignatureError);

/// The error of `bincode` for bytes that cannot be decoded.
#[verifier::external_type_specification]
#[verifier::external_body]
pub struct ExDecodeError(bincode::error::DecodeError);

/// The error of `bincode` for values that cannot be encoded.
#[verifier::external_type_specification]
#[verifier::external_body]
pub struct ExEncodeError(bincode::error::EncodeError);

/// `ed25519_dalek::VerifyingKey::from_bytes`: accepts the compressed points of the curve, and the
/// key keeps the bytes it was made of.
#[verifier::external_body]
fn verifying_key_from_bytes(bytes: &Vec<u8>) -> (r: Result<Vec<u8>, ed25519_dalek::SignatureError>)
    requires
        bytes@.len() == ED25519_KEY_LENGTH,
    ensures
        r is Ok <==> is_ed25519_point(bytes@),
        r matches Ok(key) ==> key@ == bytes@,
{
    let mut array = [0u8;32];
    array.copy_from_slice(bytes.as_slice());
    ed25519_dalek::VerifyingKey::from_bytes(&array).map(|key| key.as_bytes().to_vec())
}

/// `ed25519_dalek::SigningKey::from_bytes`: every array of the right length is a private key, and
/// the key keeps the bytes it was made of.
#[verifier::external_body]
fn signing_key_from_bytes(bytes: &Vec<u8>) -> (r: Vec<u8>)
    requires
        bytes@.len() == ED25519_KEY_LENGTH,
    ensures
        r@ == bytes@,
{
    let mut array = [0u8;32];
    array.copy_from_slice(bytes.as_slice());
    ed25519_dalek::SigningKey::from_bytes(&array).as_bytes().to_vec()
}

/// The compressed point that belongs to an ed25519 private key.
pub uninterp spec fn ed25519_public_of(private: Seq<u8>) -> Seq<u8>;

/// `ed25519_dalek::SigningKey::verifying_key`: the public key is a function of the private one,
/// and it is a point of the curve.
#[verifier::external_body]
fn verifying_key_of(private: &Vec<u8>) -> (r: Vec<u8>)
    requires
        private@.len() == ED25519_KEY_LENGTH,
    ensures
        r@ == ed25519_public_of(private@),
        r@.len() == ED25519_KEY_LENGTH,
        is_ed25519_point(r@),
{
    let mut array = [0u8;32];
    array.copy_from_slice(private.as_slice());
    ed25519_dalek::SigningKey::from_bytes(&array).verifying_key().as_bytes().to_vec()
}

/// `ed25519_dalek::SigningKey::generate` with the random numbers of the operating system: which
/// key it is is left to chance.
#[verifier::external_body]
fn generate_signing_key() -> (r: Vec<u8>)
    ensures
        r@.len() == ED25519_KEY_LENGTH,
{
    ed25519_dalek::SigningKey::generate(&mut rand::rngs::OsRng).as_bytes().to_vec()
}

/// `pqcrypto_dilithium::dilithium5_keypair`: a new public and secret key that belong to each
/// other. Which ones they are is left to chance.
#[verifier::external_body]
fn generate_dilithium_keypair() -> (r: (Vec<u8>, Vec<u8>))
    ensures
        r.0@.len() == DILITHIUM_PUBLIC_KEY_LENGTH,
        r.1@.len() == DILITHIUM_SECRET_KEY_LENGTH,
{
    let (public, secret) = pqcrypto_dilithium::dilithium5_keypair();
    (public.as_bytes().to_vec(), secret.as_bytes().to_vec())
}

/// `bincode::serde::decode_from_slice` of a dilithium5 public key in the standard configuration:
/// the key is an array of bytes, which stand at the beginning of the encoded form.
#[verifier::external_body]
fn decode_dilithium_public_key(
    encoded: &Vec<u8>,
) -> (r: Result<Vec<u8>, bincode::error::DecodeError>)
    ensures
        r is Ok <==> encoded@.len() >= DILITHIUM_PUBLIC_KEY_LENGTH,
        r matches Ok(key) ==> key@ == encoded@.take(DILITHIUM_PUBLIC_KEY_LENGTH as int),
{
    bincode::serde::decode_from_slice::<pqcrypto_dilithium::dilithium5::PublicKey, _>(
        encoded.as_slice(),
        bincode::config::standard(),
    ).map(|decoded| decoded.0.as_bytes().to_vec())
}

/// `bincode::serde::decode_from_slice` of a dilithium5 secret key in the standard configuration:
/// the key is an array of bytes, which stand at the beginning of the encoded form.
#[verifier::external_body]
fn decode_dilithium_secret_key(
    encoded: &Vec<u8>,
) -> (r: Result<Vec<u8>, bincode::error::DecodeError>)
    ensures
        r is Ok <==> encoded@.len() >= DILITHIUM_SECRET_KEY_LENGTH,
        r matches Ok(key) ==> key@ == encoded@.take(DILITHIUM_SECRET_KEY_LENGTH as int),
{
    bincode::serde::decode_from_slice::<pqcrypto_dilithium::dilithium5::SecretKey, _>(
        encoded.as_slice(),
        bincode::config::standard(),
    ).map(|decoded| decoded.0.as_bytes().to_vec())
}

/// `bincode::serde::encode_to_vec` of a dilithium5 public key in the standard configuration: the
/// bytes of the key and nothing else.
#[verifier::external_body]
fn encode_dilithium_public_key(key: &Vec<u8>) -> (r: Result<Vec<u8>, bincode::error::EncodeError>)
    requires
        key@.len() == DILITHIUM_PUBLIC_KEY_LENGTH,
    ensures
        r is Ok,
        r matches Ok(encoded) ==> encoded@ == key@,
{
    let key = pqcrypto_dilithium::dilithium5::PublicKey::from_bytes(key.as_slice()).unwrap();
    bincode::serde::encode_to_vec(key, bincode::config::standard())
}

/// `bincode::serde::encode_to_vec` of a dilithium5 secret key in the standard configuration: the
/// bytes of the key and nothing else.
#[verifier::external_body]
fn encode_dilithium_secret_key(key: &Vec<u8>) -> (r: Result<Vec<u8>, bincode::error::EncodeError>)
    requires
        key@.len() == DILITHIUM_SECRET_KEY_LENGTH,
    ensures
        r is Ok,
        r matches Ok(encoded) ==> encoded@ == key@,
{
    let key = pqcrypto_dilithium::dilithium5::SecretKey::from_bytes(key.as_slice()).unwrap();
    bincode::serde::encode_to_vec(key, bincode::config::standard())
}

#[derive(Debug)]
pub enum PublicEd25519DeserializationError {
    PublicEd25519Length { got: usize, expected: usize },
    PublicEd25519Format,
}

impl PublicEd25519DeserializationError {
    pub open spec fn text(self) -> Seq<char> {
        match self {
            PublicEd25519DeserializationError::PublicEd25519Length { got, expected } =>
                "Failed to deserialize public ed25519 key. Wrong length. Expected "@
                + crate::text::decimal(expected as nat) + " bytes, got "@ + crate::text::decimal(
                got as nat,
            ),
            PublicEd25519DeserializationError::PublicEd25519Format =>
                "Failed to deserialize public ed25519 key. Wrong key format?"@,
        }
    }

    pub fn to_text(&self) -> (r: String)
        ensures
            r@ == self.text(),
    {
        match self {
            PublicEd25519DeserializationError::PublicEd25519Length { got, expected } =>
                "Failed to deserialize public ed25519 key. Wrong length. Expected ".to_owned().concat(
                u64_to_string(*expected as u64).as_str(),
            ).concat(" bytes, got ").concat(u64_to_string(*got as u64).as_str()),
            PublicEd25519DeserializationError::PublicEd25519Format =>
                "Failed to deserialize public ed25519 key. Wrong key format?".to_owned(),
        }
    }
}

#[derive(Debug)]
pub enum PrivateEd25519DeserializationError {
    PrivateEd25519Length { got: usize, expected: usize },
}

impl PrivateEd25519DeserializationError {
    pub open spec fn text(self) -> Seq<char> {
        match self {
            PrivateEd25519DeserializationError::PrivateEd25519Length { got, expected } =>
                "Failed to deserialize private ed25519 key. Wrong length. Expected "@
                + crate::text::decimal(expected as nat) + " bytes, got "@ + crate::text::decimal(
                got as nat,
            ),
        }
    }

    pub fn to_text(&self) -> (r: String)
        ensures
            r@ == self.text(),
    {
        match self {
            PrivateEd25519DeserializationError::PrivateEd25519Length { got, expected } =>
                "Failed to deserialize private ed25519 key. Wrong length. Expected ".to_owned().concat(
                u64_to_string(*expected as u64).as_str(),
            ).concat(" bytes, got ").concat(u64_to_string(*got as u64).as_str()),
        }
    }
}

/// The encoded form of a dilithium key is too short to hold one.
#[derive(Debug)]
pub struct DilithiumDecodeError {
    pub got: usize,
}

impl DilithiumDecodeError {
    /// Keys are read byte by byte, so it is always one byte that is missing.
    pub open spec fn text(self) -> Seq<char> {
        "UnexpectedEnd { additional: 1 }"@
    }

    pub fn to_text(&self) -> (r: String)
        ensures
            r@ == self.text(),
    {
        "UnexpectedEnd { additional: 1 }".to_owned()
    }
}

/// A dilithium key could not be encoded.
#[derive(Debug)]
pub struct DilithiumEncodeError {}

pub fn deserialize_ed25519_public_key(key: Vec<u8>) -> (r: Result<
    Ed25519PublicKey,
    PublicEd25519DeserializationError,
>)
    ensures
        match r {
            Ok(k) => key@.len() == ED25519_KEY_LENGTH && is_ed25519_point(key@) && k@ == key@,
            Err(PublicEd25519DeserializationError::PublicEd25519Length { got, expected }) =>
                key@.len() != ED25519_KEY_LENGTH && got == key@.len() && expected
                == ED25519_KEY_LENGTH,
            Err(PublicEd25519DeserializationError::PublicEd25519Format) => key@.len()
                == ED25519_KEY_LENGTH && !is_ed25519_point(key@),
        },
{
    if key.len() != ED25519_KEY_LENGTH {
        return Err(
            PublicEd25519DeserializationError::PublicEd25519Length {
                got: key.len(),
                expected: ED25519_KEY_LENGTH,
            },
        );
    }
    match verifying_key_from_bytes(&key) {
        Ok(bytes) => Ok(Ed25519PublicKey { bytes }),
        Err(_) => Err(PublicEd25519DeserializationError::PublicEd25519Format),
    }
}

pub fn deserialize_ed25519_private_key(key: Vec<u8>) -> (r: Result<
    Ed25519PrivateKey,
    PrivateEd25519DeserializationError,
>)
    ensures
        match r {
            Ok(k) => key@.len() == ED25519_KEY_LENGTH && k@ == key@,
            Err(PrivateEd25519DeserializationError::PrivateEd25519Length { got, expected }) =>
                key@.len() != ED25519_KEY_LENGTH && got == key@.len() && expected
                == ED25519_KEY_LENGTH,
        },
{
    if key.len() != ED25519_KEY_LENGTH {
        return Err(
            PrivateEd25519DeserializationError::PrivateEd25519Length {
                got: key.len(),
                expected: ED25519_KEY_LENGTH,
            },
        );
    }
    Ok(Ed25519PrivateKey { bytes: signing_key_from_bytes(&key) })
}

pub fn deserialize_dilithium_public_key(key: Vec<u8>) -> (r: Result<
    DilithiumPublicKey,
    DilithiumDecodeError,
>)
    ensures
        match r {
            Ok(k) => key@.len() >= DILITHIUM_PUBLIC_KEY_LENGTH && k@ == key@.take(
                DILITHIUM_PUBLIC_KEY_LENGTH as int,
            ),
            Err(e) => key@.len() < DILITHIUM_PUBLIC_KEY_LENGTH && e.got == key@.len(),
        },
{
    match decode_dilithium_public_key(&key) {
        Ok(bytes) => Ok(DilithiumPublicKey { bytes }),
        Err(_) => Err(DilithiumDecodeError { got: key.len() }),
    }
}

pub fn deserialize_dilithium_private_key(key: Vec<u8>) -> (r: Result<
    DilithiumSecretKey,
    DilithiumDecodeError,
>)
    ensures
        match r {
            Ok(k) => key@.len() >= DILITHIUM_SECRET_KEY_LENGTH && k@ == key@.take(
                DILITHIUM_SECRET_KEY_LENGTH as int,
            ),
            Err(e) => key@.len() < DILITHIUM_SECRET_KEY_LENGTH && e.got == key@.len(),
        },
{
    match decode_dilithium_secret_key(&key) {
        Ok(bytes) => Ok(DilithiumSecretKey { bytes }),
        Err(_) => Err(DilithiumDecodeError { got: key.len() }),
    }
}

/// Reading back what this returns gives the key.
pub fn serialize_ed25519_public_key(key: &Ed25519PublicKey) -> (r: Vec<u8>)
    ensures
        r@ == key@,
        r@.len() == ED25519_KEY_LENGTH,
        is_ed25519_point(r@),
{
    proof {
        use_type_invariant(key);
    }
    copy_bytes(&key.bytes)
}

/// Reading back what this returns gives the key.
pub fn serialize_ed25519_private_key(key: &Ed25519PrivateKey) -> (r: Vec<u8>)
    ensures
        r@ == key@,
        r@.len() == ED25519_KEY_LENGTH,
{
    proof {
        use_type_invariant(key);
    }
    copy_bytes(&key.bytes)
}

/// Reading back what this returns gives the key.
pub fn serialize_dilithium_public_key(key: &DilithiumPublicKey) -> (r: Result<
    Vec<u8>,
    DilithiumEncodeError,
>)
    ensures
        r is Ok,
        r matches Ok(bytes) ==> bytes@ == key@ && bytes@.len() == DILITHIUM_PUBLIC_KEY_LENGTH,
{
    proof {
        use_type_invariant(key);
    }
    match encode_dilithium_public_key(&key.bytes) {
        Ok(bytes) => Ok(bytes),
        Err(_) => Err(DilithiumEncodeError {  }),
    }
}

/// Reading back what this returns gives the key.
pub fn serialize_dilithium_private_key(key: &DilithiumSecretKey) -> (r: Result<
    Vec<u8>,
    DilithiumEncodeError,
>)
    ensures
        r is Ok,
        r matches Ok(bytes) ==> bytes@ == key@ && bytes@.len() == DILITHIUM_SECRET_KEY_LENGTH,
{
    proof {
        use_type_invariant(key);
    }
    match encode_dilithium_secret_key(&key.bytes) {
        Ok(bytes) => Ok(bytes),
        Err(_) => Err(DilithiumEncodeError {  }),
    }
}

pub ghost struct PublicKeysView {
    pub dilithium: Seq<u8>,
    pub ed25519: Seq<u8>,
}

pub ghost struct PrivateKeysView {
    pub dilithium: Seq<u8>,
    pub ed25519: Seq<u8>,
}

pub ghost struct KeysView {
    pub private: PrivateKeysView,
    pub public: PublicKeysView,
}

/// Whether these can be drawn together for a new public and secret dilithium5 key.
pub closed spec fn can_be_dilithium_pair(public: Seq<u8>, secret: Seq<u8>) -> bool {
    exists|pair: (Vec<u8>, Vec<u8>)|
        pair.0@ == public && pair.1@ == secret && #[trigger] call_ensures(
            generate_dilithium_keypair,
            (),
            pair,
        )
}

/// Whether this can be drawn for a new ed25519 private key.
pub closed spec fn can_be_signing_key(private: Seq<u8>) -> bool {
    exists|key: Vec<u8>| key@ == private && #[trigger] call_ensures(generate_signing_key, (), key)
}

/// Whether these can be new keys: they were drawn, and the public ones belong to the private ones.
pub open spec fn are_new_keys(keys: KeysView) -> bool {
    &&& can_be_dilithium_pair(keys.public.dilithium, keys.private.dilithium)
    &&& can_be_signing_key(keys.private.ed25519)
    &&& keys.public.ed25519 == ed25519_public_of(keys.private.ed25519)
    &&& is_ed25519_point(keys.public.ed25519)
    &&& keys.public.ed25519.len() == ED25519_KEY_LENGTH
    &&& keys.private.ed25519.len() == ED25519_KEY_LENGTH
    &&& keys.private.dilithium.len() == DILITHIUM_SECRET_KEY_LENGTH
    &&& keys.public.dilithium.len() == DILITHIUM_PUBLIC_KEY_LENGTH
}

/// The keys that others know of a contact.
#[derive(Debug, PartialEq, Eq)]
pub struct ContactPublicKeys {
    pub dilithium: DilithiumPublicKey,
    pub ed25519: Ed25519PublicKey,
}

impl View for ContactPublicKeys {
    type V = PublicKeysView;

    open spec fn view(&self) -> PublicKeysView {
        PublicKeysView { dilithium: self.dilithium@, ed25519: self.ed25519@ }
    }
}

impl Clone for ContactPublicKeys {
    fn clone(&self) -> (r: Self)
        ensures
            r@ == self@,
    {
        ContactPublicKeys { dilithium: self.dilithium.clone(), ed25519: self.ed25519.clone() }
    }
}

impl ContactPublicKeys {
    /// The public half of new keys.
    pub fn new() -> (r: Self)
        ensures
            exists|keys: KeysView| #[trigger] are_new_keys(keys) && keys.public == r@,
    {
        let keys = ContactKeys::new();
        let ghost all = keys@;
        assert(are_new_keys(all));
        keys.public
    }
}

/// The keys that a contact keeps to itself.
#[derive(Debug, PartialEq, Eq)]
pub struct ContactPrivateKeys {
    pub dilithium: DilithiumSecretKey,
    pub ed25519: Ed25519PrivateKey,
}

impl View for ContactPrivateKeys {
    type V = PrivateKeysView;

    open spec fn view(&self) -> PrivateKeysView {
        PrivateKeysView { dilithium: self.dilithium@, ed25519: self.ed25519@ }
    }
}

impl Clone for ContactPrivateKeys {
    fn clone(&self) -> (r: Self)
        ensures
            r@ == self@,
    {
        ContactPrivateKeys { dilithium: self.dilithium.clone(), ed25519: self.ed25519.clone() }
    }
}

/// All keys of one's own contact.
#[derive(Debug, PartialEq, Eq)]
pub struct ContactKeys {
    pub private: ContactPrivateKeys,
    pub public: ContactPublicKeys,
}

impl View for ContactKeys {
    type V = KeysView;

    open spec fn view(&self) -> KeysView {
        KeysView { private: self.private@, public: self.public@ }
    }
}

impl Clone for ContactKeys {
    fn clone(&self) -> (r: Self)
        ensures
            r@ == self@,
    {
        ContactKeys { private: self.private.clone(), public: self.public.clone() }
    }
}

impl Default for ContactKeys {
    fn default() -> (r: Self)
        ensures
            are_new_keys(r@),
    {
        ContactKeys::new()
    }
}

impl ContactKeys {
    /// New keys, which belong to each other.
    pub fn new() -> (r: Self)
        ensures
            are_new_keys(r@),
    {
        let dilithium = generate_dilithium_keypair();
        assert(call_ensures(generate_dilithium_keypair, (), dilithium));
        assert(can_be_dilithium_pair(dilithium.0@, dilithium.1@));
        let (dilithium_public, dilithium_secret) = dilithium;
        let ed25519_private = generate_signing_key();
        assert(call_ensures(generate_signing_key, (), ed25519_private));
        assert(can_be_signing_key(ed25519_private@));
        let ed25519_public = verifying_key_of(&ed25519_private);
        ContactKeys {
            private: ContactPrivateKeys {
                dilithium: DilithiumSecretKey { bytes: dilithium_secret },
                ed25519: Ed25519PrivateKey { bytes: ed25519_private },
            },
            public: ContactPublicKeys {
                dilithium: DilithiumPublicKey { bytes: dilithium_public },
                ed25519: Ed25519PublicKey { bytes: ed25519_public },
            },
        }
    }
}

/// The cipher is never given the same nonce for messages of different numbers.
pub proof fn law_cipher_nonces_differ(a: u64, b: u64)
    requires
        a != b,
    ensures
        cipher_nonce(a) != cipher_nonce(b),
        cipher_nonce(a).len() == 12,
{
    vstd::bytes::lemma_auto_spec_u64_to_from_le_bytes();
    let first = vstd::bytes::spec_u64_to_le_bytes(a);
    let second = vstd::bytes::spec_u64_to_le_bytes(b);
    assert(first.len() == 8 && second.len() == 8);
    assert(cipher_nonce(a).take(8) =~= first);
    assert(cipher_nonce(b).take(8) =~= second);
    assert(vstd::bytes::spec_u64_from_le_bytes(first) == a);
    assert(vstd::bytes::spec_u64_from_le_bytes(second) == b);
}

/// A side never sends two messages under the same nonce, and the two sides of a session never do
/// either.
pub proof fn law_messages_have_nonces_of_their_own(
    sender: Dencryptor,
    plaintext: Seq<u8>,
    message: (Seq<u8>, u64),
    after: Dencryptor,
    next_plaintext: Seq<u8>,
    next: (Seq<u8>, u64),
    later: Dencryptor,
    peer: Dencryptor,
    peer_plaintext: Seq<u8>,
    from_peer: (Seq<u8>, u64),
    peer_after: Dencryptor,
)
    requires
        sender.well_formed(),
        peer.well_formed(),
        sender.encrypts(plaintext, Ok(message), after),
        after.well_formed(),
        after.encrypts(next_plaintext, Ok(next), later),
        peer.nonces().is_initiator() != sender.nonces().is_initiator(),
        peer.encrypts(peer_plaintext, Ok(from_peer), peer_after),
    ensures
        message.1 != next.1,
        message.1 != from_peer.1,
{
    sender.nonces().lemma_sent_is_bounded();
    after.nonces().lemma_sent_is_bounded();
    peer.nonces().lemma_sent_is_bounded();
}

/// A message is opened at most once: whatever comes under a nonce that was taken before is refused,
/// even where what came first could not be opened.
pub proof fn law_no_message_is_opened_twice(
    receiver: Dencryptor,
    ciphertext: Seq<u8>,
    nonce: u64,
    first: Result<Seq<u8>, DecryptionError>,
    after: Dencryptor,
    other: Seq<u8>,
    second: Result<Seq<u8>, DecryptionError>,
    later: Dencryptor,
)
    requires
        receiver.can_decrypt(nonce),
        receiver.decrypts(ciphertext, nonce, first, after),
        first is Ok || first matches Err(DecryptionError::DecryptionFailure),
        after.decrypts(other, nonce, second, later),
    ensures
        second matches Err(DecryptionError::NonceValidationError(_)),
        later.nonces().received() == after.nonces().received(),
{
}

/// What was changed on the way, or sealed with another key, so that the cipher does not open it, is
/// never given out.
pub proof fn law_only_what_the_cipher_opens_is_given_out(
    receiver: Dencryptor,
    ciphertext: Seq<u8>,
    nonce: u64,
    plaintext: Seq<u8>,
    after: Dencryptor,
)
    requires
        receiver.decrypts(ciphertext, nonce, Ok(plaintext), after),
    ensures
        opened(receiver.key(), cipher_nonce(nonce), ciphertext) == Some(plaintext),
{
}

} // verus!
