//! Ed25519 keys as the federation uses them: 32 bytes that name an instance.

use crate::codec::{base64url_bytes, base64url_decode, base64url_encode, base64url_text};
use vstd::prelude::*;

verus! {

/// Whether 32 bytes are the compressed form of a curve point, that is, a
/// verifying key.
pub uninterp spec fn ed25519_point(bytes: Seq<u8>) -> bool;

/// Whether `signature` is accepted for `message` under the key `key` by
/// strict verification.
pub uninterp spec fn ed25519_strict(key: Seq<u8>, message: Seq<u8>, signature: Seq<u8>) -> bool;

/// The verifying key that belongs to the secret key `secret`.
pub uninterp spec fn ed25519_public(secret: Seq<u8>) -> Seq<u8>;

/// The signature that the secret key `secret` gives `message`.
pub uninterp spec fn ed25519_signature(secret: Seq<u8>, message: Seq<u8>) -> Seq<u8>;

/// `VerifyingKey::from_bytes` of ed25519-dalek: whether the bytes decompress
/// to a point. The answer is named `ed25519_point`.
#[verifier::external_body]
pub(crate) fn point_decodes(bytes: &[u8; 32]) -> (r: bool)
    ensures
        r == ed25519_point(bytes@),
{
    ed25519_dalek::VerifyingKey::from_bytes(bytes).is_ok()
}

/// `VerifyingKey::verify_strict` of ed25519-dalek, on a key and a signature
/// given as bytes. The answer is named `ed25519_strict`; under bytes that
/// are no key nothing is accepted.
#[verifier::external_body]
pub(crate) fn verify_strict(key: &[u8; 32], message: &[u8], signature: &[u8; 64]) -> (r: bool)
    ensures
        r == ed25519_strict(key@, message@, signature@),
{
    match ed25519_dalek::VerifyingKey::from_bytes(key) {
        Ok(point) => point.verify_strict(
            message,
            &ed25519_dalek::Signature::from_bytes(signature),
        ).is_ok(),
        Err(_) => false,
    }
}

/// `SigningKey::verifying_key` of ed25519-dalek. The bytes are named
/// `ed25519_public`.
#[verifier::external_body]
pub(crate) fn public_of(secret: &[u8; 32]) -> (r: [u8; 32])
    ensures
        r@ == ed25519_public(secret@),
{
    ed25519_dalek::SigningKey::from_bytes(secret).verifying_key().to_bytes()
}

/// `Signer::sign` of ed25519-dalek's `SigningKey`. The 64 bytes are named
/// `ed25519_signature`.
#[verifier::external_body]
pub(crate) fn sign_with(secret: &[u8; 32], message: &[u8]) -> (r: [u8; 64])
    ensures
        r@ == ed25519_signature(secret@, message@),
{
    ed25519_dalek::Signer::sign(&ed25519_dalek::SigningKey::from_bytes(secret), message).to_bytes()
}

/// The array of 32 bytes that holds `bytes`.
pub open spec fn array32_of(bytes: Seq<u8>) -> [u8; 32] {
    choose|a: [u8; 32]| a@ == bytes
}

/// The array of 64 bytes that holds `bytes`.
pub open spec fn array64_of(bytes: Seq<u8>) -> [u8; 64] {
    choose|a: [u8; 64]| a@ == bytes
}

/// Copies 32 bytes into an array.
pub fn to_array32(bytes: &[u8]) -> (r: Option<[u8; 32]>)
    ensures
        r is Some <==> bytes@.len() == 32,
        r is Some ==> r->0 == array32_of(bytes@) && r->0@ == bytes@,
{
    if bytes.len() != 32 {
        return None;
    }
    let mut a: [u8; 32] = [0u8; 32];
    let mut i: usize = 0;
    while i < 32
        invariant
            i <= 32,
            bytes@.len() == 32,
            forall|j: int| 0 <= j < i ==> a@[j] == bytes@[j],
        decreases 32 - i,
    {
        a[i] = bytes[i];
        i += 1;
    }
    assert(a@ =~= bytes@);
    assert(array32_of(bytes@)@ == bytes@);
    assert(array32_of(bytes@) =~= a);
    Some(a)
}

/// Copies 64 bytes into an array.
pub fn to_array64(bytes: &[u8]) -> (r: Option<[u8; 64]>)
    ensures
        r is Some <==> bytes@.len() == 64,
        r is Some ==> r->0 == array64_of(bytes@) && r->0@ == bytes@,
{
    if bytes.len() != 64 {
        return None;
    }
    let mut a: [u8; 64] = [0u8; 64];
    let mut i: usize = 0;
    while i < 64
        invariant
            i <= 64,
            bytes@.len() == 64,
            forall|j: int| 0 <= j < i ==> a@[j] == bytes@[j],
        decreases 64 - i,
    {
        a[i] = bytes[i];
        i += 1;
    }
    assert(a@ =~= bytes@);
    assert(array64_of(bytes@)@ == bytes@);
    assert(array64_of(bytes@) =~= a);
    Some(a)
}

/// Whether two arrays hold the same bytes.
pub fn same_bytes(a: &[u8; 32], b: &[u8; 32]) -> (r: bool)
    ensures
        r == (*a == *b),
        r == (a@ == b@),
{
    let mut i: usize = 0;
    while i < 32
        invariant
            i <= 32,
            forall|j: int| 0 <= j < i ==> a@[j] == b@[j],
        decreases 32 - i,
    {
        if a[i] != b[i] {
            return false;
        }
        i += 1;
    }
    assert(a@ =~= b@);
    assert(*a =~= *b);
    true
}

/// Why a text is not an instance key.
#[derive(Clone, Copy, PartialEq, Eq, Structural, Debug)]
pub enum KeyFormatError {
    /// The text is not base64.
    Encoding,
    /// The text decodes to more or fewer than 32 bytes.
    Length,
    /// The 32 bytes are no point of the curve.
    Point,
}

/// The public half of an instance's identity.
#[derive(Clone, Copy, Debug, PartialEq, Eq)]
pub struct PublicKey {
    pub bytes: [u8; 32],
}

impl View for PublicKey {
    type V = Seq<u8>;

    open spec fn view(&self) -> Seq<u8> {
        self.bytes@
    }
}

impl PublicKey {
    /// The bytes are a verifying key.
    pub open spec fn wf(&self) -> bool {
        ed25519_point(self@)
    }

    /// The key that holds `bytes`.
    pub open spec fn of_bytes(bytes: Seq<u8>) -> PublicKey {
        PublicKey { bytes: array32_of(bytes) }
    }

    /// Whether `bytes` are a key: 32 bytes that decode to a point.
    pub open spec fn accepts(bytes: Seq<u8>) -> bool {
        bytes.len() == 32 && ed25519_point(bytes)
    }

    /// What `decode` makes of a text.
    pub open spec fn decoding(text: Seq<char>) -> Result<PublicKey, KeyFormatError> {
        match base64url_bytes(text) {
            None => Err(KeyFormatError::Encoding),
            Some(bytes) => if bytes.len() != 32 {
                Err(KeyFormatError::Length)
            } else if !ed25519_point(bytes) {
                Err(KeyFormatError::Point)
            } else {
                Ok(PublicKey::of_bytes(bytes))
            },
        }
    }

    /// Takes `bytes` for a key where they are one.
    pub fn from_bytes(bytes: &[u8]) -> (r: Option<PublicKey>)
        ensures
            r is Some <==> PublicKey::accepts(bytes@),
            r is Some ==> r->0 == PublicKey::of_bytes(bytes@) && r->0@ == bytes@ && r->0.wf(),
    {
        match to_array32(bytes) {
            None => None,
            Some(a) => {
                if point_decodes(&a) {
                    Some(PublicKey { bytes: a })
                } else {
                    None
                }
            },
        }
    }

    /// Reads a key from its base64 text.
    pub fn decode(text: &str) -> (r: Result<PublicKey, KeyFormatError>)
        ensures
            r == PublicKey::decoding(text@),
            r is Ok ==> r->Ok_0.wf(),
    {
        match base64url_decode(text) {
            None => Err(KeyFormatError::Encoding),
            Some(bytes) => match to_array32(bytes.as_slice()) {
                None => Err(KeyFormatError::Length),
                Some(a) => {
                    if point_decodes(&a) {
                        Ok(PublicKey { bytes: a })
                    } else {
                        Err(KeyFormatError::Point)
                    }
                },
            },
        }
    }

    /// The base64 text of the key.
    pub fn encode(&self) -> (r: String)
        ensures
            r@ == base64url_text(self@),
    {
        base64url_encode(self.bytes.as_slice())
    }

    /// Whether two keys are the same key.
    pub fn same(&self, other: &PublicKey) -> (r: bool)
        ensures
            r == (*self == *other),
            r == (self@ == other@),
    {
        same_bytes(&self.bytes, &other.bytes)
    }
}

} // verus!
