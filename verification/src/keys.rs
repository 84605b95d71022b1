//! The host elliptic-curve public key, in the word order the device
//! consumes, and its derivation from a PKCS#8 private-key document.
//!
//! The device consumes each coordinate as eight 32-bit words,
//! least-significant word first, while the standard SEC1 point encoding is
//! most-significant byte first: the leading format byte of the uncompressed
//! point is stripped, each 32-byte half is split into big-endian words, and
//! the word order of each half is reversed.

use crate::proto::Error;
use vstd::prelude::*;

verus! {

/// A P-256 public key as the device consumes it: for each coordinate,
/// eight 32-bit words, least-significant word first.
#[derive(Clone, Copy, Debug)]
pub struct EccPublicKey {
    pub x: [u32; 8],
    pub y: [u32; 8],
}

/// The 32-bit word with big-endian bytes `b0..b3`.
pub open spec fn spec_be_word(b0: u8, b1: u8, b2: u8, b3: u8) -> u32 {
    ((b0 as u32) << 24) | ((b1 as u32) << 16) | ((b2 as u32) << 8) | (b3 as u32)
}

/// The big-endian word at byte offset `off` of `b`.
pub open spec fn spec_be_word_at(b: Seq<u8>, off: int) -> u32 {
    spec_be_word(b[off], b[off + 1], b[off + 2], b[off + 3])
}

/// Word `i` of the device-ordered X coordinate of the uncompressed SEC1
/// point encoding `b`: the halves start after the format byte, and the word
/// order of each half is reversed.
pub open spec fn spec_pubkey_x_word(b: Seq<u8>, i: int) -> u32 {
    spec_be_word_at(b, 1 + 4 * (7 - i))
}

/// Word `i` of the device-ordered Y coordinate of `b`.
pub open spec fn spec_pubkey_y_word(b: Seq<u8>, i: int) -> u32 {
    spec_be_word_at(b, 33 + 4 * (7 - i))
}

/// `b` is the uncompressed SEC1 encoding of a P-256 point: format byte 4,
/// then the 32-byte X and Y coordinates.
pub open spec fn spec_is_uncompressed_sec1(b: Seq<u8>) -> bool {
    b.len() == 65 && b[0] == 4
}

/// Read the big-endian word at `off`.
fn read_word_be(b: &[u8], off: usize) -> (r: u32)
    requires
        off + 4 <= b@.len(),
    ensures
        r == spec_be_word_at(b@, off as int),
{
    ((b[off] as u32) << 24) | ((b[off + 1] as u32) << 16) | ((b[off + 2] as u32) << 8)
        | (b[off + 3] as u32)
}

impl EccPublicKey {
    /// Split an uncompressed SEC1 point encoding into the device-ordered
    /// coordinate words. Fails, and only fails, when `b` is not a 65-byte
    /// uncompressed point encoding.
    pub fn from_sec1_bytes(b: &[u8]) -> (r: Result<EccPublicKey, Error>)
        ensures
            (r is Ok <==> spec_is_uncompressed_sec1(b@)),
            r matches Ok(k) ==> (forall|i: int|
                0 <= i < 8 ==> k.x@[i] == spec_pubkey_x_word(b@, i) && k.y@[i]
                    == spec_pubkey_y_word(b@, i)),
            r is Err ==> r == Result::<EccPublicKey, Error>::Err(Error::InvalidKeyEncoding),
    {
        if b.len() != 65 || b[0] != 4 {
            return Err(Error::InvalidKeyEncoding);
        }
        let x = [
            read_word_be(b, 29),
            read_word_be(b, 25),
            read_word_be(b, 21),
            read_word_be(b, 17),
            read_word_be(b, 13),
            read_word_be(b, 9),
            read_word_be(b, 5),
            read_word_be(b, 1),
        ];
        let y = [
            read_word_be(b, 61),
            read_word_be(b, 57),
            read_word_be(b, 53),
            read_word_be(b, 49),
            read_word_be(b, 45),
            read_word_be(b, 41),
            read_word_be(b, 37),
            read_word_be(b, 33),
        ];
        Ok(EccPublicKey { x, y })
    }
}

/// The uncompressed SEC1 encoding of the P-256 public key that belongs to
/// the private key held in a PKCS#8 DER document. The key pair is a
/// function of the document alone.
pub uninterp spec fn p256_pubkey_sec1_of(der: Seq<u8>) -> Seq<u8>;

/// Whether a byte string is a PKCS#8 DER document holding a valid P-256
/// private key. Parsing is deterministic in the bytes alone, so this is a
/// function of the document.
pub uninterp spec fn p256_pkcs8_parses(der: Seq<u8>) -> bool;

/// Relies on `elliptic_curve::SecretKey::<p256::NistP256>::from_pkcs8_der`
/// (parse the PKCS#8 document), `SecretKey::public_key` (derive the public
/// key from the secret scalar), and `PublicKey::to_sec1_bytes` (SEC1 point
/// encoding). Parsing succeeds exactly when the document is a valid P-256
/// PKCS#8 key — a function of the bytes alone, named `p256_pkcs8_parses` —
/// and the two later calls cannot fail. p256 sets
/// `PointCompression::COMPRESS_POINTS` to `false`, so the encoding is the
/// uncompressed form: 65 bytes, format byte 4. The derivation is
/// deterministic in the document.
#[verifier::external_body]
fn p256_pubkey_sec1_from_pkcs8_der(der: &[u8]) -> (r: Result<Vec<u8>, Error>)
    ensures
        (r is Ok <==> p256_pkcs8_parses(der@)),
        (match r {
            Ok(b) => b@ == p256_pubkey_sec1_of(der@) && spec_is_uncompressed_sec1(b@),
            Err(e) => e == Error::InvalidKeyEncoding,
        }),
{
    let sk = match <p256::SecretKey as elliptic_curve::pkcs8::DecodePrivateKey>::from_pkcs8_der(
        der,
    ) {
        Ok(sk) => sk,
        Err(_) => return Err(Error::InvalidKeyEncoding),
    };
    let pk: p256::PublicKey = sk.public_key();
    Ok(pk.to_sec1_bytes().to_vec())
}

/// Derive the device-ordered public key words from a PKCS#8 DER private-key
/// document. Succeeds exactly when the document is a valid P-256 PKCS#8
/// key; the words are then exactly the word-reversed halves of the
/// uncompressed point encoding of the document's public key.
pub fn derive_host_pubkey(der: &[u8]) -> (r: Result<EccPublicKey, Error>)
    ensures
        (r is Ok <==> p256_pkcs8_parses(der@)),
        r matches Ok(k) ==> ({
            let b = p256_pubkey_sec1_of(der@);
            spec_is_uncompressed_sec1(b) && (forall|i: int|
                0 <= i < 8 ==> k.x@[i] == spec_pubkey_x_word(b, i) && k.y@[i]
                    == spec_pubkey_y_word(b, i))
        }),
        r is Err ==> r == Result::<EccPublicKey, Error>::Err(Error::InvalidKeyEncoding),
{
    let sec1 = match p256_pubkey_sec1_from_pkcs8_der(der) {
        Ok(b) => b,
        Err(e) => {
            return Err(e);
        },
    };
    EccPublicKey::from_sec1_bytes(sec1.as_slice())
}

} // verus!
