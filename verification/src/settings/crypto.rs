use vstd::prelude::*;
use vstd::utf8::{decode_utf8, encode_utf8, valid_utf8};

use aes_gcm::aead::rand_core::RngCore;
use aes_gcm::aead::{Aead, KeyInit, OsRng};
use aes_gcm::{Aes256Gcm, Key, Nonce};

use crate::text::decode_utf8_bytes;

verus! {

/// Why stored ciphertext could not be turned back into text.
#[derive(Debug, Clone, Copy, PartialEq, Eq)]
pub enum CryptoError {
    DecryptionFailed,
}

/// The length of the random nonce that leads every ciphertext.
pub const NONCE_LEN: usize = 12;

/// The length of the authentication tag that ends every ciphertext.
pub const TAG_LEN: usize = 16;

/// The longest plaintext AES-GCM accepts, in bytes.
pub const MAX_PLAINTEXT_LEN: u64 = 0x10_0000_0000;

/// AES-256-GCM sealing of `plaintext` under `key` and `nonce`: ciphertext followed by tag.
pub uninterp spec fn aes256gcm_seal(key: Seq<u8>, nonce: Seq<u8>, plaintext: Seq<u8>) -> Seq<u8>;

/// AES-256-GCM opening of `ciphertext` under `key` and `nonce`: the plaintext when the tag
/// checks out.
pub uninterp spec fn aes256gcm_open(key: Seq<u8>, nonce: Seq<u8>, ciphertext: Seq<u8>) -> Option<Seq<u8>>;

/// Seals with `aes_gcm`'s `Aes256Gcm::encrypt` (no associated data). Trusted: the result is
/// `aes256gcm_seal` of the arguments, the ciphertext followed by a 16-byte tag (so 16 bytes
/// longer than the plaintext), and opening it under the same key and nonce gives the plaintext
/// back (AEAD correctness). `encrypt` fails only above `MAX_PLAINTEXT_LEN` bytes.
#[verifier::external_body]
fn seal(key: &[u8; 32], nonce: &[u8; 12], plaintext: &[u8]) -> (ct: Vec<u8>)
    requires
        plaintext@.len() <= MAX_PLAINTEXT_LEN,
    ensures
        ct@ == aes256gcm_seal(key@, nonce@, plaintext@),
        ct@.len() == plaintext@.len() + TAG_LEN,
        aes256gcm_open(key@, nonce@, ct@) == Some(plaintext@),
{
    let cipher = Aes256Gcm::new(Key::<Aes256Gcm>::from_slice(key));
    cipher.encrypt(Nonce::from_slice(nonce), plaintext).expect("aes-gcm encryption does not fail for valid inputs")
}

/// Opens with `aes_gcm`'s `Aes256Gcm::decrypt` (no associated data). Trusted: the result is
/// `aes256gcm_open` of the arguments.
#[verifier::external_body]
fn open(key: &[u8; 32], nonce: &[u8], ciphertext: &[u8]) -> (pt: Option<Vec<u8>>)
    requires
        nonce@.len() == 12,
    ensures
        match pt {
            Some(v) => aes256gcm_open(key@, nonce@, ciphertext@) == Some(v@),
            None => aes256gcm_open(key@, nonce@, ciphertext@) is None,
        },
{
    let cipher = Aes256Gcm::new(Key::<Aes256Gcm>::from_slice(key));
    cipher.decrypt(Nonce::from_slice(nonce), ciphertext).ok()
}

/// Twelve bytes from the operating system's random source (`OsRng::fill_bytes`). Nothing is
/// stated of them.
#[verifier::external_body]
fn random_nonce() -> (n: [u8; 12]) {
    let mut nonce = [0u8; 12];
    OsRng.fill_bytes(&mut nonce);
    nonce
}

/// `data` holds `plaintext` sealed under `key`: a nonce, then what opens to its UTF-8 bytes,
/// a tag's length longer than they are.
pub open spec fn sealed_text(key: Seq<u8>, plaintext: Seq<char>, data: Seq<u8>) -> bool {
    &&& data.len() == NONCE_LEN + encode_utf8(plaintext).len() + TAG_LEN
    &&& data.skip(12) == aes256gcm_seal(key, data.take(12), encode_utf8(plaintext))
    &&& aes256gcm_open(key, data.take(12), data.skip(12)) == Some(encode_utf8(plaintext))
}

/// The text `data` decrypts to under `key`, if any: at least a nonce, a ciphertext that opens,
/// and a plaintext that is UTF-8.
pub open spec fn decrypted_text(key: Seq<u8>, data: Seq<u8>) -> Option<Seq<char>> {
    if data.len() < 12 {
        None
    } else {
        match aes256gcm_open(key, data.take(12), data.skip(12)) {
            Some(b) => if valid_utf8(b) { Some(decode_utf8(b)) } else { None },
            None => None,
        }
    }
}

/// Encrypts `plaintext` under `key` with a fresh random nonce; the nonce leads the output.
pub fn encrypt(key: &[u8; 32], plaintext: &str) -> (out: Vec<u8>)
    requires
        encode_utf8(plaintext@).len() <= MAX_PLAINTEXT_LEN,
    ensures
        sealed_text(key@, plaintext@, out@),
        out@.len() == NONCE_LEN + encode_utf8(plaintext@).len() + TAG_LEN,
{
    let nonce = random_nonce();
    let bytes = plaintext.as_bytes();
    let ct = seal(key, &nonce, bytes);
    let mut out: Vec<u8> = Vec::new();
    let mut i: usize = 0;
    while i < 12
        invariant
            i <= 12,
            out@ == nonce@.take(i as int),
        decreases 12 - i,
    {
        out.push(nonce[i]);
        assert(nonce@.take(i as int + 1) =~= nonce@.take(i as int).push(nonce@[i as int]));
        i = i + 1;
    }
    assert(nonce@.take(12) =~= nonce@);
    let mut j: usize = 0;
    while j < ct.len()
        invariant
            j <= ct.len(),
            out@ == nonce@ + ct@.take(j as int),
        decreases ct.len() - j,
    {
        out.push(ct[j]);
        assert(ct@.take(j as int + 1) =~= ct@.take(j as int).push(ct@[j as int]));
        j = j + 1;
    }
    assert(ct@.take(ct.len() as int) =~= ct@);
    assert(out@.take(12) =~= nonce@);
    assert(out@.skip(12) =~= ct@);
    out
}

fn copy_range(data: &[u8], from: usize, to: usize) -> (v: Vec<u8>)
    requires
        from <= to <= data@.len(),
    ensures
        v@ == data@.subrange(from as int, to as int),
{
    let mut v: Vec<u8> = Vec::new();
    let mut i = from;
    while i < to
        invariant
            from <= i <= to,
            to <= data@.len(),
            v@ == data@.subrange(from as int, i as int),
        decreases to - i,
    {
        v.push(data[i]);
        assert(data@.subrange(from as int, i + 1) =~= data@.subrange(from as int, i as int).push(data@[i as int]));
        i = i + 1;
    }
    v
}

/// Decrypts what `encrypt` produced (see `decrypted_text`).
pub fn decrypt(key: &[u8; 32], data: &[u8]) -> (r: Result<String, CryptoError>)
    ensures
        match r {
            Ok(s) => decrypted_text(key@, data@) == Some(s@),
            Err(e) => decrypted_text(key@, data@) is None && e == CryptoError::DecryptionFailed,
        },
{
    if data.len() < 12 {
        return Err(CryptoError::DecryptionFailed);
    }
    let nonce = copy_range(data, 0, 12);
    let ct = copy_range(data, 12, data.len());
    assert(nonce@ =~= data@.take(12));
    assert(ct@ =~= data@.skip(12));
    match open(key, nonce.as_slice(), ct.as_slice()) {
        None => Err(CryptoError::DecryptionFailed),
        Some(pt) => match decode_utf8_bytes(pt) {
            Ok(s) => Ok(s),
            Err(_) => Err(CryptoError::DecryptionFailed),
        },
    }
}

/// Decrypting what was encrypted under the same key gives the plaintext back.
pub proof fn lemma_decrypt_undoes_encrypt(key: Seq<u8>, plaintext: Seq<char>, data: Seq<u8>)
    requires
        sealed_text(key, plaintext, data),
    ensures
        decrypted_text(key, data) == Some(plaintext),
{
    vstd::utf8::encode_utf8_valid_utf8(plaintext);
    vstd::utf8::encode_utf8_decode_utf8(plaintext);
}

// ------------------------------------------------------------------------------------------
// Keys

/// The value of one hexadecimal digit (either case), if the byte is one.
pub open spec fn hex_digit(b: u8) -> Option<u8> {
    if 0x30 <= b <= 0x39 {
        Some((b - 0x30) as u8)
    } else if 0x41 <= b <= 0x46 {
        Some((b - 0x41 + 10) as u8)
    } else if 0x61 <= b <= 0x66 {
        Some((b - 0x61 + 10) as u8)
    } else {
        None
    }
}

/// Hex decoding: an even number of hex digits, two per byte, high digit first.
pub open spec fn hex_decoded(s: Seq<u8>) -> Option<Seq<u8>> {
    if s.len() % 2 == 0 && forall|i: int| 0 <= i < s.len() ==> (#[trigger] hex_digit(s[i])) is Some {
        Some(Seq::new((s.len() / 2) as nat, |i: int| (hex_digit(s[2 * i]).unwrap() * 16 + hex_digit(s[2 * i + 1]).unwrap()) as u8))
    } else {
        None
    }
}

/// `hex::decode`. Trusted: it decodes exactly as `hex_decoded` says (it rejects an odd length
/// and any byte that is not a hex digit).
#[verifier::external_body]
fn hex_decode(s: &str) -> (r: Option<Vec<u8>>)
    ensures
        match r {
            Some(v) => hex_decoded(encode_utf8(s@)) == Some(v@),
            None => hex_decoded(encode_utf8(s@)) is None,
        },
{
    hex::decode(s).ok()
}

/// Reads a 32-byte key written as 64 hex digits.
pub fn parse_key(hex_str: &str) -> (r: Option<[u8; 32]>)
    ensures
        match r {
            Some(k) => hex_decoded(encode_utf8(hex_str@)) == Some(k@),
            None => !(hex_decoded(encode_utf8(hex_str@)) matches Some(b) && b.len() == 32),
        },
{
    match hex_decode(hex_str) {
        None => None,
        Some(bytes) => {
            if bytes.len() != 32 {
                return None;
            }
            let mut key = [0u8; 32];
            let mut i: usize = 0;
            while i < 32
                invariant
                    i <= 32,
                    bytes@.len() == 32,
                    forall|j: int| 0 <= j < i ==> key@[j] == bytes@[j],
                decreases 32 - i,
            {
                key[i] = bytes[i];
                i = i + 1;
            }
            assert(key@ =~= bytes@);
            Some(key)
        },
    }
}

} // verus!
