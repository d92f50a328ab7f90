//! Crypto core: the session key, per-file nonce bases, the deterministic
//! per-chunk nonce construction, and AES-256-GCM chunk sealing.
//!
//! Each chunk is sealed with `nonce = base || BE32(counter)`, so the peer can
//! derive the nonce from the chunk position alone and chunks can be processed
//! out of order.

use crate::encoding::{base64_encode, base64_of};
use crate::errors::AppError;
use aes_gcm::aead::Aead;
use aes_gcm::KeyInit;
use vstd::prelude::*;

verus! {

/// Bytes a GCM plaintext may not exceed (the crate rejects longer inputs).
pub const AEAD_PLAINTEXT_MAX: u64 = 0x1000000000;

/// Length of the GCM authentication tag appended to every ciphertext.
pub const AEAD_TAG_LEN: usize = 16;

/// Relies on rand's `OsRng` (`RngCore::fill_bytes`): operating-system
/// randomness; only the length of the result is promised.
#[verifier::external_body]
pub(crate) fn random_bytes(n: usize) -> (r: Vec<u8>)
    ensures
        r@.len() == n,
{
    let mut buf = vec![0u8; n];
    rand::RngCore::fill_bytes(&mut rand::rngs::OsRng, buf.as_mut_slice());
    buf
}

/// The big-endian byte rendering of a 32-bit counter.
pub open spec fn spec_be32(n: u32) -> Seq<u8> {
    seq![
        ((n >> 24) & 0xff) as u8,
        ((n >> 16) & 0xff) as u8,
        ((n >> 8) & 0xff) as u8,
        (n & 0xff) as u8,
    ]
}

/// The 12-byte AEAD nonce for one chunk: the file's 8-byte base followed by
/// the chunk counter in big-endian.
pub open spec fn spec_nonce_bytes(base: Seq<u8>, counter: u32) -> Seq<u8> {
    base + spec_be32(counter)
}

/// Distinct counters render to distinct big-endian bytes.
pub proof fn lemma_be32_injective(a: u32, b: u32)
    requires
        spec_be32(a) == spec_be32(b),
    ensures
        a == b,
{
    assert(spec_be32(a)[0] == spec_be32(b)[0]);
    assert(spec_be32(a)[1] == spec_be32(b)[1]);
    assert(spec_be32(a)[2] == spec_be32(b)[2]);
    assert(spec_be32(a)[3] == spec_be32(b)[3]);
    assert((((a >> 24) & 0xff) as u8 == ((b >> 24) & 0xff) as u8 && ((a >> 16) & 0xff) as u8 == ((b
        >> 16) & 0xff) as u8 && ((a >> 8) & 0xff) as u8 == ((b >> 8) & 0xff) as u8 && (a
        & 0xff) as u8 == (b & 0xff) as u8) ==> a == b) by (bit_vector);
}

/// Within one session, each `(nonce base, counter)` pair maps to exactly one
/// 12-byte nonce: equal nonces come from the same base and the same counter.
pub proof fn lemma_nonce_injective(base1: Seq<u8>, c1: u32, base2: Seq<u8>, c2: u32)
    requires
        base1.len() == 8,
        base2.len() == 8,
        spec_nonce_bytes(base1, c1) == spec_nonce_bytes(base2, c2),
    ensures
        base1 == base2,
        c1 == c2,
{
    let n1 = spec_nonce_bytes(base1, c1);
    let n2 = spec_nonce_bytes(base2, c2);
    assert forall|i: int| 0 <= i < 8 implies base1[i] == base2[i] by {
        assert(n1[i] == base1[i]);
        assert(n2[i] == base2[i]);
    }
    assert(base1 =~= base2);
    assert forall|i: int| 0 <= i < 4 implies spec_be32(c1)[i] == spec_be32(c2)[i] by {
        assert(n1[8 + i] == spec_be32(c1)[i]);
        assert(n2[8 + i] == spec_be32(c2)[i]);
    }
    assert(spec_be32(c1) =~= spec_be32(c2));
    lemma_be32_injective(c1, c2);
}

/// Writes a 32-bit counter as four big-endian bytes.
pub fn be32_bytes(n: u32) -> (r: Vec<u8>)
    ensures
        r@ == spec_be32(n),
{
    let mut out: Vec<u8> = Vec::new();
    let b0 = (n >> 24) & 0xff;
    let b1 = (n >> 16) & 0xff;
    let b2 = (n >> 8) & 0xff;
    let b3 = n & 0xff;
    assert(b0 < 256 && b1 < 256 && b2 < 256 && b3 < 256) by (bit_vector)
        requires
            b0 == (n >> 24) & 0xff,
            b1 == (n >> 16) & 0xff,
            b2 == (n >> 8) & 0xff,
            b3 == n & 0xff,
    ;
    out.push(b0 as u8);
    out.push(b1 as u8);
    out.push(b2 as u8);
    out.push(b3 as u8);
    proof {
        assert(out@ =~= spec_be32(n));
    }
    out
}

/// The 32-byte symmetric content key of one session.
#[derive(Debug)]
pub struct EncryptionKey {
    bytes: Vec<u8>,
}

impl EncryptionKey {
    pub open spec fn wf(&self) -> bool {
        self.spec_bytes().len() == 32
    }

    pub closed spec fn spec_bytes(&self) -> Seq<u8> {
        self.bytes@
    }

    /// A fresh random key.
    pub fn new() -> (k: Self)
        ensures
            k.wf(),
    {
        EncryptionKey { bytes: random_bytes(32) }
    }

    /// Adopts a 32-byte key carried out of band; anything of another length
    /// is rejected.
    pub fn from_bytes(bytes: Vec<u8>) -> (r: Result<Self, AppError>)
        ensures
            (r is Ok) == (bytes@.len() == 32),
            r matches Ok(k) ==> k.spec_bytes() == bytes@ && k.wf(),
            r matches Err(e) ==> e is BadRequest,
    {
        if bytes.len() == 32 {
            Ok(EncryptionKey { bytes })
        } else {
            Err(AppError::BadRequest("session key must be 32 bytes".to_string()))
        }
    }

    pub fn bytes(&self) -> (b: &Vec<u8>)
        ensures
            b@ == self.spec_bytes(),
    {
        &self.bytes
    }
}

/// The 8-byte per-file nonce base; combined with a big-endian 32-bit counter
/// it forms the 12-byte AEAD nonce of one chunk.
#[derive(Debug)]
pub struct Nonce {
    bytes: Vec<u8>,
}

impl Nonce {
    pub open spec fn wf(&self) -> bool {
        self.spec_bytes().len() == 8
    }

    pub closed spec fn spec_bytes(&self) -> Seq<u8> {
        self.bytes@
    }

    /// A fresh random nonce base.
    pub fn new() -> (n: Self)
        ensures
            n.wf(),
    {
        Nonce { bytes: random_bytes(8) }
    }

    /// Adopts an 8-byte base received in a manifest; anything of another
    /// length is rejected.
    pub fn from_bytes(bytes: Vec<u8>) -> (r: Result<Self, AppError>)
        ensures
            (r is Ok) == (bytes@.len() == 8),
            r matches Ok(n) ==> n.spec_bytes() == bytes@ && n.wf(),
            r matches Err(e) ==> e is BadRequest,
    {
        if bytes.len() == 8 {
            Ok(Nonce { bytes })
        } else {
            Err(AppError::BadRequest("nonce base must be 8 bytes".to_string()))
        }
    }

    pub fn bytes(&self) -> (b: &Vec<u8>)
        ensures
            b@ == self.spec_bytes(),
    {
        &self.bytes
    }

    /// The full 12-byte nonce for the chunk with the given counter.
    pub fn with_counter(&self, counter: u32) -> (r: Vec<u8>)
        requires
            self.wf(),
        ensures
            r@ == spec_nonce_bytes(self.spec_bytes(), counter),
            r@.len() == 12,
    {
        let mut out: Vec<u8> = Vec::new();
        out.extend_from_slice(self.bytes.as_slice());
        let mut counter_bytes = be32_bytes(counter);
        out.append(&mut counter_bytes);
        proof {
            assert(out@ =~= spec_nonce_bytes(self.spec_bytes(), counter));
        }
        out
    }
}

/// The AES-256-GCM ciphertext (with appended tag) of a plaintext under a key
/// and a 12-byte nonce.
pub uninterp spec fn seal_of(key: Seq<u8>, nonce: Seq<u8>, plaintext: Seq<u8>) -> Seq<u8>;

/// The AES-256-GCM decryption of a ciphertext under a key and a 12-byte
/// nonce: the plaintext when the tag verifies, `None` otherwise.
pub uninterp spec fn open_of(key: Seq<u8>, nonce: Seq<u8>, ciphertext: Seq<u8>) -> Option<Seq<u8>>;

/// Relies on aes_gcm's `Aead::encrypt` for `Aes256Gcm`: a pure function of
/// key, nonce and plaintext that appends the 16-byte tag; it only fails on
/// plaintexts longer than the crate's `P_MAX`, which the caller rules out;
/// and what it seals, `Aead::decrypt` opens back to the plaintext.
#[verifier::external_body]
fn aead_seal(key: &[u8], nonce: &[u8], plaintext: &[u8]) -> (r: Vec<u8>)
    requires
        key@.len() == 32,
        nonce@.len() == 12,
        plaintext@.len() <= AEAD_PLAINTEXT_MAX,
    ensures
        r@ == seal_of(key@, nonce@, plaintext@),
        r@.len() == plaintext@.len() + AEAD_TAG_LEN,
        open_of(key@, nonce@, r@) == Some(plaintext@),
{
    let cipher = aes_gcm::Aes256Gcm::new_from_slice(key).expect("key length checked");
    cipher.encrypt(aes_gcm::Nonce::from_slice(nonce), plaintext).expect(
        "plaintext length checked",
    )
}

/// Relies on aes_gcm's `Aead::decrypt` for `Aes256Gcm`: a pure function of
/// key, nonce and ciphertext that strips the 16-byte tag on success and
/// fails exactly when the tag does not verify.
#[verifier::external_body]
fn aead_open(key: &[u8], nonce: &[u8], ciphertext: &[u8]) -> (r: Option<Vec<u8>>)
    requires
        key@.len() == 32,
        nonce@.len() == 12,
    ensures
        (r is Some) == (open_of(key@, nonce@, ciphertext@) is Some),
        r matches Some(p) ==> open_of(key@, nonce@, ciphertext@) == Some(p@) && ciphertext@.len()
            == p@.len() + AEAD_TAG_LEN,
{
    let cipher = aes_gcm::Aes256Gcm::new_from_slice(key).expect("key length checked");
    cipher.decrypt(aes_gcm::Nonce::from_slice(nonce), ciphertext).ok()
}

/// Seals one chunk: the nonce is `nonce_base || BE32(counter)`, so the same
/// position always yields the same ciphertext, and the ciphertext opens back
/// to the plaintext under the same derivation.
pub fn encrypt_chunk_at_position(
    key: &EncryptionKey,
    nonce_base: &Nonce,
    plaintext: &[u8],
    counter: u32,
) -> (r: Result<Vec<u8>, AppError>)
    requires
        key.wf(),
        nonce_base.wf(),
    ensures
        (r is Ok) == (plaintext@.len() <= AEAD_PLAINTEXT_MAX),
        r matches Ok(c) ==> {
            &&& c@ == seal_of(
                key.spec_bytes(),
                spec_nonce_bytes(nonce_base.spec_bytes(), counter),
                plaintext@,
            )
            &&& c@.len() == plaintext@.len() + AEAD_TAG_LEN
            &&& open_of(
                key.spec_bytes(),
                spec_nonce_bytes(nonce_base.spec_bytes(), counter),
                c@,
            ) == Some(plaintext@)
        },
        r matches Err(e) ==> e is Internal,
{
    if plaintext.len() as u64 > AEAD_PLAINTEXT_MAX {
        return Err(AppError::Internal("plaintext exceeds the AES-GCM length limit".to_string()));
    }
    let nonce = nonce_base.with_counter(counter);
    Ok(aead_seal(key.bytes().as_slice(), nonce.as_slice(), plaintext))
}

/// Opens one chunk sealed at the given position; a failed tag check is a
/// bad request, and nothing is returned for such a ciphertext.
pub fn decrypt_chunk_at_position(
    key: &EncryptionKey,
    nonce_base: &Nonce,
    ciphertext: &[u8],
    counter: u32,
) -> (r: Result<Vec<u8>, AppError>)
    requires
        key.wf(),
        nonce_base.wf(),
    ensures
        (r is Ok) == (open_of(
            key.spec_bytes(),
            spec_nonce_bytes(nonce_base.spec_bytes(), counter),
            ciphertext@,
        ) is Some),
        r matches Ok(p) ==> open_of(
            key.spec_bytes(),
            spec_nonce_bytes(nonce_base.spec_bytes(), counter),
            ciphertext@,
        ) == Some(p@),
        r matches Err(e) ==> e is BadRequest,
{
    let nonce = nonce_base.with_counter(counter);
    match aead_open(key.bytes().as_slice(), nonce.as_slice(), ciphertext) {
        Some(p) => Ok(p),
        None => Err(AppError::BadRequest("chunk failed authentication".to_string())),
    }
}

/// Sealing is deterministic: two chunks sealed with the same key, nonce base,
/// counter and plaintext are byte-identical.
pub proof fn lemma_ciphertext_deterministic(
    key1: Seq<u8>,
    base1: Seq<u8>,
    counter1: u32,
    plaintext1: Seq<u8>,
    key2: Seq<u8>,
    base2: Seq<u8>,
    counter2: u32,
    plaintext2: Seq<u8>,
)
    requires
        key1 == key2,
        base1 == base2,
        counter1 == counter2,
        plaintext1 == plaintext2,
    ensures
        seal_of(key1, spec_nonce_bytes(base1, counter1), plaintext1) == seal_of(
            key2,
            spec_nonce_bytes(base2, counter2),
            plaintext2,
        ),
{
}

/// Key material for the streamed (non-chunked) download path: a 32-byte key
/// and the 7-byte nonce prefix its stream cipher is built from.
pub struct Encryptor {
    key: Vec<u8>,
    nonce: Vec<u8>,
}

impl Encryptor {
    pub open spec fn wf(&self) -> bool {
        self.spec_key().len() == 32 && self.spec_nonce().len() == 7
    }

    pub closed spec fn spec_key(&self) -> Seq<u8> {
        self.key@
    }

    pub closed spec fn spec_nonce(&self) -> Seq<u8> {
        self.nonce@
    }

    /// Fresh random key material.
    pub fn new() -> (e: Self)
        ensures
            e.wf(),
    {
        Encryptor { key: random_bytes(32), nonce: random_bytes(7) }
    }

    /// The key, base64-encoded for the URL fragment handed to the client.
    pub fn get_key_base64(&self) -> (r: String)
        requires
            self.wf(),
        ensures
            r@ == base64_of(self.spec_key()),
            r@.len() == 44,
    {
        base64_encode(self.key.as_slice())
    }

    /// The nonce prefix, base64-encoded for the URL fragment.
    pub fn get_nonce_base64(&self) -> (r: String)
        requires
            self.wf(),
        ensures
            r@ == base64_of(self.spec_nonce()),
            r@.len() == 12,
    {
        base64_encode(self.nonce.as_slice())
    }

    pub fn key_bytes(&self) -> (b: &Vec<u8>)
        ensures
            b@ == self.spec_key(),
    {
        &self.key
    }

    pub fn nonce_bytes(&self) -> (b: &Vec<u8>)
        ensures
            b@ == self.spec_nonce(),
    {
        &self.nonce
    }
}

/// Frames one encrypted block for the streamed download: a big-endian 32-bit
/// length prefix followed by the block itself.
pub fn frame_chunk(encrypted: &[u8]) -> (r: Vec<u8>)
    requires
        encrypted@.len() <= u32::MAX,
    ensures
        r@ == spec_be32(encrypted@.len() as u32) + encrypted@,
{
    let len = encrypted.len() as u32;
    let mut out = be32_bytes(len);
    out.extend_from_slice(encrypted);
    proof {
        assert(out@ =~= spec_be32(encrypted@.len() as u32) + encrypted@);
    }
    out
}

} // verus!
