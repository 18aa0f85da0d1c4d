//! The text-protection core: signing, signature verification,
//! authenticated encryption and decryption, and key generation,
//! selectable by scheme tag.

use vstd::prelude::*;
use vstd::slice::slice_subrange;
use vstd::slice::slice_to_vec;

use crate::cli::TextSignFormat;
use crate::errors::Error;
use crate::process::b64::b64url_decode;
use crate::process::b64::b64url_encode;
use crate::process::b64::lemma_b64_round_trip;
use crate::process::b64::spec_b64_decode;
use crate::process::b64::spec_b64_encode;
use crate::process::primitives::blake3_keyed_digest;
use crate::process::primitives::blake3_keyed_hash;
use crate::process::primitives::ed25519_accepts;
use crate::process::primitives::ed25519_check_public;
use crate::process::primitives::ed25519_derive_public;
use crate::process::primitives::ed25519_key_valid;
use crate::process::primitives::ed25519_public_key;
use crate::process::primitives::ed25519_sign;
use crate::process::primitives::ed25519_signature;
use crate::process::primitives::ed25519_verify;
use crate::process::primitives::random_bytes;
use crate::process::primitives::utf8_string;
use crate::process::primitives::xchacha_decrypt;
use crate::process::primitives::xchacha_encrypt;
use crate::process::primitives::xchacha_open;
use crate::process::primitives::xchacha_seal;

verus! {

/// The first 32 bytes of loaded key material: the part every scheme
/// actually uses.
pub open spec fn key32(key: Seq<u8>) -> Seq<u8> {
    key.subrange(0, 32)
}

/// A copy of the first `n` bytes of a slice.
fn take_prefix(data: &[u8], n: usize) -> (r: Vec<u8>)
    requires
        n <= data@.len(),
    ensures
        r@ == data@.subrange(0, n as int),
{
    slice_to_vec(slice_subrange(data, 0, n))
}

/// A copy of everything past the first `n` bytes of a slice.
fn drop_prefix(data: &[u8], n: usize) -> (r: Vec<u8>)
    requires
        n <= data@.len(),
    ensures
        r@ == data@.skip(n as int),
{
    let r = slice_to_vec(slice_subrange(data, n, data.len()));
    assert(r@ =~= data@.skip(n as int));
    r
}

/// Byte comparison that examines every position whatever the data, so
/// that a mismatch position is not leaked through timing.
fn ct_eq(a: &[u8], b: &[u8]) -> (r: bool)
    ensures
        r == (a@ == b@),
{
    if a.len() != b.len() {
        return false;
    }
    let n = a.len();
    let mut diff: u8 = 0;
    let mut i: usize = 0;
    while i < n
        invariant
            i <= n,
            n == a@.len(),
            n == b@.len(),
            (diff == 0) <==> (forall|j: int| 0 <= j < i ==> a@[j] == b@[j]),
        decreases n - i,
    {
        let x = a[i] ^ b[i];
        let ai = a[i];
        let bi = b[i];
        proof {
            assert((ai ^ bi) == 0 <==> ai == bi) by (bit_vector);
        }
        let old_diff = diff;
        diff = diff | x;
        proof {
            assert((old_diff | x) == 0 <==> (old_diff == 0 && x == 0)) by (bit_vector);
        }
        i = i + 1;
    }
    if diff == 0 {
        assert(a@ =~= b@);
        true
    } else {
        assert(a@ != b@);
        false
    }
}

/// A holder of validated, scheme-specific key material.
pub trait KeyMaterial: Sized {
    /// The key material held is well formed for the scheme.
    spec fn wf(&self) -> bool;
}

/// A signer: holds validated key material and produces the scheme's
/// signature bytes over any buffered input.
pub trait TextSigner: KeyMaterial {
    /// The signature this signer produces over `data`.
    spec fn spec_signature(&self, data: Seq<u8>) -> Seq<u8>;

    /// The scheme's fixed signature size in bytes.
    spec fn spec_signature_len(&self) -> int;

    /// Whether the scheme's verifier accepts `sig` over `data` for the
    /// key material held.
    spec fn spec_accepted(&self, data: Seq<u8>, sig: Seq<u8>) -> bool;

    /// Signs the buffered input; what comes back is the scheme's
    /// signature, of the scheme's fixed size, and it verifies.
    fn sign(&self, data: &[u8]) -> (r: Vec<u8>)
        requires
            self.wf(),
        ensures
            r@ == self.spec_signature(data@),
            r@.len() == self.spec_signature_len(),
            self.spec_accepted(data@, r@),
    ;
}

/// A verifier: holds validated key material and decides whether a
/// signature belongs to an input.
pub trait TextVerifier: KeyMaterial {
    /// The verdict over `data` and `sig`: a boolean, or the scheme's
    /// error for a signature it refuses to examine.
    spec fn spec_verdict(&self, data: Seq<u8>, sig: Seq<u8>) -> Result<bool, Error>;

    /// Verifies the signature over the buffered input.
    fn verify(&self, data: &[u8], sig: &[u8]) -> (r: Result<bool, Error>)
        requires
            self.wf(),
        ensures
            r == self.spec_verdict(data@, sig@),
    ;
}

/// The keyed-hash scheme: a 32-byte key, a 32-byte digest as signature.
pub struct Blake3 {
    key: Vec<u8>,
}

impl Blake3 {
    /// The key bytes held.
    pub closed spec fn spec_key(&self) -> Seq<u8> {
        self.key@
    }

    /// Builds the signer/verifier from loaded key material: at least 32
    /// bytes are required, and exactly the first 32 are used.
    pub fn try_new(key: &[u8]) -> (r: Result<Self, Error>)
        ensures
            match r {
                Ok(s) => key@.len() >= 32 && s.wf() && s.spec_key() == key32(key@),
                Err(e) => key@.len() < 32 && e == Error::MalformedKey,
            },
    {
        if key.len() < 32 {
            return Err(Error::MalformedKey);
        }
        Ok(Blake3 { key: take_prefix(key, 32) })
    }

    /// Wraps an exact 32-byte key.
    pub fn new(key: [u8; 32]) -> (r: Self)
        ensures
            r.wf(),
            r.spec_key() == key@,
    {
        Blake3 { key: slice_to_vec(key.as_slice()) }
    }

    /// One fresh 32-byte secret under the scheme's key file name.
    fn generate() -> (r: Vec<KeyEntry>)
        ensures
            r@.len() == 1,
            r@[0].name@ == "blake3.txt"@,
            r@[0].data@.len() == 32,
    {
        let key = random_bytes(32);
        let mut entries: Vec<KeyEntry> = Vec::new();
        entries.push(KeyEntry { name: String::from_str("blake3.txt"), data: key });
        entries
    }
}

impl KeyMaterial for Blake3 {
    open spec fn wf(&self) -> bool {
        self.spec_key().len() == 32
    }
}

impl TextSigner for Blake3 {
    open spec fn spec_signature(&self, data: Seq<u8>) -> Seq<u8> {
        blake3_keyed_digest(self.spec_key(), data)
    }

    open spec fn spec_signature_len(&self) -> int {
        32
    }

    open spec fn spec_accepted(&self, data: Seq<u8>, sig: Seq<u8>) -> bool {
        sig == blake3_keyed_digest(self.spec_key(), data)
    }

    fn sign(&self, data: &[u8]) -> (r: Vec<u8>) {
        blake3_keyed_hash(self.key.as_slice(), data)
    }
}

impl TextVerifier for Blake3 {
    open spec fn spec_verdict(&self, data: Seq<u8>, sig: Seq<u8>) -> Result<bool, Error> {
        Ok(sig == blake3_keyed_digest(self.spec_key(), data))
    }

    fn verify(&self, data: &[u8], sig: &[u8]) -> (r: Result<bool, Error>) {
        let digest = blake3_keyed_hash(self.key.as_slice(), data);
        Ok(ct_eq(digest.as_slice(), sig))
    }
}

/// The asymmetric signer role: a 32-byte private seed.
pub struct Ed25519Signer {
    key: Vec<u8>,
}

impl Ed25519Signer {
    /// The seed bytes held.
    pub closed spec fn spec_key(&self) -> Seq<u8> {
        self.key@
    }

    /// Builds the signer from loaded key material: at least 32 bytes are
    /// required, and exactly the first 32 are used as the seed.
    pub fn try_new(key: &[u8]) -> (r: Result<Self, Error>)
        ensures
            match r {
                Ok(s) => key@.len() >= 32 && s.wf() && s.spec_key() == key32(key@),
                Err(e) => key@.len() < 32 && e == Error::MalformedKey,
            },
    {
        if key.len() < 32 {
            return Err(Error::MalformedKey);
        }
        Ok(Ed25519Signer { key: take_prefix(key, 32) })
    }

    /// Wraps an exact 32-byte seed.
    pub fn new(key: &[u8; 32]) -> (r: Self)
        ensures
            r.wf(),
            r.spec_key() == key@,
    {
        Ed25519Signer { key: slice_to_vec(key.as_slice()) }
    }

    /// A fresh private seed and its public key, under the scheme's pair
    /// of key file names.
    fn generate() -> (r: Vec<KeyEntry>)
        ensures
            r@.len() == 2,
            r@[0].name@ == "ed25519.sk"@,
            r@[0].data@.len() == 32,
            r@[1].name@ == "ed25519.pk"@,
            r@[1].data@.len() == 32,
            r@[1].data@ == ed25519_public_key(r@[0].data@),
            ed25519_key_valid(r@[1].data@),
    {
        let sk = random_bytes(32);
        let pk = ed25519_derive_public(sk.as_slice());
        let mut entries: Vec<KeyEntry> = Vec::new();
        entries.push(KeyEntry { name: String::from_str("ed25519.sk"), data: sk });
        entries.push(KeyEntry { name: String::from_str("ed25519.pk"), data: pk });
        entries
    }
}

impl KeyMaterial for Ed25519Signer {
    open spec fn wf(&self) -> bool {
        self.spec_key().len() == 32
    }
}

impl TextSigner for Ed25519Signer {
    open spec fn spec_signature(&self, data: Seq<u8>) -> Seq<u8> {
        ed25519_signature(self.spec_key(), data)
    }

    open spec fn spec_signature_len(&self) -> int {
        64
    }

    open spec fn spec_accepted(&self, data: Seq<u8>, sig: Seq<u8>) -> bool {
        ed25519_accepts(ed25519_public_key(self.spec_key()), data, sig)
    }

    fn sign(&self, data: &[u8]) -> (r: Vec<u8>) {
        ed25519_sign(self.key.as_slice(), data)
    }
}

/// The asymmetric verifier role: a validated 32-byte public key.
pub struct Ed25519Verifier {
    key: Vec<u8>,
}

impl Ed25519Verifier {
    /// The public-key bytes held.
    pub closed spec fn spec_key(&self) -> Seq<u8> {
        self.key@
    }

    /// Builds the verifier from loaded key material: at least 32 bytes
    /// are required, and the first 32 must decode to a valid public key.
    pub fn try_new(key: &[u8]) -> (r: Result<Self, Error>)
        ensures
            match r {
                Ok(v) => key@.len() >= 32 && ed25519_key_valid(key32(key@)) && v.wf()
                    && v.spec_key() == key32(key@),
                Err(e) => if key@.len() < 32 {
                    e == Error::MalformedKey
                } else {
                    !ed25519_key_valid(key32(key@)) && e == Error::InvalidPublicKey
                },
            },
    {
        if key.len() < 32 {
            return Err(Error::MalformedKey);
        }
        let pk = take_prefix(key, 32);
        if !ed25519_check_public(pk.as_slice()) {
            return Err(Error::InvalidPublicKey);
        }
        Ok(Ed25519Verifier { key: pk })
    }
}

impl KeyMaterial for Ed25519Verifier {
    open spec fn wf(&self) -> bool {
        self.spec_key().len() == 32 && ed25519_key_valid(self.spec_key())
    }
}

impl TextVerifier for Ed25519Verifier {
    open spec fn spec_verdict(&self, data: Seq<u8>, sig: Seq<u8>) -> Result<bool, Error> {
        if sig.len() != 64 {
            Err(Error::InvalidSignatureEncoding)
        } else {
            Ok(ed25519_accepts(self.spec_key(), data, sig))
        }
    }

    fn verify(&self, data: &[u8], sig: &[u8]) -> (r: Result<bool, Error>) {
        if sig.len() != 64 {
            return Err(Error::InvalidSignatureEncoding);
        }
        Ok(ed25519_verify(self.key.as_slice(), data, sig))
    }
}

/// One named piece of generated key material.
pub struct KeyEntry {
    pub name: String,
    pub data: Vec<u8>,
}

/// The fixed signature size of each scheme, in bytes: a 32-byte keyed
/// digest, or a 64-byte asymmetric signature.
pub open spec fn spec_signature_length(format: TextSignFormat) -> int {
    match format {
        TextSignFormat::Blake3 => 32,
        TextSignFormat::Ed25519 => 64,
    }
}

/// What signing returns for every scheme, key and input: the scheme's
/// signature over the first 32 key bytes, or `MalformedKey` for key
/// material shorter than 32 bytes.
pub open spec fn spec_text_sign(format: TextSignFormat, key: Seq<u8>, data: Seq<u8>) -> Result<
    Seq<u8>,
    Error,
> {
    if key.len() < 32 {
        Err(Error::MalformedKey)
    } else {
        match format {
            TextSignFormat::Blake3 => Ok(blake3_keyed_digest(key32(key), data)),
            TextSignFormat::Ed25519 => Ok(ed25519_signature(key32(key), data)),
        }
    }
}

/// What verification returns for every scheme, key, input and signature.
pub open spec fn spec_text_verify(
    format: TextSignFormat,
    key: Seq<u8>,
    data: Seq<u8>,
    sig: Seq<u8>,
) -> Result<bool, Error> {
    if key.len() < 32 {
        Err(Error::MalformedKey)
    } else {
        match format {
            TextSignFormat::Blake3 => Ok(sig == blake3_keyed_digest(key32(key), data)),
            TextSignFormat::Ed25519 => if !ed25519_key_valid(key32(key)) {
                Err(Error::InvalidPublicKey)
            } else if sig.len() != 64 {
                Err(Error::InvalidSignatureEncoding)
            } else {
                Ok(ed25519_accepts(key32(key), data, sig))
            },
        }
    }
}

/// Signs the buffered input with the scheme the tag selects.
pub fn process_text_sign(data: &[u8], key: &[u8], format: TextSignFormat) -> (r: Result<
    Vec<u8>,
    Error,
>)
    ensures
        match r {
            Ok(sig) => spec_text_sign(format, key@, data@) == Ok::<Seq<u8>, Error>(sig@),
            Err(e) => spec_text_sign(format, key@, data@) == Err::<Seq<u8>, Error>(e),
        },
        r is Ok <==> key@.len() >= 32,
        r matches Ok(sig) ==> sig@.len() == spec_signature_length(format),
        r matches Ok(sig) ==> (format == TextSignFormat::Ed25519 ==> ed25519_accepts(
            ed25519_public_key(key32(key@)),
            data@,
            sig@,
        )),
{
    match format {
        TextSignFormat::Blake3 => {
            let signer = Blake3::try_new(key)?;
            Ok(signer.sign(data))
        },
        TextSignFormat::Ed25519 => {
            let signer = Ed25519Signer::try_new(key)?;
            Ok(signer.sign(data))
        },
    }
}

/// Verifies a signature over the buffered input with the scheme the tag
/// selects.
pub fn process_text_verify(data: &[u8], key: &[u8], sig: &[u8], format: TextSignFormat) -> (r:
    Result<bool, Error>)
    ensures
        match r {
            Ok(b) => spec_text_verify(format, key@, data@, sig@) == Ok::<bool, Error>(b),
            Err(e) => spec_text_verify(format, key@, data@, sig@) == Err::<bool, Error>(e),
        },
{
    match format {
        TextSignFormat::Blake3 => {
            let verifier = Blake3::try_new(key)?;
            verifier.verify(data, sig)
        },
        TextSignFormat::Ed25519 => {
            let verifier = Ed25519Verifier::try_new(key)?;
            verifier.verify(data, sig)
        },
    }
}

/// Generates fresh key material for the scheme the tag selects, as a
/// bundle of named byte sequences for the caller to persist.
pub fn process_text_key_generate(format: TextSignFormat) -> (r: Result<Vec<KeyEntry>, Error>)
    ensures
        r is Ok,
        match r {
            Ok(entries) => match format {
                TextSignFormat::Blake3 => entries@.len() == 1 && entries@[0].name@
                    == "blake3.txt"@ && entries@[0].data@.len() == 32,
                TextSignFormat::Ed25519 => entries@.len() == 2 && entries@[0].name@
                    == "ed25519.sk"@ && entries@[0].data@.len() == 32 && entries@[1].name@
                    == "ed25519.pk"@ && entries@[1].data@.len() == 32 && entries@[1].data@
                    == ed25519_public_key(entries@[0].data@) && ed25519_key_valid(
                    entries@[1].data@,
                ),
            },
            Err(_) => false,
        },
{
    match format {
        TextSignFormat::Blake3 => Ok(Blake3::generate()),
        TextSignFormat::Ed25519 => Ok(Ed25519Signer::generate()),
    }
}

/// The byte-level step after framing: a 24-byte nonce is split off the
/// front and the rest is opened under it; anything shorter than a nonce,
/// or a tag that does not match, is an authentication failure.
pub open spec fn spec_open_framed(key: Seq<u8>, framed: Seq<u8>) -> Result<Seq<u8>, Error> {
    if framed.len() >= 24 {
        match xchacha_open(key, framed.subrange(0, 24), framed.skip(24)) {
            Some(p) => Ok(p),
            None => Err(Error::AuthenticationFailure),
        }
    } else {
        Err(Error::AuthenticationFailure)
    }
}

/// The byte-level decryption pipeline under a 32-byte key: strict base64
/// decoding — with the legacy tolerance of taking undecodable input as
/// raw bytes — then nonce extraction and an authenticated open.
pub open spec fn spec_cipher_decrypt_bytes(key: Seq<u8>, text: Seq<char>) -> Result<
    Seq<u8>,
    Error,
> {
    match spec_b64_decode(text) {
        Some(framed) => spec_open_framed(key, framed),
        None => spec_open_framed(key, vstd::utf8::encode_utf8(text)),
    }
}

/// The text-level decryption under a 32-byte key: the byte pipeline,
/// then a UTF-8 check on the recovered plaintext.
pub open spec fn spec_cipher_decrypt(key: Seq<u8>, text: Seq<char>) -> Result<Seq<char>, Error> {
    match spec_cipher_decrypt_bytes(key, text) {
        Ok(b) => if vstd::utf8::valid_utf8(b) {
            Ok(vstd::utf8::decode_utf8(b))
        } else {
            Err(Error::NonUtf8Output)
        },
        Err(e) => Err(e),
    }
}

/// An authenticated cipher: encrypts buffered input into single-line
/// ciphertext text, and decrypts such text back.
pub trait Crypto: KeyMaterial {
    /// The byte-level decryption pipeline under the key held.
    spec fn spec_decrypt_bytes(&self, text: Seq<char>) -> Result<Seq<u8>, Error>;

    /// The text-level decryption under the key held.
    spec fn spec_decrypt(&self, text: Seq<char>) -> Result<Seq<char>, Error>;

    /// The ciphertext text that sealing `data` under `nonce` and the key
    /// held produces: the encoding of the nonce followed by the sealed
    /// bytes.
    spec fn spec_sealed_text(&self, nonce: Seq<u8>, data: Seq<u8>) -> Seq<char>;

    /// Encrypts the buffered input. The produced text encodes a 24-byte
    /// nonce followed by the sealed bytes — the plaintext length plus
    /// the 16-byte tag — and, whatever nonce the cipher drew, decrypting
    /// the text under the same key gives the input back.
    fn encrypt(&self, data: &[u8]) -> (r: Result<String, Error>)
        requires
            self.wf(),
            data@.len() + 64 < 0x4000000000,
        ensures
            r is Ok,
            r matches Ok(t) ==> self.spec_decrypt_bytes(t@) == Ok::<Seq<u8>, Error>(data@),
            r matches Ok(t) ==> (exists|nonce: Seq<u8>|
                {
                    &&& nonce.len() == 24
                    &&& #[trigger] self.spec_sealed_text(nonce, data@) == t@
                }),
    ;

    /// Decrypts ciphertext text.
    fn decrypt(&self, data: &str) -> (r: Result<String, Error>)
        requires
            self.wf(),
        ensures
            r matches Ok(s) ==> self.spec_decrypt(data@) == Ok::<Seq<char>, Error>(s@),
            r matches Err(e) ==> self.spec_decrypt(data@) == Err::<Seq<char>, Error>(e),
    ;
}

/// The extended-nonce AEAD cipher, keyed by the first 32 bytes of a
/// loaded secret. Every encryption draws a fresh 24-byte nonce and
/// carries it in front of the ciphertext, inside the encoding, so that a
/// later, independent invocation can decrypt with only the key file and
/// the produced text.
pub struct ChaCha20Poly1305Key {
    key: Vec<u8>,
}

impl ChaCha20Poly1305Key {
    /// The cipher key bytes held.
    pub closed spec fn spec_key(&self) -> Seq<u8> {
        self.key@
    }

    /// Wraps an exact 32-byte cipher key.
    fn new(key: Vec<u8>) -> (r: Self)
        requires
            key@.len() == 32,
        ensures
            r.wf(),
            r.spec_key() == key@,
    {
        ChaCha20Poly1305Key { key }
    }

    /// Derives the cipher key from loaded secret material: at least 32
    /// bytes are required, and exactly the first 32 are used.
    pub fn try_new(data: &[u8]) -> (r: Result<Self, Error>)
        ensures
            match r {
                Ok(c) => data@.len() >= 32 && c.wf() && c.spec_key() == key32(data@),
                Err(e) => data@.len() < 32 && e == Error::MalformedKey,
            },
    {
        if data.len() < 32 {
            return Err(Error::MalformedKey);
        }
        Ok(ChaCha20Poly1305Key::new(take_prefix(data, 32)))
    }
}

impl KeyMaterial for ChaCha20Poly1305Key {
    open spec fn wf(&self) -> bool {
        self.spec_key().len() == 32
    }
}

/// Law: framing then encoding is inverted by the decryption pipeline.
/// For any nonce-and-ciphertext frame, decoding the produced text splits
/// off exactly that nonce and opens exactly that ciphertext.
pub proof fn lemma_ciphertext_framing(key: Seq<u8>, nonce: Seq<u8>, ct: Seq<u8>)
    requires
        nonce.len() == 24,
    ensures
        spec_cipher_decrypt_bytes(key, spec_b64_encode(nonce + ct)) == (
        match xchacha_open(key, nonce, ct) {
            Some(p) => Ok::<Seq<u8>, Error>(p),
            None => Err::<Seq<u8>, Error>(Error::AuthenticationFailure),
        }),
{
    let framed = nonce + ct;
    lemma_b64_round_trip(framed);
    assert(framed.subrange(0, 24) =~= nonce);
    assert(framed.skip(24) =~= ct);
}

impl Crypto for ChaCha20Poly1305Key {
    open spec fn spec_decrypt_bytes(&self, text: Seq<char>) -> Result<Seq<u8>, Error> {
        spec_cipher_decrypt_bytes(self.spec_key(), text)
    }

    open spec fn spec_decrypt(&self, text: Seq<char>) -> Result<Seq<char>, Error> {
        spec_cipher_decrypt(self.spec_key(), text)
    }

    open spec fn spec_sealed_text(&self, nonce: Seq<u8>, data: Seq<u8>) -> Seq<char> {
        spec_b64_encode(nonce + xchacha_seal(self.spec_key(), nonce, data))
    }

    fn encrypt(&self, data: &[u8]) -> (r: Result<String, Error>) {
        let nonce = random_bytes(24);
        let ct = xchacha_encrypt(self.key.as_slice(), nonce.as_slice(), data);
        let ghost nonce_view = nonce@;
        let ghost ct_view = ct@;
        let mut framed = nonce;
        let mut ct_buf = ct;
        framed.append(&mut ct_buf);
        let text = b64url_encode(framed.as_slice());
        proof {
            assert(framed@ =~= nonce_view + ct_view);
            lemma_ciphertext_framing(self.spec_key(), nonce_view, ct_view);
            assert(self.spec_sealed_text(nonce_view, data@) == text@);
        }
        Ok(text)
    }

    fn decrypt(&self, data: &str) -> (r: Result<String, Error>) {
        let framed: Vec<u8> = match b64url_decode(data) {
            Some(v) => v,
            None => data.as_bytes_vec(),
        };
        if framed.len() < 24 {
            return Err(Error::AuthenticationFailure);
        }
        let nonce = take_prefix(framed.as_slice(), 24);
        let ct = drop_prefix(framed.as_slice(), 24);
        match xchacha_decrypt(self.key.as_slice(), nonce.as_slice(), ct.as_slice()) {
            Some(pt) => match utf8_string(pt) {
                Some(s) => Ok(s),
                None => Err(Error::NonUtf8Output),
            },
            None => Err(Error::AuthenticationFailure),
        }
    }
}

/// Encrypts buffered input under a loaded secret, producing single-line
/// ciphertext text: the URL-safe unpadded base64 of a fresh 24-byte
/// nonce followed by the sealed bytes. Decrypting that text under the
/// same key — in this or any later invocation — yields the input back.
pub fn process_text_encrypt(data: &[u8], key: &[u8]) -> (r: Result<String, Error>)
    requires
        data@.len() + 64 < 0x4000000000,
    ensures
        r is Ok <==> key@.len() >= 32,
        r matches Err(e) ==> e == Error::MalformedKey,
        r matches Ok(t) ==> spec_cipher_decrypt_bytes(key32(key@), t@) == Ok::<Seq<u8>, Error>(
            data@,
        ),
        r matches Ok(t) ==> (exists|nonce: Seq<u8>|
            {
                &&& nonce.len() == 24
                &&& #[trigger] spec_b64_encode(nonce + xchacha_seal(key32(key@), nonce, data@))
                    == t@
            }),
{
    let cipher = ChaCha20Poly1305Key::try_new(key)?;
    let r = cipher.encrypt(data);
    proof {
        if r is Ok {
            let n = choose|nonce: Seq<u8>|
                nonce.len() == 24 && #[trigger] cipher.spec_sealed_text(nonce, data@)
                    == r->Ok_0@;
            assert(spec_b64_encode(n + xchacha_seal(key32(key@), n, data@)) == r->Ok_0@);
        }
    }
    r
}

/// Decrypts ciphertext text under a loaded secret.
pub fn process_text_decrypt(data: &str, key: &[u8]) -> (r: Result<String, Error>)
    ensures
        key@.len() < 32 ==> r == Err::<String, Error>(Error::MalformedKey),
        key@.len() >= 32 ==> (match r {
            Ok(s) => spec_cipher_decrypt(key32(key@), data@) == Ok::<Seq<char>, Error>(s@),
            Err(e) => spec_cipher_decrypt(key32(key@), data@) == Err::<Seq<char>, Error>(e),
        }),
{
    let cipher = ChaCha20Poly1305Key::try_new(key)?;
    cipher.decrypt(data)
}

/// Law: a keyed-hash signature over any input verifies under the key
/// material that produced it.
pub proof fn lemma_keyed_hash_round_trip(key: Seq<u8>, data: Seq<u8>)
    requires
        key.len() >= 32,
    ensures
        spec_text_sign(TextSignFormat::Blake3, key, data) matches Ok(sig) && spec_text_verify(
            TextSignFormat::Blake3,
            key,
            data,
            sig,
        ) == Ok::<bool, Error>(true),
{
}

/// Law: under the keyed-hash scheme, any signature that differs from the
/// keyed digest — a valid signature with any bit flipped — is rejected.
pub proof fn lemma_keyed_hash_tamper(key: Seq<u8>, data: Seq<u8>, sig: Seq<u8>)
    requires
        key.len() >= 32,
        sig != blake3_keyed_digest(key32(key), data),
    ensures
        spec_text_verify(TextSignFormat::Blake3, key, data, sig) == Ok::<bool, Error>(false),
{
}

} // verus!
