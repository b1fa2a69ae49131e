//! The crypto-provider abstraction: one of two signature schemes is active
//! per run, and everything downstream works through fixed-length `Hash`,
//! `Address` and `Signature` values tagged with the algorithm that produced
//! them, so that a client built for one algorithm talking to a node built for
//! another is detected at the byte boundary instead of deep in RPC handling.
//!
//! The arithmetic of the two schemes lives in outside crates (`libsm` and
//! `efficient-sm2` for the SM scheme, `sha3` and `k256` for the Ethereum-style
//! scheme). Each outside call sits behind one trusted wrapper whose contract
//! names its result; everything assembled from those results is verified.

use vstd::prelude::*;
use sha3::Digest;
use crate::errors::CliError;
use crate::bytesutil::{bytes_eq, sub_bytes, concat_bytes};

verus! {

/// Content hashes are 32 bytes under both schemes.
pub const HASH_BYTES: usize = 32;

/// Addresses are the trailing 20 bytes of the public key's hash.
pub const ADDR_BYTES: usize = 20;

/// Secret keys are 32 bytes under both schemes.
pub const SECRET_KEY_BYTES: usize = 32;

/// The signature scheme the process was configured with. Exactly one is
/// active per run; values carry their algorithm so that cross-algorithm use
/// is a detected error.
#[derive(Clone, Copy, Debug, PartialEq, Eq, Structural)]
pub enum Algorithm {
    /// SM3 hashing with SM2 signatures.
    Sm,
    /// Keccak-256 hashing with recoverable secp256k1 signatures.
    Eth,
}

/// Signature length of each scheme: `r || s || public key` for SM2,
/// `r || s || recovery id` for secp256k1.
pub open spec fn spec_signature_len(alg: Algorithm) -> nat {
    match alg {
        Algorithm::Sm => 128,
        Algorithm::Eth => 65,
    }
}

/// Exec mirror of [`spec_signature_len`].
pub fn signature_len(alg: Algorithm) -> (r: usize)
    ensures
        r == spec_signature_len(alg),
{
    match alg {
        Algorithm::Sm => 128,
        Algorithm::Eth => 65,
    }
}

/// The SM3 digest of a byte string; a function of the input alone.
pub uninterp spec fn sm3_of(data: Seq<u8>) -> Seq<u8>;

/// The Keccak-256 digest of a byte string; a function of the input alone.
pub uninterp spec fn keccak256_of(data: Seq<u8>) -> Seq<u8>;

/// Whether a 32-byte secret key is accepted by the SM2 backend; a function
/// of the key alone.
pub uninterp spec fn sm2_keypair_ok(sk: Seq<u8>) -> bool;

/// The 64-byte (x || y) SM2 public key derived from a secret key.
pub uninterp spec fn sm2_pubkey_of(sk: Seq<u8>) -> Seq<u8>;

/// Whether the SM2 backend accepts `sig` as a signature by `pk` over `msg`;
/// verification is deterministic.
pub uninterp spec fn sm2_verifies(pk: Seq<u8>, msg: Seq<u8>, sig: Seq<u8>) -> bool;

/// Whether a 32-byte secret key is a valid secp256k1 scalar; a function of
/// the key alone.
pub uninterp spec fn secp_sk_ok(sk: Seq<u8>) -> bool;

/// The 65-byte uncompressed SEC1 secp256k1 public key derived from a secret
/// key.
pub uninterp spec fn secp_pubkey_of(sk: Seq<u8>) -> Seq<u8>;

/// The public key recovered from a 32-byte prehash and a 65-byte recoverable
/// signature, if any; recovery is deterministic.
pub uninterp spec fn secp_recover(msg: Seq<u8>, sig: Seq<u8>) -> Option<Seq<u8>>;

/// Relies on libsm's `Sm3Hash::get_hash`: the 32-byte SM3 digest, a function
/// of the input alone.
#[verifier::external_body]
fn sm3(data: &[u8]) -> (r: Vec<u8>)
    ensures
        r@ == sm3_of(data@),
        r@.len() == 32,
{
    libsm::sm3::hash::Sm3Hash::new(data).get_hash().to_vec()
}

/// Relies on `sha3::Keccak256::digest`: the 32-byte Keccak-256 digest, a
/// function of the input alone.
#[verifier::external_body]
fn keccak256(data: &[u8]) -> (r: Vec<u8>)
    ensures
        r@ == keccak256_of(data@),
        r@.len() == 32,
{
    sha3::Keccak256::digest(data).to_vec()
}

/// Relies on `efficient_sm2::KeyPair::{new, public_key}`: key acceptance and
/// the derived public key are functions of the secret key; `bytes_less_safe`
/// is the 65-byte SEC1 form whose tail is the raw 64-byte key.
#[verifier::external_body]
fn sm2_pubkey(sk: &[u8]) -> (r: Option<Vec<u8>>)
    requires
        sk@.len() == 32,
    ensures
        r is Some <==> sm2_keypair_ok(sk@),
        r is Some ==> r.unwrap()@ == sm2_pubkey_of(sk@) && r.unwrap()@.len() == 64,
{
    match efficient_sm2::KeyPair::new(sk) {
        Ok(kp) => Some(kp.public_key().bytes_less_safe()[1..].to_vec()),
        Err(_) => None,
    }
}

/// Relies on `efficient_sm2::KeyPair::sign`: a fresh signature over `msg`
/// that `Signature::verify` accepts under the pair's public key. Signing is
/// randomized, so only the verifiability and shape of the result are stated.
#[verifier::external_body]
fn sm2_sign(sk: &[u8], msg: &[u8]) -> (r: Option<Vec<u8>>)
    requires
        sk@.len() == 32,
    ensures
        r is Some ==> r.unwrap()@.len() == 64 && sm2_verifies(
            sm2_pubkey_of(sk@),
            msg@,
            r.unwrap()@,
        ),
{
    let kp = match efficient_sm2::KeyPair::new(sk) {
        Ok(kp) => kp,
        Err(_) => return None,
    };
    let sig = match kp.sign(msg) {
        Ok(sig) => sig,
        Err(_) => return None,
    };
    let mut out = sig.r().to_vec();
    out.extend_from_slice(&sig.s());
    Some(out)
}

/// Relies on `efficient_sm2::Signature::{new, verify}` and
/// `PublicKey::from_slice`: acceptance of `(r, s)` under a 64-byte public key
/// is a function of key, message and signature alone.
#[verifier::external_body]
fn sm2_verify(pk: &[u8], msg: &[u8], sig: &[u8]) -> (r: bool)
    requires
        pk@.len() == 64,
        sig@.len() == 64,
    ensures
        r == sm2_verifies(pk@, msg@, sig@),
{
    let s = match efficient_sm2::Signature::new(&sig[..32], &sig[32..]) {
        Ok(s) => s,
        Err(_) => return false,
    };
    let p = efficient_sm2::PublicKey::from_slice(pk);
    s.verify(&p, msg).is_ok()
}

/// Relies on `k256::ecdsa::SigningKey::{from_slice, verifying_key}` and
/// `EncodedPoint`: scalar acceptance and the derived public key are functions
/// of the secret key; the uncompressed SEC1 encoding is 65 bytes.
#[verifier::external_body]
fn secp_pubkey(sk: &[u8]) -> (r: Option<Vec<u8>>)
    requires
        sk@.len() == 32,
    ensures
        r is Some <==> secp_sk_ok(sk@),
        r is Some ==> r.unwrap()@ == secp_pubkey_of(sk@) && r.unwrap()@.len() == 65,
{
    match k256::ecdsa::SigningKey::from_slice(sk) {
        Ok(k) => Some(k.verifying_key().to_encoded_point(false).as_bytes().to_vec()),
        Err(_) => None,
    }
}

/// Relies on `k256::ecdsa::SigningKey::sign_prehash_recoverable`: an RFC 6979
/// signature over the 32-byte prehash from which `recover_from_prehash`
/// returns exactly the signer's public key.
#[verifier::external_body]
fn secp_sign(sk: &[u8], msg: &[u8]) -> (r: Option<Vec<u8>>)
    requires
        sk@.len() == 32,
        msg@.len() == 32,
    ensures
        r is Some ==> r.unwrap()@.len() == 65 && secp_recover(msg@, r.unwrap()@) == Some(
            secp_pubkey_of(sk@),
        ),
{
    let k = match k256::ecdsa::SigningKey::from_slice(sk) {
        Ok(k) => k,
        Err(_) => return None,
    };
    let (sig, rid) = match k.sign_prehash_recoverable(msg) {
        Ok(p) => p,
        Err(_) => return None,
    };
    let mut out = sig.to_bytes().to_vec();
    out.push(rid.to_byte());
    Some(out)
}

/// Relies on `k256::ecdsa::VerifyingKey::recover_from_prehash` (with
/// `RecoveryId::from_byte` and `Signature::from_slice`): recovery is a
/// function of prehash and signature, returns a key the signature verifies
/// under, and yields the 65-byte uncompressed SEC1 encoding.
#[verifier::external_body]
fn secp_recover_exec(msg: &[u8], sig: &[u8]) -> (r: Option<Vec<u8>>)
    requires
        msg@.len() == 32,
        sig@.len() == 65,
    ensures
        match r {
            Some(pk) => secp_recover(msg@, sig@) == Some(pk@) && pk@.len() == 65,
            None => secp_recover(msg@, sig@) is None,
        },
{
    let rid = match k256::ecdsa::RecoveryId::from_byte(sig[64]) {
        Some(r) => r,
        None => return None,
    };
    let s = match k256::ecdsa::Signature::from_slice(&sig[..64]) {
        Ok(s) => s,
        Err(_) => return None,
    };
    match k256::ecdsa::VerifyingKey::recover_from_prehash(msg, &s, rid) {
        Ok(vk) => Some(vk.to_encoded_point(false).as_bytes().to_vec()),
        Err(_) => None,
    }
}

/// Relies on `rand::random`: 32 fresh bytes; nothing but the length is
/// stated, since the result depends on the process's entropy source.
#[verifier::external_body]
fn random_seed() -> (r: Vec<u8>)
    ensures
        r@.len() == 32,
{
    rand::random::<[u8; 32]>().to_vec()
}

/// The digest the active algorithm assigns to a byte string.
pub open spec fn spec_hash(alg: Algorithm, data: Seq<u8>) -> Seq<u8> {
    match alg {
        Algorithm::Sm => sm3_of(data),
        Algorithm::Eth => keccak256_of(data),
    }
}

/// Hash a byte string under the active algorithm.
pub fn hash_data(alg: Algorithm, data: &[u8]) -> (r: Vec<u8>)
    ensures
        r@ == spec_hash(alg, data@),
        r@.len() == 32,
{
    match alg {
        Algorithm::Sm => sm3(data),
        Algorithm::Eth => keccak256(data),
    }
}

/// The address derived from a raw public key: the trailing 20 bytes of its
/// digest.
pub open spec fn spec_address_of(alg: Algorithm, pk: Seq<u8>) -> Seq<u8> {
    spec_hash(alg, pk).subrange(12, 32)
}

/// Does the active algorithm accept `sig` as a signature by the holder of
/// `addr` over `msg`? For SM2 the signature carries the public key, which
/// must hash to the address and pass SM2 verification; for the Ethereum-style
/// scheme the key recovered from the signature must hash to the address.
pub open spec fn spec_verifies(alg: Algorithm, addr: Seq<u8>, msg: Seq<u8>, sig: Seq<u8>) -> bool {
    match alg {
        Algorithm::Sm => {
            &&& sig.len() == 128
            &&& addr == spec_address_of(alg, sig.subrange(64, 128))
            &&& sm2_verifies(sig.subrange(64, 128), msg, sig.subrange(0, 64))
        },
        Algorithm::Eth => {
            &&& sig.len() == 65
            &&& match secp_recover(msg, sig) {
                Some(pk65) => pk65.len() == 65 && addr == spec_address_of(alg, pk65.skip(1)),
                None => false,
            }
        },
    }
}

/// A fixed-length content hash tagged with the algorithm that produced it.
#[derive(Debug, Clone)]
pub struct Hash {
    pub algorithm: Algorithm,
    pub bytes: Vec<u8>,
}

/// A fixed-length account address tagged with its algorithm.
#[derive(Debug, Clone)]
pub struct Address {
    pub algorithm: Algorithm,
    pub bytes: Vec<u8>,
}

/// A fixed-length signature tagged with its algorithm.
#[derive(Debug, Clone)]
pub struct Signature {
    pub algorithm: Algorithm,
    pub bytes: Vec<u8>,
}

impl Hash {
    /// The fixed length holds.
    pub open spec fn wf(self) -> bool {
        self.bytes@.len() == HASH_BYTES
    }

    /// Build a hash from raw bytes, rejecting any length but the algorithm's
    /// fixed one; on success the value holds exactly the given bytes.
    pub fn try_from_slice(algorithm: Algorithm, slice: &[u8]) -> (r: Result<Hash, CliError>)
        ensures
            r is Ok <==> slice@.len() == HASH_BYTES,
            r is Ok ==> r.unwrap().wf() && r.unwrap().algorithm == algorithm && r.unwrap().bytes@
                == slice@,
            r is Err ==> (r.unwrap_err() matches CliError::ProtocolMismatch { expected, got }
                && expected == HASH_BYTES && got == slice@.len()),
    {
        if slice.len() != HASH_BYTES {
            return Err(CliError::ProtocolMismatch { expected: HASH_BYTES, got: slice.len() });
        }
        Ok(Hash { algorithm, bytes: vstd::slice::slice_to_vec(slice) })
    }

    /// The raw bytes.
    pub fn to_vec(&self) -> (r: Vec<u8>)
        ensures
            r@ == self.bytes@,
    {
        self.bytes.clone()
    }
}

impl Address {
    /// The fixed length holds.
    pub open spec fn wf(self) -> bool {
        self.bytes@.len() == ADDR_BYTES
    }

    /// Build an address from raw bytes, rejecting any length but the
    /// algorithm's fixed one; on success the value holds exactly the given
    /// bytes.
    pub fn try_from_slice(algorithm: Algorithm, slice: &[u8]) -> (r: Result<Address, CliError>)
        ensures
            r is Ok <==> slice@.len() == ADDR_BYTES,
            r is Ok ==> r.unwrap().wf() && r.unwrap().algorithm == algorithm && r.unwrap().bytes@
                == slice@,
            r is Err ==> (r.unwrap_err() matches CliError::ProtocolMismatch { expected, got }
                && expected == ADDR_BYTES && got == slice@.len()),
    {
        if slice.len() != ADDR_BYTES {
            return Err(CliError::ProtocolMismatch { expected: ADDR_BYTES, got: slice.len() });
        }
        Ok(Address { algorithm, bytes: vstd::slice::slice_to_vec(slice) })
    }

    /// The raw bytes.
    pub fn to_vec(&self) -> (r: Vec<u8>)
        ensures
            r@ == self.bytes@,
    {
        self.bytes.clone()
    }

    /// An identical copy, with its fields pinned down.
    pub fn duplicate(&self) -> (r: Address)
        ensures
            r.algorithm == self.algorithm,
            r.bytes@ == self.bytes@,
    {
        Address { algorithm: self.algorithm, bytes: self.bytes.clone() }
    }
}

impl Signature {
    /// The algorithm's fixed signature length holds.
    pub open spec fn wf(self) -> bool {
        self.bytes@.len() == spec_signature_len(self.algorithm)
    }

    /// Build a signature from raw bytes, rejecting any length but the
    /// algorithm's fixed one; on success the value holds exactly the given
    /// bytes.
    pub fn try_from_slice(algorithm: Algorithm, slice: &[u8]) -> (r: Result<Signature, CliError>)
        ensures
            r is Ok <==> slice@.len() == spec_signature_len(algorithm),
            r is Ok ==> r.unwrap().wf() && r.unwrap().algorithm == algorithm && r.unwrap().bytes@
                == slice@,
            r is Err ==> (r.unwrap_err() matches CliError::ProtocolMismatch { expected, got }
                && expected == spec_signature_len(algorithm) && got == slice@.len()),
    {
        let want = signature_len(algorithm);
        if slice.len() != want {
            return Err(CliError::ProtocolMismatch { expected: want, got: slice.len() });
        }
        Ok(Signature { algorithm, bytes: vstd::slice::slice_to_vec(slice) })
    }

    /// The raw bytes.
    pub fn to_vec(&self) -> (r: Vec<u8>)
        ensures
            r@ == self.bytes@,
    {
        self.bytes.clone()
    }
}

/// Derive the address belonging to a raw public key.
pub fn address_of_pubkey(algorithm: Algorithm, pk: &[u8]) -> (r: Address)
    ensures
        r.algorithm == algorithm,
        r.bytes@ == spec_address_of(algorithm, pk@),
        r.wf(),
{
    let h = hash_data(algorithm, pk);
    let bytes = sub_bytes(h.as_slice(), 12, 32);
    Address { algorithm, bytes }
}

/// A key-holding identity bound to one algorithm. The secret key is
/// sensitive: the type deliberately has no formatting impls, and the core
/// never prints it.
#[derive(Clone)]
pub struct Account {
    pub algorithm: Algorithm,
    pub address: Address,
    pub public_key: Vec<u8>,
    pub private_key: Vec<u8>,
}

impl Account {
    /// The keys belong together under the account's algorithm.
    pub open spec fn keys_ok(self) -> bool {
        match self.algorithm {
            Algorithm::Sm => {
                &&& self.private_key@.len() == SECRET_KEY_BYTES
                &&& sm2_keypair_ok(self.private_key@)
                &&& self.public_key@ == sm2_pubkey_of(self.private_key@)
                &&& self.public_key@.len() == 64
            },
            Algorithm::Eth => {
                &&& self.private_key@.len() == SECRET_KEY_BYTES
                &&& secp_sk_ok(self.private_key@)
                &&& secp_pubkey_of(self.private_key@).len() == 65
                &&& self.public_key@ == secp_pubkey_of(self.private_key@).skip(1)
            },
        }
    }

    /// The account is internally consistent: valid key pair, and the address
    /// is derived from the public key under the account's own algorithm.
    pub open spec fn wf(self) -> bool {
        &&& self.keys_ok()
        &&& self.address.algorithm == self.algorithm
        &&& self.address.bytes@ == spec_address_of(self.algorithm, self.public_key@)
        &&& self.address.wf()
    }

    /// Import an account from a 32-byte secret key. Succeeds exactly when
    /// the algorithm's backend accepts the key.
    pub fn from_secret(algorithm: Algorithm, private_key: Vec<u8>) -> (r: Result<Account, CliError>)
        requires
            private_key@.len() == SECRET_KEY_BYTES,
        ensures
            r is Ok ==> r.unwrap().wf() && r.unwrap().algorithm == algorithm
                && r.unwrap().private_key@ == private_key@,
            r is Err ==> r->Err_0 matches CliError::SigningFailure,
            algorithm == Algorithm::Sm ==> (r is Ok <==> sm2_keypair_ok(private_key@)),
            algorithm == Algorithm::Eth ==> (r is Ok <==> secp_sk_ok(private_key@)),
    {
        match algorithm {
            Algorithm::Sm => {
                let pk = match sm2_pubkey(private_key.as_slice()) {
                    Some(pk) => pk,
                    None => {
                        return Err(CliError::SigningFailure);
                    },
                };
                let address = address_of_pubkey(algorithm, pk.as_slice());
                Ok(Account { algorithm, address, public_key: pk, private_key })
            },
            Algorithm::Eth => {
                let pk65 = match secp_pubkey(private_key.as_slice()) {
                    Some(pk) => pk,
                    None => {
                        return Err(CliError::SigningFailure);
                    },
                };
                let pk = sub_bytes(pk65.as_slice(), 1, 65);
                assert(pk@ =~= pk65@.skip(1));
                let address = address_of_pubkey(algorithm, pk.as_slice());
                Ok(Account { algorithm, address, public_key: pk, private_key })
            },
        }
    }

    /// Create an account from one draw of fresh randomness. The backend may
    /// reject the drawn scalar; the caller decides whether to draw again.
    pub fn generate(algorithm: Algorithm) -> (r: Result<Account, CliError>)
        ensures
            r is Ok ==> r.unwrap().wf() && r.unwrap().algorithm == algorithm,
            r is Err ==> r->Err_0 matches CliError::SigningFailure,
    {
        let seed = random_seed();
        Account::from_secret(algorithm, seed)
    }

    /// Sign a 32-byte content hash. Any signature returned verifies, under
    /// this account's algorithm, against this account's address.
    pub fn sign(&self, msg: &[u8]) -> (r: Result<Signature, CliError>)
        requires
            self.wf(),
            msg@.len() == HASH_BYTES,
        ensures
            r is Ok ==> r.unwrap().wf() && r.unwrap().algorithm == self.algorithm
                && spec_verifies(self.algorithm, self.address.bytes@, msg@, r.unwrap().bytes@),
            r is Err ==> r->Err_0 matches CliError::SigningFailure,
    {
        match self.algorithm {
            Algorithm::Sm => {
                let rs = match sm2_sign(self.private_key.as_slice(), msg) {
                    Some(rs) => rs,
                    None => {
                        return Err(CliError::SigningFailure);
                    },
                };
                let bytes = concat_bytes(rs.as_slice(), self.public_key.as_slice());
                assert(bytes@.subrange(64, 128) =~= self.public_key@);
                assert(bytes@.subrange(0, 64) =~= rs@);
                Ok(Signature { algorithm: self.algorithm, bytes })
            },
            Algorithm::Eth => {
                let bytes = match secp_sign(self.private_key.as_slice(), msg) {
                    Some(b) => b,
                    None => {
                        return Err(CliError::SigningFailure);
                    },
                };
                assert(secp_pubkey_of(self.private_key@).skip(1) =~= self.public_key@);
                Ok(Signature { algorithm: self.algorithm, bytes })
            },
        }
    }
}

/// Check a signature against an address and a 32-byte content hash. The two
/// values must come from the same algorithm; mixing algorithms is reported as
/// a distinct error rather than a silent `false`.
pub fn verify(address: &Address, msg: &[u8], signature: &Signature) -> (r: Result<bool, CliError>)
    requires
        address.wf(),
        signature.wf(),
        msg@.len() == HASH_BYTES,
    ensures
        address.algorithm != signature.algorithm ==> r is Err && r.unwrap_err()
            matches CliError::AlgorithmMismatch,
        address.algorithm == signature.algorithm ==> r is Ok && r.unwrap() == spec_verifies(
            address.algorithm,
            address.bytes@,
            msg@,
            signature.bytes@,
        ),
{
    if address.algorithm != signature.algorithm {
        return Err(CliError::AlgorithmMismatch);
    }
    match address.algorithm {
        Algorithm::Sm => {
            let rs = sub_bytes(signature.bytes.as_slice(), 0, 64);
            let pk = sub_bytes(signature.bytes.as_slice(), 64, 128);
            let derived = address_of_pubkey(address.algorithm, pk.as_slice());
            if !bytes_eq(derived.bytes.as_slice(), address.bytes.as_slice()) {
                return Ok(false);
            }
            Ok(sm2_verify(pk.as_slice(), msg, rs.as_slice()))
        },
        Algorithm::Eth => {
            match secp_recover_exec(msg, signature.bytes.as_slice()) {
                Some(pk65) => {
                    let pk = sub_bytes(pk65.as_slice(), 1, 65);
                    assert(pk@ =~= pk65@.skip(1));
                    let derived = address_of_pubkey(address.algorithm, pk.as_slice());
                    Ok(bytes_eq(derived.bytes.as_slice(), address.bytes.as_slice()))
                },
                None => Ok(false),
            }
        },
    }
}

} // verus!
