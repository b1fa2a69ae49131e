//! Canonical serialization of the two unsigned transaction bodies.
//!
//! The remote services recompute the content hash of a transaction from the
//! wire encoding of its unsigned body, so the encoding must be deterministic
//! and byte-for-byte the protocol's own: protobuf wire format, fields written
//! in tag order, scalar fields equal to zero and empty byte fields skipped.
//! The encoder here is a verified function of the body alone; its contract is
//! the byte sequence it produces.

use vstd::prelude::*;
use vstd::utf8::encode_utf8;
use crate::bytesutil::append_bytes;

verus! {

/// Base-128 varint encoding: low seven bits per byte, continuation bit on
/// every byte but the last.
pub open spec fn varint(n: nat) -> Seq<u8>
    decreases n,
{
    if n < 128 {
        seq![n as u8]
    } else {
        seq![(n % 128 + 128) as u8] + varint(n / 128)
    }
}

/// The key byte(s) of a field: tag and wire type packed into one varint.
pub open spec fn field_key(tag: nat, wire: nat) -> Seq<u8> {
    varint(tag * 8 + wire)
}

/// A varint-typed field; zero values are skipped.
pub open spec fn enc_varint_field(tag: nat, v: nat) -> Seq<u8> {
    if v == 0 {
        Seq::empty()
    } else {
        field_key(tag, 0) + varint(v)
    }
}

/// A length-delimited field; empty contents are skipped.
pub open spec fn enc_len_field(tag: nat, b: Seq<u8>) -> Seq<u8> {
    if b.len() == 0 {
        Seq::empty()
    } else {
        field_key(tag, 2) + varint(b.len()) + b
    }
}

/// Append the varint encoding of `value`.
pub fn encode_varint(value: u64, out: &mut Vec<u8>)
    ensures
        final(out)@ == old(out)@ + varint(value as nat),
{
    let mut n = value;
    while n >= 128
        invariant
            old(out)@ + varint(value as nat) == out@ + varint(n as nat),
        decreases n,
    {
        let low: u64 = n & 0x7f;
        assert(n & 0x7f == n % 128 && n >> 7 == n / 128 && n % 128 < 128) by (bit_vector);
        let b: u8 = (low as u8) | 0x80;
        assert((low as u8) | 0x80 == low + 128) by (bit_vector)
            requires
                low < 128,
        ;
        out.push(b);
        proof {
            assert(varint(n as nat) == seq![b] + varint((n as nat) / 128));
            assert(out@ + varint((n / 128) as nat) =~= out@.drop_last() + varint(n as nat));
        }
        n = n >> 7;
    }
    out.push(n as u8);
    proof {
        assert(varint(n as nat) == seq![n as u8]);
        assert(out@ =~= out@.drop_last() + varint(n as nat));
    }
}

/// Append a varint-typed field, skipping zero values.
pub fn encode_varint_field(tag: u32, v: u64, out: &mut Vec<u8>)
    requires
        1 <= tag <= 15,
    ensures
        final(out)@ == old(out)@ + enc_varint_field(tag as nat, v as nat),
{
    if v == 0 {
        assert(out@ =~= out@ + enc_varint_field(tag as nat, 0));
        return ;
    }
    encode_varint((tag as u64) * 8, out);
    encode_varint(v, out);
    assert(out@ =~= old(out)@ + enc_varint_field(tag as nat, v as nat));
}

/// Append a length-delimited field, skipping empty contents.
pub fn encode_len_field(tag: u32, b: &[u8], out: &mut Vec<u8>)
    requires
        1 <= tag <= 15,
    ensures
        final(out)@ == old(out)@ + enc_len_field(tag as nat, b@),
{
    if b.len() == 0 {
        assert(b@ =~= Seq::<u8>::empty());
        assert(out@ =~= out@ + enc_len_field(tag as nat, b@));
        return ;
    }
    encode_varint((tag as u64) * 8 + 2, out);
    encode_varint(b.len() as u64, out);
    append_bytes(out, b);
    assert(out@ =~= old(out)@ + enc_len_field(tag as nat, b@));
}

/// The unsigned body of a normal (single-signer) transaction.
#[derive(Debug, Clone)]
pub struct CloudNormalTransaction {
    pub version: u32,
    pub to: Vec<u8>,
    pub nonce: String,
    pub quota: u64,
    pub valid_until_block: u64,
    pub data: Vec<u8>,
    pub value: Vec<u8>,
    pub chain_id: Vec<u8>,
}

impl CloudNormalTransaction {
    /// The canonical wire encoding of this body: its eight fields in tag
    /// order, defaults skipped.
    pub open spec fn spec_encode(self) -> Seq<u8> {
        enc_varint_field(1, self.version as nat) + enc_len_field(2, self.to@) + enc_len_field(
            3,
            encode_utf8(self.nonce@),
        ) + enc_varint_field(4, self.quota as nat) + enc_varint_field(
            5,
            self.valid_until_block as nat,
        ) + enc_len_field(6, self.data@) + enc_len_field(7, self.value@) + enc_len_field(
            8,
            self.chain_id@,
        )
    }

    /// Serialize the body; the result is exactly [`Self::spec_encode`], a
    /// function of the body alone.
    pub fn encode(&self) -> (r: Vec<u8>)
        ensures
            r@ == self.spec_encode(),
    {
        let mut out: Vec<u8> = Vec::new();
        encode_varint_field(1, self.version as u64, &mut out);
        encode_len_field(2, self.to.as_slice(), &mut out);
        encode_len_field(3, self.nonce.as_str().as_bytes(), &mut out);
        encode_varint_field(4, self.quota, &mut out);
        encode_varint_field(5, self.valid_until_block, &mut out);
        encode_len_field(6, self.data.as_slice(), &mut out);
        encode_len_field(7, self.value.as_slice(), &mut out);
        encode_len_field(8, self.chain_id.as_slice(), &mut out);
        assert(out@ =~= self.spec_encode());
        out
    }
}

/// The unsigned body of a UTXO-style (multi-witness-capable) transaction.
#[derive(Debug, Clone)]
pub struct CloudUtxoTransaction {
    pub version: u32,
    pub pre_tx_hash: Vec<u8>,
    pub output: Vec<u8>,
    pub lock_id: u64,
}

impl CloudUtxoTransaction {
    /// The canonical wire encoding of this body: its four fields in tag
    /// order, defaults skipped.
    pub open spec fn spec_encode(self) -> Seq<u8> {
        enc_varint_field(1, self.version as nat) + enc_len_field(2, self.pre_tx_hash@)
            + enc_len_field(3, self.output@) + enc_varint_field(4, self.lock_id as nat)
    }

    /// Serialize the body; the result is exactly [`Self::spec_encode`], a
    /// function of the body alone.
    pub fn encode(&self) -> (r: Vec<u8>)
        ensures
            r@ == self.spec_encode(),
    {
        let mut out: Vec<u8> = Vec::new();
        encode_varint_field(1, self.version as u64, &mut out);
        encode_len_field(2, self.pre_tx_hash.as_slice(), &mut out);
        encode_len_field(3, self.output.as_slice(), &mut out);
        encode_varint_field(4, self.lock_id, &mut out);
        assert(out@ =~= self.spec_encode());
        out
    }
}

/// Encoding is canonical: any two encodings of the same normal transaction
/// body are the same bytes, so their digests under the active algorithm
/// agree.
pub proof fn lemma_normal_encoding_canonical(
    alg: crate::crypto::Algorithm,
    t: CloudNormalTransaction,
    e1: Seq<u8>,
    e2: Seq<u8>,
)
    requires
        e1 == t.spec_encode(),
        e2 == t.spec_encode(),
    ensures
        e1 == e2,
        crate::crypto::spec_hash(alg, e1) == crate::crypto::spec_hash(alg, e2),
{
}

/// Encoding is canonical for UTXO bodies as well.
pub proof fn lemma_utxo_encoding_canonical(
    alg: crate::crypto::Algorithm,
    t: CloudUtxoTransaction,
    e1: Seq<u8>,
    e2: Seq<u8>,
)
    requires
        e1 == t.spec_encode(),
        e2 == t.spec_encode(),
    ensures
        e1 == e2,
        crate::crypto::spec_hash(alg, e1) == crate::crypto::spec_hash(alg, e2),
{
}

} // verus!
