//! The transaction build-and-sign pipeline.
//!
//! Both transaction shapes progress the same way: encode the unsigned body
//! canonically, hash the encoded bytes under the active algorithm, sign the
//! hash with the caller's account, and attach a witness naming the signer.
//! The signed hash is always the hash of the encoded unsigned body, never of
//! the assembled transaction: the remote service recomputes exactly that hash
//! to check the witness.

use vstd::prelude::*;
use crate::codec::{CloudNormalTransaction, CloudUtxoTransaction};
use crate::crypto::{hash_data, spec_hash, spec_verifies, Account, Address, Algorithm, Signature};
use crate::errors::CliError;

verus! {

/// A (sender address, signature) pair authenticating a transaction.
#[derive(Debug, Clone)]
pub struct Witness {
    pub sender: Address,
    pub signature: Signature,
}

impl Witness {
    /// The witness is internally consistent and its signature verifies, under
    /// `alg`, against its own sender address and the given content hash.
    pub open spec fn authenticates(self, alg: Algorithm, content_hash: Seq<u8>) -> bool {
        &&& self.sender.algorithm == alg
        &&& self.sender.wf()
        &&& self.signature.algorithm == alg
        &&& self.signature.wf()
        &&& spec_verifies(alg, self.sender.bytes@, content_hash, self.signature.bytes@)
    }
}

/// A signed normal transaction: body, content hash, and its single witness.
#[derive(Debug, Clone)]
pub struct UnverifiedTransaction {
    pub transaction: CloudNormalTransaction,
    pub transaction_hash: crate::crypto::Hash,
    pub witness: Witness,
}

/// A signed UTXO-style transaction: body, content hash, and an ordered
/// sequence of witnesses. The shape allows several signers; the core only
/// ever attaches one at creation time.
#[derive(Debug, Clone)]
pub struct UnverifiedUtxoTransaction {
    pub transaction: CloudUtxoTransaction,
    pub transaction_hash: crate::crypto::Hash,
    pub witnesses: Vec<Witness>,
}

/// A fully assembled, witness-attached transaction ready for submission.
#[derive(Debug, Clone)]
pub enum RawTransaction {
    NormalTx(UnverifiedTransaction),
    UtxoTx(UnverifiedUtxoTransaction),
}

impl RawTransaction {
    /// How many witnesses the assembled transaction carries.
    pub open spec fn witness_count(self) -> nat {
        match self {
            RawTransaction::NormalTx(_) => 1,
            RawTransaction::UtxoTx(u) => u.witnesses@.len(),
        }
    }
}

/// `r` is `tx` correctly signed under `alg` by the holder of `addr`: the
/// content hash is the hash of the body's canonical encoding, and the single
/// witness names `addr` and verifies against that hash.
pub open spec fn is_signed_normal(
    r: RawTransaction,
    tx: CloudNormalTransaction,
    alg: Algorithm,
    addr: Seq<u8>,
) -> bool {
    match r {
        RawTransaction::NormalTx(u) => {
            &&& u.transaction == tx
            &&& u.transaction_hash.algorithm == alg
            &&& u.transaction_hash.wf()
            &&& u.transaction_hash.bytes@ == spec_hash(alg, tx.spec_encode())
            &&& u.witness.sender.bytes@ == addr
            &&& u.witness.authenticates(alg, u.transaction_hash.bytes@)
        },
        RawTransaction::UtxoTx(_) => false,
    }
}

/// `r` is `utxo` correctly signed under `alg` by the holder of `addr`, with
/// exactly one witness attached.
pub open spec fn is_signed_utxo(
    r: RawTransaction,
    utxo: CloudUtxoTransaction,
    alg: Algorithm,
    addr: Seq<u8>,
) -> bool {
    match r {
        RawTransaction::UtxoTx(u) => {
            &&& u.transaction == utxo
            &&& u.transaction_hash.algorithm == alg
            &&& u.transaction_hash.wf()
            &&& u.transaction_hash.bytes@ == spec_hash(alg, utxo.spec_encode())
            &&& u.witnesses@.len() == 1
            &&& u.witnesses@[0].sender.bytes@ == addr
            &&& u.witnesses@[0].authenticates(alg, u.transaction_hash.bytes@)
        },
        RawTransaction::NormalTx(_) => false,
    }
}

/// Anything that can turn an unsigned body into a submission-ready
/// transaction: encode, hash, sign, attach witness, in that order.
pub trait SignerBehaviour: Sized {
    /// The signer's keys and address belong together.
    spec fn wf(&self) -> bool;

    /// The algorithm the signer is bound to.
    spec fn spec_algorithm(&self) -> Algorithm;

    /// The signer's address bytes.
    spec fn spec_address(&self) -> Seq<u8>;

    /// Sign a normal transaction body. Any transaction returned is `tx`
    /// correctly signed by this signer, and carries exactly one witness.
    fn sign_raw_tx(&self, tx: CloudNormalTransaction) -> (r: Result<RawTransaction, CliError>)
        requires
            self.wf(),
        ensures
            r is Ok ==> is_signed_normal(
                r.unwrap(),
                tx,
                self.spec_algorithm(),
                self.spec_address(),
            ),
            r is Ok ==> r.unwrap().witness_count() == 1,
            r is Err ==> r.unwrap_err() matches CliError::SigningFailure,
    ;

    /// Sign a UTXO-style transaction body. Any transaction returned is
    /// `utxo` correctly signed by this signer, and carries exactly one
    /// witness at creation even though the shape allows several.
    fn sign_raw_utxo(&self, utxo: CloudUtxoTransaction) -> (r: Result<RawTransaction, CliError>)
        requires
            self.wf(),
        ensures
            r is Ok ==> is_signed_utxo(
                r.unwrap(),
                utxo,
                self.spec_algorithm(),
                self.spec_address(),
            ),
            r is Ok ==> r.unwrap().witness_count() == 1,
            r is Err ==> r.unwrap_err() matches CliError::SigningFailure,
    ;
}

impl SignerBehaviour for Account {
    open spec fn wf(&self) -> bool {
        Account::wf(*self)
    }

    open spec fn spec_algorithm(&self) -> Algorithm {
        self.algorithm
    }

    open spec fn spec_address(&self) -> Seq<u8> {
        self.address.bytes@
    }

    fn sign_raw_tx(&self, tx: CloudNormalTransaction) -> (r: Result<RawTransaction, CliError>) {
        let encoded = tx.encode();
        let hash_bytes = hash_data(self.algorithm, encoded.as_slice());
        let signature = match Account::sign(self, hash_bytes.as_slice()) {
            Ok(s) => s,
            Err(_) => {
                return Err(CliError::SigningFailure);
            },
        };
        let transaction_hash = crate::crypto::Hash { algorithm: self.algorithm, bytes: hash_bytes };
        let witness = Witness { sender: self.address.duplicate(), signature };
        Ok(
            RawTransaction::NormalTx(
                UnverifiedTransaction { transaction: tx, transaction_hash, witness },
            ),
        )
    }

    fn sign_raw_utxo(&self, utxo: CloudUtxoTransaction) -> (r: Result<RawTransaction, CliError>) {
        let encoded = utxo.encode();
        let hash_bytes = hash_data(self.algorithm, encoded.as_slice());
        let signature = match Account::sign(self, hash_bytes.as_slice()) {
            Ok(s) => s,
            Err(_) => {
                return Err(CliError::SigningFailure);
            },
        };
        let transaction_hash = crate::crypto::Hash { algorithm: self.algorithm, bytes: hash_bytes };
        let witness = Witness { sender: self.address.duplicate(), signature };
        let witnesses = vec![witness];
        Ok(
            RawTransaction::UtxoTx(
                UnverifiedUtxoTransaction { transaction: utxo, transaction_hash, witnesses },
            ),
        )
    }
}

/// The kinds of system transaction, each mapped to its fixed protocol
/// identifier. These are ordinary UTXO transactions whose payload encodes a
/// protocol-level configuration change.
#[derive(Debug, Clone, Copy, PartialEq, Eq, Structural)]
pub enum UtxoType {
    Admin,
    BlockInterval,
    Validators,
    EmergencyBrake,
}

impl UtxoType {
    /// The protocol's fixed lock id for this kind.
    pub open spec fn spec_lock_id(self) -> u64 {
        match self {
            UtxoType::Admin => 1002,
            UtxoType::BlockInterval => 1003,
            UtxoType::Validators => 1004,
            UtxoType::EmergencyBrake => 1005,
        }
    }

    /// Exec mirror of [`Self::spec_lock_id`].
    pub fn lock_id(self) -> (r: u64)
        ensures
            r == self.spec_lock_id(),
    {
        match self {
            UtxoType::Admin => 1002,
            UtxoType::BlockInterval => 1003,
            UtxoType::Validators => 1004,
            UtxoType::EmergencyBrake => 1005,
        }
    }
}

/// The chain-level facts a sender needs before it can build a normal
/// transaction body; fetched from the controller by the I/O layer and handed
/// in as plain values.
#[derive(Debug, Clone)]
pub struct TransactionParams {
    pub version: u32,
    pub chain_id: Vec<u8>,
    pub nonce: String,
    pub quota: u64,
    pub valid_until_block: u64,
}

/// Builds and signs a transfer-shaped transaction; submission stays with the
/// transport layer, which sends the returned value as-is.
pub trait NormalTransactionSenderBehaviour: SignerBehaviour {
    /// Assemble the body from the given parts and sign it.
    fn send_tx(&self, params: TransactionParams, to: Vec<u8>, data: Vec<u8>, value: Vec<u8>) -> (r:
        Result<RawTransaction, CliError>)
        requires
            self.wf(),
        ensures
            r is Ok ==> is_signed_normal(
                r.unwrap(),
                (CloudNormalTransaction {
                    version: params.version,
                    to: to,
                    nonce: params.nonce,
                    quota: params.quota,
                    valid_until_block: params.valid_until_block,
                    data: data,
                    value: value,
                    chain_id: params.chain_id,
                }),
                self.spec_algorithm(),
                self.spec_address(),
            ),
            r is Err ==> r.unwrap_err() matches CliError::SigningFailure,
    ;
}

impl NormalTransactionSenderBehaviour for Account {
    fn send_tx(&self, params: TransactionParams, to: Vec<u8>, data: Vec<u8>, value: Vec<u8>) -> (r:
        Result<RawTransaction, CliError>) {
        let tx = CloudNormalTransaction {
            version: params.version,
            to,
            nonce: params.nonce,
            quota: params.quota,
            valid_until_block: params.valid_until_block,
            data,
            value,
            chain_id: params.chain_id,
        };
        self.sign_raw_tx(tx)
    }
}

/// Builds and signs a system (UTXO-style) transaction; submission stays with
/// the transport layer.
pub trait UtxoTransactionSenderBehaviour: SignerBehaviour {
    /// Assemble the UTXO body for the given kind and sign it. The previous
    /// transaction hash and version come from the system configuration.
    fn send_utxo(&self, version: u32, pre_tx_hash: Vec<u8>, output: Vec<u8>, utxo_type: UtxoType)
        -> (r: Result<RawTransaction, CliError>)
        requires
            self.wf(),
        ensures
            r is Ok ==> is_signed_utxo(
                r.unwrap(),
                (CloudUtxoTransaction {
                    version: version,
                    pre_tx_hash: pre_tx_hash,
                    output: output,
                    lock_id: utxo_type.spec_lock_id(),
                }),
                self.spec_algorithm(),
                self.spec_address(),
            ),
            r is Err ==> r.unwrap_err() matches CliError::SigningFailure,
    ;
}

impl UtxoTransactionSenderBehaviour for Account {
    fn send_utxo(&self, version: u32, pre_tx_hash: Vec<u8>, output: Vec<u8>, utxo_type: UtxoType)
        -> (r: Result<RawTransaction, CliError>) {
        let utxo = CloudUtxoTransaction {
            version,
            pre_tx_hash,
            output,
            lock_id: utxo_type.lock_id(),
        };
        self.sign_raw_utxo(utxo)
    }
}

} // verus!
