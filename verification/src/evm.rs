//! The EVM-facing commands: tree nodes for receipts, code, balance, nonce and
//! contract-ABI access, and the compute parts of their handlers.
//!
//! Each command is a terminal leaf carrying an opaque handler id; the driver
//! maps ids to the closures that perform the network calls. What the handlers
//! decide and build — argument validation, the `+h` form of the
//! valid-until-block argument, and the ABI-store transaction body — stands
//! here with contracts.

use vstd::prelude::*;
use crate::bytesutil::concat_bytes;
use crate::cmd::{Command, HandlerKind};
use crate::codec::CloudNormalTransaction;
use crate::crypto::{Address, Algorithm};
use crate::errors::CliError;
use crate::hexutil::{dec_ok, dec_value, parse_u64};
use crate::transaction::TransactionParams;

verus! {

/// Handler id of the receipt query.
pub const HANDLER_GET_RECEIPT: u64 = 11;

/// Handler id of the contract-code query.
pub const HANDLER_GET_CODE: u64 = 12;

/// Handler id of the balance query.
pub const HANDLER_GET_BALANCE: u64 = 13;

/// Handler id of the account-nonce query.
pub const HANDLER_GET_ACCOUNT_NONCE: u64 = 14;

/// Handler id of the ABI query.
pub const HANDLER_GET_CONTRACT_ABI: u64 = 15;

/// Handler id of the ABI-store command.
pub const HANDLER_STORE_CONTRACT_ABI: u64 = 16;

/// Get EVM executed receipt by transaction hash.
pub fn get_receipt() -> (c: Command)
    ensures
        c.name@ == "get-receipt"@,
        c.handler == HandlerKind::Terminal(HANDLER_GET_RECEIPT),
        c.subcmds@.len() == 0,
        c.wf(),
{
    Command::new("get-receipt").about("Get EVM executed receipt by tx_hash").handler(
        HandlerKind::Terminal(HANDLER_GET_RECEIPT),
    )
}

/// Get code by contract address.
pub fn get_code() -> (c: Command)
    ensures
        c.name@ == "get-code"@,
        c.handler == HandlerKind::Terminal(HANDLER_GET_CODE),
        c.subcmds@.len() == 0,
        c.wf(),
{
    Command::new("get-code").about("Get code by contract address").handler(
        HandlerKind::Terminal(HANDLER_GET_CODE),
    )
}

/// Get balance by account address.
pub fn get_balance() -> (c: Command)
    ensures
        c.name@ == "get-balance"@,
        c.handler == HandlerKind::Terminal(HANDLER_GET_BALANCE),
        c.subcmds@.len() == 0,
        c.wf(),
{
    Command::new("get-balance").about("Get balance by account address").handler(
        HandlerKind::Terminal(HANDLER_GET_BALANCE),
    )
}

/// Get the nonce of an account.
pub fn get_account_nonce() -> (c: Command)
    ensures
        c.name@ == "get-account-nonce"@,
        c.handler == HandlerKind::Terminal(HANDLER_GET_ACCOUNT_NONCE),
        c.subcmds@.len() == 0,
        c.wf(),
{
    Command::new("get-account-nonce").about("Get the nonce of this account").handler(
        HandlerKind::Terminal(HANDLER_GET_ACCOUNT_NONCE),
    )
}

/// Get a contract's stored ABI.
pub fn get_contract_abi() -> (c: Command)
    ensures
        c.name@ == "get-contract-abi"@,
        c.handler == HandlerKind::Terminal(HANDLER_GET_CONTRACT_ABI),
        c.subcmds@.len() == 0,
        c.wf(),
{
    Command::new("get-contract-abi").about("Get the specific contract ABI").handler(
        HandlerKind::Terminal(HANDLER_GET_CONTRACT_ABI),
    )
}

/// Store a contract's ABI on chain.
pub fn store_contract_abi() -> (c: Command)
    ensures
        c.name@ == "store-contract-abi"@,
        c.handler == HandlerKind::Terminal(HANDLER_STORE_CONTRACT_ABI),
        c.subcmds@.len() == 0,
        c.wf(),
{
    Command::new("store-contract-abi").about("Store contract ABI").handler(
        HandlerKind::Terminal(HANDLER_STORE_CONTRACT_ABI),
    )
}

/// The reserved system address that ABI-store transactions are sent to.
pub open spec fn abi_store_address_bytes() -> Seq<u8> {
    seq![
        0xffu8,
        0xffu8,
        0xffu8,
        0xffu8,
        0xffu8,
        0xffu8,
        0xffu8,
        0xffu8,
        0xffu8,
        0xffu8,
        0xffu8,
        0xffu8,
        0xffu8,
        0xffu8,
        0xffu8,
        0xffu8,
        0xffu8,
        0x01u8,
        0x00u8,
        0x01u8,
    ]
}

/// The reserved ABI-store address as a value of the active algorithm.
pub fn abi_store_address(algorithm: Algorithm) -> (r: Address)
    ensures
        r.algorithm == algorithm,
        r.bytes@ =~= abi_store_address_bytes(),
        r.wf(),
{
    let mut bytes: Vec<u8> = Vec::new();
    let mut i: usize = 0;
    while i < 17
        invariant
            i <= 17,
            bytes@.len() == i,
            forall|t: int| 0 <= t < i ==> bytes@[t] == 0xffu8,
        decreases 17 - i,
    {
        bytes.push(0xff);
        i = i + 1;
    }
    bytes.push(0x01);
    bytes.push(0x00);
    bytes.push(0x01);
    assert(bytes@ =~= abi_store_address_bytes());
    Address { algorithm, bytes }
}

/// The payload of an ABI-store transaction: the contract address followed by
/// the ABI bytes.
pub fn build_store_abi_data(contract_addr: &Address, abi: &[u8]) -> (r: Vec<u8>)
    ensures
        r@ == contract_addr.bytes@ + abi@,
{
    concat_bytes(contract_addr.bytes.as_slice(), abi)
}

/// The unsigned body of an ABI-store transaction: a normal transaction to the
/// reserved ABI address whose data is the contract address followed by the
/// ABI, carrying no value.
pub fn build_store_abi_tx(
    params: TransactionParams,
    contract_addr: &Address,
    abi: &[u8],
) -> (r: CloudNormalTransaction)
    ensures
        r.version == params.version,
        r.to@ =~= abi_store_address_bytes(),
        r.nonce == params.nonce,
        r.quota == params.quota,
        r.valid_until_block == params.valid_until_block,
        r.data@ == contract_addr.bytes@ + abi@,
        r.value@.len() == 0,
        r.chain_id == params.chain_id,
{
    let to = abi_store_address(contract_addr.algorithm);
    CloudNormalTransaction {
        version: params.version,
        to: to.bytes,
        nonce: params.nonce,
        quota: params.quota,
        valid_until_block: params.valid_until_block,
        data: build_store_abi_data(contract_addr, abi),
        value: Vec::new(),
        chain_id: params.chain_id,
    }
}

/// How the user pinned a transaction's expiry height: an absolute height, or
/// an offset above the current height (the `+h` form).
#[derive(Debug, Clone, Copy, PartialEq, Eq, Structural)]
pub enum UntilBlock {
    Absolute(u64),
    Relative(u64),
}

/// Parse a valid-until-block argument: a decimal height, or `+` followed by a
/// decimal offset from the current height. The ASCII code of `+` is 43.
pub fn parse_until(s: &[u8]) -> (r: Result<UntilBlock, CliError>)
    ensures
        s@.len() > 0 && s@[0] == 43 ==> {
            &&& (r is Ok <==> dec_ok(s@.skip(1)) && dec_value(s@.skip(1)) <= u64::MAX)
            &&& (r is Ok ==> r.unwrap() == UntilBlock::Relative(dec_value(s@.skip(1)) as u64))
        },
        !(s@.len() > 0 && s@[0] == 43) ==> {
            &&& (r is Ok <==> dec_ok(s@) && dec_value(s@) <= u64::MAX)
            &&& (r is Ok ==> r.unwrap() == UntilBlock::Absolute(dec_value(s@) as u64))
        },
        r is Err ==> r.unwrap_err() matches CliError::InvalidInput(_),
{
    if s.len() > 0 && s[0] == 43 {
        let rest = vstd::slice::slice_subrange(s, 1, s.len());
        match parse_u64(rest) {
            Ok(v) => Ok(UntilBlock::Relative(v)),
            Err(e) => Err(e),
        }
    } else {
        match parse_u64(s) {
            Ok(v) => Ok(UntilBlock::Absolute(v)),
            Err(e) => Err(e),
        }
    }
}

/// Turn a parsed expiry into a concrete height: an absolute height stands as
/// given; a relative one is added to the current height, rejecting overflow.
pub fn resolve_until(until: UntilBlock, current_height: u64) -> (r: Result<u64, CliError>)
    ensures
        until matches UntilBlock::Absolute(v) ==> r is Ok && r.unwrap() == v,
        until matches UntilBlock::Relative(d) ==> {
            &&& current_height + d <= u64::MAX ==> r is Ok && r.unwrap() == current_height + d
            &&& current_height + d > u64::MAX ==> r is Err && (r.unwrap_err()
                matches CliError::InvalidInput(_))
        },
{
    match until {
        UntilBlock::Absolute(v) => Ok(v),
        UntilBlock::Relative(d) => match current_height.checked_add(d) {
            Some(v) => Ok(v),
            None => Err(
                CliError::InvalidInput("valid-until-block overflows the block height".to_owned()),
            ),
        },
    }
}

} // verus!
