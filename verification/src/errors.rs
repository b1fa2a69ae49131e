//! The failure taxonomy of the client core.
//!
//! Grammar and dispatch failures are programming or invocation errors and are
//! always fatal to the invocation that raised them; signing failures abort the
//! current command before any network call is issued; transport failures and
//! protocol mismatches are reported by the I/O layer through these variants so
//! callers can tell a connection problem from a node that speaks a different
//! signing algorithm; input validation failures are caught at argument time.

use vstd::prelude::*;

verus! {

/// One error kind for every failure the core can surface.
#[derive(Debug)]
pub enum CliError {
    /// Two children of the same command share a name: a build-time
    /// configuration error, never tolerated silently.
    DuplicateSubcommand(String),
    /// Dispatch was asked to descend into a child that the node does not
    /// have: a grammar/tree mismatch, never a silent no-op.
    NoSubcommandHandler(String),
    /// A rename was asked for a child that does not exist.
    SubcommandNotFound(String),
    /// A signing operation was requested while no account is active.
    NoAccount,
    /// The cryptographic backend rejected the key or failed to sign.
    SigningFailure,
    /// A byte string did not have the fixed length the active algorithm
    /// demands; the usual cause is a client/node signing-algorithm mismatch.
    ProtocolMismatch { expected: usize, got: usize },
    /// The two sides of a verification were produced under different
    /// algorithms; verifying further would be meaningless.
    AlgorithmMismatch,
    /// A remote call failed at the transport level (connection, timeout).
    Transport(String),
    /// Malformed user input (bad hex, bad number, wrong length), rejected
    /// before any handler or network call runs.
    InvalidInput(String),
    /// A handler failure wrapped with the name of the command that raised
    /// it, so the chain of commands is visible at the top level.
    InCommand(String, Box<CliError>),
}

impl CliError {
    /// Wrap a handler failure with the originating command's name.
    pub fn in_command(self, name: &str) -> (r: CliError)
        ensures
            r matches CliError::InCommand(n, e) && n@ == name@ && *e == self,
    {
        CliError::InCommand(name.to_owned(), Box::new(self))
    }

    /// True for the mismatch kinds that suggest the client was built for a
    /// different signing algorithm than the node expects.
    pub fn is_protocol_mismatch(&self) -> (r: bool)
        ensures
            r == (self matches CliError::ProtocolMismatch { .. } || self
                matches CliError::AlgorithmMismatch),
    {
        match self {
            CliError::ProtocolMismatch { .. } => true,
            CliError::AlgorithmMismatch => true,
            _ => false,
        }
    }
}

} // verus!
