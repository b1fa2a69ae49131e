//! Process-scoped state threaded through command handlers.
//!
//! The context is owned by the dispatch driver and handed to each handler by
//! exclusive reference, so only one handler reads or writes it at a time. The
//! transport handles themselves (channels, runtime) live with the driver; the
//! core holds what its logic reads: the active account and the resolved
//! service endpoints.

use vstd::prelude::*;
use crate::crypto::Account;
use crate::errors::CliError;

verus! {

/// Per-invocation mutable state: the active account and the service
/// endpoints the transport should dial.
pub struct Context {
    pub current_account: Option<Account>,
    pub controller_addr: String,
    pub executor_addr: String,
}

impl Context {
    /// A fresh context with no account logged in.
    pub fn new(controller_addr: String, executor_addr: String) -> (c: Context)
        ensures
            c.current_account is None,
            c.controller_addr == controller_addr,
            c.executor_addr == executor_addr,
    {
        Context { current_account: None, controller_addr, executor_addr }
    }

    /// The active account, or a signing error when none is set. Checked
    /// before any network round-trip is spent on a doomed signing command.
    pub fn current_account(&self) -> (r: Result<&Account, CliError>)
        ensures
            self.current_account is Some <==> r is Ok,
            r matches Ok(a) ==> *a == self.current_account.unwrap(),
            r is Err ==> r->Err_0 matches CliError::NoAccount,
    {
        match &self.current_account {
            Some(a) => Ok(a),
            None => Err(CliError::NoAccount),
        }
    }

    /// Make `account` the active account.
    pub fn set_account(&mut self, account: Account)
        ensures
            final(self).current_account == Some(account),
            final(self).controller_addr == old(self).controller_addr,
            final(self).executor_addr == old(self).executor_addr,
    {
        self.current_account = Some(account);
    }
}

/// Resolve a service endpoint: an explicit flag wins, then the environment,
/// then the built-in default, in that order.
pub fn resolve_addr(flag: Option<String>, env: Option<String>, default_value: String) -> (r: String)
    ensures
        flag is Some ==> r == flag.unwrap(),
        flag is None && env is Some ==> r == env.unwrap(),
        flag is None && env is None ==> r == default_value,
{
    match flag {
        Some(f) => f,
        None => match env {
            Some(e) => e,
            None => default_value,
        },
    }
}

} // verus!
