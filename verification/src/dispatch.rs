//! The module dispatch contract: the interface every simulated module
//! implements, over a generic typed envelope for execute and query and a
//! privileged sudo entry point.
use vstd::prelude::*;

use crate::bank::Bank;
use crate::errors::ModuleError;
use crate::msgs::ModuleResponse;
use crate::state::SimStorage;

verus! {

/// A simulated chain module, as the surrounding router drives it. Every
/// operation leaves the store and the bank well formed.
pub trait StargateModule {
    /// Performs a state-changing action, atomically from the caller's point
    /// of view.
    fn execute(
        &self,
        storage: &mut SimStorage,
        bank: &mut Bank,
        sender: &String,
        type_url: &str,
        value: &[u8],
    ) -> (r: Result<ModuleResponse, ModuleError>)
        requires
            old(storage).wf(),
            old(bank).inv(),
        ensures
            final(storage).wf(),
            final(bank).inv(),
    ;

    /// Read-only query over a path and a binary payload.
    fn query(&self, storage: &SimStorage, bank: &Bank, path: &str, data: &[u8]) -> (r: Result<
        Vec<u8>,
        ModuleError,
    >)
        requires
            storage.wf(),
            bank.inv(),
    ;

    /// Privileged entry point bypassing sender-based authorization.
    fn sudo(&self, storage: &mut SimStorage, bank: &mut Bank) -> (r: Result<
        ModuleResponse,
        ModuleError,
    >)
        requires
            old(storage).wf(),
            old(bank).inv(),
        ensures
            final(storage).wf(),
            final(bank).inv(),
    ;
}

} // verus!
