use crate::code_ref::ContractCodeReference;
use crate::error::OrchError;
use crate::response::{Coin, TxResponse};
use crate::state::DeployState;
use vstd::prelude::*;

verus! {

/// An execution environment: a backend that uploads code and instantiates,
/// executes, migrates and queries contracts, and that holds the deployment
/// store of the contracts it runs.
///
/// Each operation is described by a predicate that the backend defines; no
/// operation but `set_address` and `set_code_id` touches the store. The
/// default predicates claim nothing, and the default store is unknown: a
/// backend that keeps them promises nothing of its operations.
pub trait TxHandler: Sized {
    /// The in-process code form this backend accepts in an upload.
    type Endpoints;

    /// The deployment store of this environment.
    open spec fn deploy_state(&self) -> DeployState {
        arbitrary()
    }

    /// What an upload of `code` from `self` to `post`, returning `r`, means.
    open spec fn upload_post(
        &self,
        post: Self,
        code: ContractCodeReference<Self::Endpoints>,
        r: Result<TxResponse, OrchError>,
    ) -> bool {
        true
    }

    /// What an instantiation means.
    open spec fn instantiate_post(
        &self,
        post: Self,
        code_id: u64,
        msg: Seq<u8>,
        label: Option<Seq<char>>,
        admin: Option<Seq<char>>,
        funds: Seq<Coin>,
        r: Result<TxResponse, OrchError>,
    ) -> bool {
        true
    }

    /// What an instantiation at an address derived from `salt` means.
    open spec fn instantiate2_post(
        &self,
        post: Self,
        code_id: u64,
        msg: Seq<u8>,
        label: Option<Seq<char>>,
        admin: Option<Seq<char>>,
        funds: Seq<Coin>,
        salt: Seq<u8>,
        r: Result<TxResponse, OrchError>,
    ) -> bool {
        true
    }

    /// What an execution on the contract at `address` means.
    open spec fn execute_post(
        &self,
        post: Self,
        msg: Seq<u8>,
        funds: Seq<Coin>,
        address: Seq<char>,
        r: Result<TxResponse, OrchError>,
    ) -> bool {
        true
    }

    /// What a migration of the contract at `address` to `new_code_id` means.
    open spec fn migrate_post(
        &self,
        post: Self,
        msg: Seq<u8>,
        new_code_id: u64,
        address: Seq<char>,
        r: Result<TxResponse, OrchError>,
    ) -> bool {
        true
    }

    /// What a query of the contract at `address` returning `r` means.
    open spec fn query_post(&self, msg: Seq<u8>, address: Seq<char>, r: Result<Vec<u8>, OrchError>) -> bool {
        true
    }

    /// The deployment store.
    fn state(&self) -> (r: &DeployState)
        ensures
            *r == self.deploy_state(),
    ;

    /// Records the address of `name` in the store.
    fn set_address(&mut self, name: &String, address: &String)
        ensures
            old(self).deploy_state().is_address_update(&final(self).deploy_state(), name@, address@),
    ;

    /// Records the code id of `name` in the store.
    fn set_code_id(&mut self, name: &String, code_id: u64)
        ensures
            old(self).deploy_state().is_code_id_update(&final(self).deploy_state(), name@, code_id),
    ;

    /// Uploads code and mints a code id for it.
    fn upload(&mut self, code: ContractCodeReference<Self::Endpoints>) -> (r: Result<
        TxResponse,
        OrchError,
    >)
        ensures
            old(self).upload_post(*final(self), code, r),
            final(self).deploy_state() == old(self).deploy_state(),
    ;

    /// Creates a contract from uploaded code.
    fn instantiate(
        &mut self,
        code_id: u64,
        msg: &Vec<u8>,
        label: Option<&String>,
        admin: Option<&String>,
        funds: &Vec<Coin>,
    ) -> (r: Result<TxResponse, OrchError>)
        ensures
            old(self).instantiate_post(
                *final(self),
                code_id,
                msg@,
                match label {
                    Some(l) => Some(l@),
                    None => None,
                },
                match admin {
                    Some(a) => Some(a@),
                    None => None,
                },
                funds@,
                r,
            ),
            final(self).deploy_state() == old(self).deploy_state(),
    ;

    /// Creates a contract at the address derived from its code, its creator
    /// and `salt`.
    fn instantiate2(
        &mut self,
        code_id: u64,
        msg: &Vec<u8>,
        label: Option<&String>,
        admin: Option<&String>,
        funds: &Vec<Coin>,
        salt: &Vec<u8>,
    ) -> (r: Result<TxResponse, OrchError>)
        ensures
            old(self).instantiate2_post(
                *final(self),
                code_id,
                msg@,
                match label {
                    Some(l) => Some(l@),
                    None => None,
                },
                match admin {
                    Some(a) => Some(a@),
                    None => None,
                },
                funds@,
                salt@,
                r,
            ),
            final(self).deploy_state() == old(self).deploy_state(),
    ;

    /// Runs a state-changing entry point of the contract at `address`.
    fn execute(&mut self, msg: &Vec<u8>, funds: &Vec<Coin>, address: &String) -> (r: Result<
        TxResponse,
        OrchError,
    >)
        ensures
            old(self).execute_post(*final(self), msg@, funds@, address@, r),
            final(self).deploy_state() == old(self).deploy_state(),
    ;

    /// Moves the contract at `address` to the code `new_code_id`.
    fn migrate(&mut self, msg: &Vec<u8>, new_code_id: u64, address: &String) -> (r: Result<
        TxResponse,
        OrchError,
    >)
        ensures
            old(self).migrate_post(*final(self), msg@, new_code_id, address@, r),
            final(self).deploy_state() == old(self).deploy_state(),
    ;

    /// Reads from the contract at `address`; changes nothing.
    fn query(&self, msg: &Vec<u8>, address: &String) -> (r: Result<Vec<u8>, OrchError>)
        ensures
            self.query_post(msg@, address@, r),
    ;
}

} // verus!
