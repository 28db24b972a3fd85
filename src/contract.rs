use crate::code_ref::ContractCodeReference;
use crate::environment::TxHandler;
use crate::error::OrchError;
use crate::response::{Coin, TxResponse};
use vstd::prelude::*;

verus! {

/// A handle on one named contract in an execution environment. The name is
/// the key under which the environment's store keeps the contract's address
/// and code id; every operation goes through the handle, which keeps the
/// store up to date. A handle either owns its environment or borrows it
/// (`Contract<&mut Mock<C>>`), so that several handles share one chain.
pub struct Contract<Chain> {
    /// Name of the contract, used to look up its address and code id.
    pub name: String,
    /// The environment that runs the contract's transactions and queries.
    pub chain: Chain,
}

/// What the handle's upload did: the environment uploaded `code` (from `pre`
/// to `mid`, answering `r0`), and a minted code id was then recorded for `name`.
pub open spec fn upload_outcome<Chain: TxHandler>(
    pre: Chain,
    post: Chain,
    name: Seq<char>,
    code: ContractCodeReference<Chain::Endpoints>,
    mid: Chain,
    r0: Result<TxResponse, OrchError>,
    r: Result<TxResponse, OrchError>,
) -> bool {
    &&& pre.upload_post(mid, code, r0)
    &&& mid.deploy_state() == pre.deploy_state()
    &&& r0 is Err ==> r == r0 && post == mid
    &&& r0 matches Ok(resp) ==> match resp.code_id {
        Some(c) => r == r0 && mid.deploy_state().is_code_id_update(&post.deploy_state(), name, c),
        None => (r matches Err(OrchError::MissingResponseField(_))) && post == mid,
    }
}

/// What the handle's instantiation did: the environment instantiated code
/// `code_id` (from `pre` to `mid`, answering `r0`), and the new address was
/// then recorded for `name`.
pub open spec fn instantiate_outcome<Chain: TxHandler>(
    pre: Chain,
    post: Chain,
    name: Seq<char>,
    code_id: u64,
    msg: Seq<u8>,
    admin: Option<Seq<char>>,
    funds: Seq<Coin>,
    mid: Chain,
    r0: Result<TxResponse, OrchError>,
    r: Result<TxResponse, OrchError>,
) -> bool {
    &&& pre.instantiate_post(mid, code_id, msg, None, admin, funds, r0)
    &&& mid.deploy_state() == pre.deploy_state()
    &&& r0 is Err ==> r == r0 && post == mid
    &&& r0 matches Ok(resp) ==> match resp.contract_address {
        Some(a) => r == r0 && mid.deploy_state().is_address_update(&post.deploy_state(), name, a@),
        None => (r matches Err(OrchError::MissingResponseField(_))) && post == mid,
    }
}

/// The funds a handle operation sends: those given, or none.
pub open spec fn funds_of(coins: Option<&Vec<Coin>>) -> Seq<Coin> {
    match coins {
        Some(c) => c@,
        None => Seq::empty(),
    }
}

/// The view of an optional borrowed string.
pub open spec fn opt_view(s: Option<&String>) -> Option<Seq<char>> {
    match s {
        Some(x) => Some(x@),
        None => None,
    }
}

impl<Chain: TxHandler> Contract<Chain> {
    /// A handle on the contract called `name` in `chain`.
    pub fn new(name: &String, chain: Chain) -> (r: Self)
        ensures
            r.name@ == name@,
            r.chain == chain,
    {
        Contract { name: name.clone(), chain }
    }

    /// The stored address of this contract; `AddressNotSet` before it was instantiated.
    pub fn address(&self) -> (r: Result<String, OrchError>)
        ensures
            r is Ok <==> self.chain.deploy_state().address_of(self.name@) is Some,
            r matches Ok(a) ==> Some(a@) == self.chain.deploy_state().address_of(self.name@),
            r matches Err(e) ==> e matches OrchError::AddressNotSet(n) && n@ == self.name@,
    {
        self.chain.state().get_address(&self.name)
    }

    /// The stored code id of this contract; `CodeIdNotSet` before it was uploaded.
    pub fn code_id(&self) -> (r: Result<u64, OrchError>)
        ensures
            r is Ok <==> self.chain.deploy_state().code_id_of(self.name@) is Some,
            r matches Ok(c) ==> Some(c) == self.chain.deploy_state().code_id_of(self.name@),
            r matches Err(e) ==> e matches OrchError::CodeIdNotSet(n) && n@ == self.name@,
    {
        self.chain.state().get_code_id(&self.name)
    }

    fn set_address(&mut self, address: &String)
        ensures
            final(self).name == old(self).name,
            old(self).chain.deploy_state().is_address_update(
                &final(self).chain.deploy_state(),
                old(self).name@,
                address@,
            ),
    {
        self.chain.set_address(&self.name, address);
    }

    fn set_code_id(&mut self, code_id: u64)
        ensures
            final(self).name == old(self).name,
            old(self).chain.deploy_state().is_code_id_update(
                &final(self).chain.deploy_state(),
                old(self).name@,
                code_id,
            ),
    {
        self.chain.set_code_id(&self.name, code_id);
    }

    /// Executes `msg` on this contract at its stored address. Without a stored
    /// address it fails with `AddressNotSet` and calls nothing.
    pub fn execute(&mut self, msg: &Vec<u8>, coins: Option<&Vec<Coin>>) -> (r: Result<
        TxResponse,
        OrchError,
    >)
        ensures
            final(self).name == old(self).name,
            old(self).chain.deploy_state().address_of(old(self).name@) is None ==> (r matches Err(
                OrchError::AddressNotSet(n),
            ) && n@ == old(self).name@) && *final(self) == *old(self),
            old(self).chain.deploy_state().address_of(old(self).name@) matches Some(a) ==> old(self).chain.execute_post(final(self).chain, msg@, funds_of(coins), a, r),
            final(self).chain.deploy_state() == old(self).chain.deploy_state(),
    {
        let address = match self.address() {
            Ok(a) => a,
            Err(e) => return Err(e),
        };
        let empty: Vec<Coin> = Vec::new();
        let funds = match coins {
            Some(c) => c,
            None => &empty,
        };
        self.chain.execute(msg, funds, &address)
    }

    /// Instantiates this contract from its stored code id and records the
    /// address the environment reports. Without a stored code id it fails with
    /// `CodeIdNotSet` and calls nothing; a response without an address is an
    /// error.
    pub fn instantiate(&mut self, msg: &Vec<u8>, admin: Option<&String>, coins: Option<&Vec<Coin>>) -> (r:
        Result<TxResponse, OrchError>)
        ensures
            final(self).name == old(self).name,
            old(self).chain.deploy_state().code_id_of(old(self).name@) is None ==> (r matches Err(
                OrchError::CodeIdNotSet(n),
            ) && n@ == old(self).name@) && *final(self) == *old(self),
            old(self).chain.deploy_state().code_id_of(old(self).name@) is Some ==> exists|
                mid: Chain,
                r0: Result<TxResponse, OrchError>,
            |
                #[trigger] instantiate_outcome(
                    old(self).chain,
                    final(self).chain,
                    old(self).name@,
                    old(self).chain.deploy_state().code_id_of(old(self).name@)->Some_0,
                    msg@,
                    opt_view(admin),
                    funds_of(coins),
                    mid,
                    r0,
                    r,
                ),
    {
        let code_id = match self.code_id() {
            Ok(c) => c,
            Err(e) => return Err(e),
        };
        let empty: Vec<Coin> = Vec::new();
        let funds = match coins {
            Some(c) => c,
            None => &empty,
        };
        assert(Some(code_id) == old(self).chain.deploy_state().code_id_of(old(self).name@));
        let res = self.chain.instantiate(code_id, msg, None, admin, funds);
        let ghost mid = self.chain;
        let ghost r0 = res;
        let resp = match res {
            Ok(resp) => resp,
            Err(e) => {
                assert(instantiate_outcome(
                    old(self).chain,
                    self.chain,
                    old(self).name@,
                    old(self).chain.deploy_state().code_id_of(old(self).name@)->Some_0,
                    msg@,
                    opt_view(admin),
                    funds_of(coins),
                    mid,
                    r0,
                    Err(e),
                ));
                return Err(e);
            },
        };
        let address = match resp.instantiated_contract_address() {
            Ok(a) => a,
            Err(e) => {
                assert(instantiate_outcome(
                    old(self).chain,
                    self.chain,
                    old(self).name@,
                    old(self).chain.deploy_state().code_id_of(old(self).name@)->Some_0,
                    msg@,
                    opt_view(admin),
                    funds_of(coins),
                    mid,
                    r0,
                    Err(e),
                ));
                return Err(e);
            },
        };
        self.set_address(&address);
        assert(instantiate_outcome(
            old(self).chain,
            self.chain,
            old(self).name@,
            old(self).chain.deploy_state().code_id_of(old(self).name@)->Some_0,
            msg@,
            opt_view(admin),
            funds_of(coins),
            mid,
            r0,
            Ok(resp),
        ));
        Ok(resp)
    }

    /// Uploads `code` and records the code id the environment reports; a
    /// response without a code id is an error.
    pub fn upload(&mut self, code: ContractCodeReference<Chain::Endpoints>) -> (r: Result<
        TxResponse,
        OrchError,
    >)
        ensures
            final(self).name == old(self).name,
            exists|mid: Chain, r0: Result<TxResponse, OrchError>|
                #[trigger] upload_outcome(
                    old(self).chain,
                    final(self).chain,
                    old(self).name@,
                    code,
                    mid,
                    r0,
                    r,
                ),
    {
        let ghost code0 = code;
        let res = self.chain.upload(code);
        let ghost mid = self.chain;
        let ghost r0 = res;
        let resp = match res {
            Ok(resp) => resp,
            Err(e) => {
                assert(upload_outcome(old(self).chain, self.chain, self.name@, code0, mid, r0, Err(e)));
                return Err(e);
            },
        };
        let code_id = match resp.uploaded_code_id() {
            Ok(c) => c,
            Err(e) => {
                assert(upload_outcome(old(self).chain, self.chain, self.name@, code0, mid, r0, Err(e)));
                return Err(e);
            },
        };
        self.set_code_id(code_id);
        assert(upload_outcome(old(self).chain, self.chain, self.name@, code0, mid, r0, Ok(resp)));
        Ok(resp)
    }

    /// Queries this contract at its stored address. Without a stored address
    /// it fails with `AddressNotSet` and calls nothing.
    pub fn query(&self, msg: &Vec<u8>) -> (r: Result<Vec<u8>, OrchError>)
        ensures
            self.chain.deploy_state().address_of(self.name@) is None ==> (r matches Err(
                OrchError::AddressNotSet(n),
            ) && n@ == self.name@),
            self.chain.deploy_state().address_of(self.name@) matches Some(a) ==> self.chain.query_post(
                msg@,
                a,
                r,
            ),
    {
        let address = match self.address() {
            Ok(a) => a,
            Err(e) => return Err(e),
        };
        self.chain.query(msg, &address)
    }

    /// Migrates this contract, at its stored address, to `new_code_id`. The
    /// store is left as it is: it keeps the code id of the last upload.
    pub fn migrate(&mut self, msg: &Vec<u8>, new_code_id: u64) -> (r: Result<TxResponse, OrchError>)
        ensures
            final(self).name == old(self).name,
            old(self).chain.deploy_state().address_of(old(self).name@) is None ==> (r matches Err(
                OrchError::AddressNotSet(n),
            ) && n@ == old(self).name@) && *final(self) == *old(self),
            old(self).chain.deploy_state().address_of(old(self).name@) matches Some(a) ==> old(self).chain.migrate_post(final(self).chain, msg@, new_code_id, a, r),
            final(self).chain.deploy_state() == old(self).chain.deploy_state(),
    {
        let address = match self.address() {
            Ok(a) => a,
            Err(e) => return Err(e),
        };
        self.chain.migrate(msg, new_code_id, &address)
    }
}

} // verus!
