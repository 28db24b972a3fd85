use crate::address::{le_bytes, predict_address, predicted_address, to_le_bytes};
use crate::code_ref::ContractCodeReference;
use crate::contract::opt_view;
use crate::environment::TxHandler;
use crate::error::OrchError;
use crate::response::{Coin, TxResponse};
use crate::state::DeployState;
use vstd::prelude::*;
use vstd::string::StringExecFns;
use vstd::utf8::encode_utf8;

verus! {

/// The entry points of a contract implemented in-process. A contract keeps
/// its storage as bytes, which the simulated chain holds for each instance.
/// Each entry point is described by a spec function of the same inputs; an
/// implementation names what it computes there.
pub trait NativeContract {
    /// The initial storage of a new instance, or the reason it refuses.
    open spec fn instantiate_spec(&self, sender: Seq<char>, msg: Seq<u8>, funds: Seq<Coin>) -> Result<
        Seq<u8>,
        Seq<char>,
    > {
        arbitrary()
    }

    /// The new storage and the returned data, or the reason it refuses.
    open spec fn execute_spec(
        &self,
        storage: Seq<u8>,
        sender: Seq<char>,
        msg: Seq<u8>,
        funds: Seq<Coin>,
    ) -> Result<(Seq<u8>, Seq<u8>), Seq<char>> {
        arbitrary()
    }

    /// The answer to a query, or the reason it refuses.
    open spec fn query_spec(&self, storage: Seq<u8>, msg: Seq<u8>) -> Result<Seq<u8>, Seq<char>> {
        arbitrary()
    }

    /// The storage after moving an instance to this code, or the reason it refuses.
    open spec fn migrate_spec(&self, storage: Seq<u8>, msg: Seq<u8>) -> Result<Seq<u8>, Seq<char>> {
        arbitrary()
    }

    fn instantiate(&self, sender: &String, msg: &Vec<u8>, funds: &Vec<Coin>) -> (r: Result<
        Vec<u8>,
        String,
    >)
        ensures
            match r {
                Ok(v) => self.instantiate_spec(sender@, msg@, funds@) == Ok::<Seq<u8>, Seq<char>>(v@),
                Err(e) => self.instantiate_spec(sender@, msg@, funds@) == Err::<Seq<u8>, Seq<char>>(e@),
            },
    ;

    fn execute(&self, storage: &Vec<u8>, sender: &String, msg: &Vec<u8>, funds: &Vec<Coin>) -> (r:
        Result<(Vec<u8>, Vec<u8>), String>)
        ensures
            match r {
                Ok((st, data)) => self.execute_spec(storage@, sender@, msg@, funds@) == Ok::<
                    (Seq<u8>, Seq<u8>),
                    Seq<char>,
                >((st@, data@)),
                Err(e) => self.execute_spec(storage@, sender@, msg@, funds@) == Err::<
                    (Seq<u8>, Seq<u8>),
                    Seq<char>,
                >(e@),
            },
    ;

    /// Changes nothing.
    fn query(&self, storage: &Vec<u8>, msg: &Vec<u8>) -> (r: Result<Vec<u8>, String>)
        ensures
            match r {
                Ok(v) => self.query_spec(storage@, msg@) == Ok::<Seq<u8>, Seq<char>>(v@),
                Err(e) => self.query_spec(storage@, msg@) == Err::<Seq<u8>, Seq<char>>(e@),
            },
    ;

    fn migrate(&self, storage: &Vec<u8>, msg: &Vec<u8>) -> (r: Result<Vec<u8>, String>)
        ensures
            match r {
                Ok(v) => self.migrate_spec(storage@, msg@) == Ok::<Seq<u8>, Seq<char>>(v@),
                Err(e) => self.migrate_spec(storage@, msg@) == Err::<Seq<u8>, Seq<char>>(e@),
            },
    ;
}

/// The text of an optional string.
pub open spec fn opt_str(s: Option<String>) -> Option<Seq<char>> {
    match s {
        Some(x) => Some(x@),
        None => None,
    }
}

/// One contract instance on the simulated chain.
pub struct Instance {
    pub address: String,
    pub code_id: u64,
    pub admin: Option<String>,
    pub label: Option<String>,
    pub storage: Vec<u8>,
}

/// Index of the last instance at `address`.
pub open spec fn index_of(s: Seq<Instance>, address: Seq<char>) -> Option<int>
    decreases s.len(),
{
    if s.len() == 0 {
        None
    } else if s.last().address@ == address {
        Some(s.len() - 1)
    } else {
        index_of(s.drop_last(), address)
    }
}

proof fn lemma_index_of(s: Seq<Instance>, address: Seq<char>)
    ensures
        index_of(s, address) matches Some(i) ==> 0 <= i < s.len() && s[i].address@ == address,
        index_of(s, address) is None ==> forall|j: int| 0 <= j < s.len() ==> s[j].address@ != address,
    decreases s.len(),
{
    if s.len() > 0 {
        lemma_index_of(s.drop_last(), address);
        assert forall|j: int| 0 <= j < s.len() - 1 implies s[j] == s.drop_last()[j] by {}
    }
}

/// Seconds that one block adds to the simulated clock.
pub const BLOCK_TIME_SECS: u64 = 5;

/// An in-memory chain: code registered under code ids minted from 1 upward,
/// contract instances with their storage, and a block height and time that
/// move only when asked to.
pub struct Mock<C> {
    pub state: DeployState,
    pub sender: String,
    pub codes: Vec<C>,
    pub instances: Vec<Instance>,
    pub height: u64,
    pub time: u64,
}

impl<C> Mock<C> {
    /// Whether `code_id` names registered code.
    pub open spec fn has_code(&self, code_id: u64) -> bool {
        1 <= code_id <= self.codes@.len()
    }

    /// `post` is this chain with instance `i` holding `storage` under code
    /// `code_id`; its address, admin and label and everything else are kept.
    pub open spec fn replaced_instance(&self, post: Self, i: int, code_id: u64, storage: Seq<u8>) -> bool {
        &&& post.sender == self.sender
        &&& post.codes == self.codes
        &&& post.height == self.height
        &&& post.time == self.time
        &&& post.state == self.state
        &&& post.instances@.len() == self.instances@.len()
        &&& post.instances@[i].address == self.instances@[i].address
        &&& post.instances@[i].admin == self.instances@[i].admin
        &&& post.instances@[i].label == self.instances@[i].label
        &&& post.instances@[i].code_id == code_id
        &&& post.instances@[i].storage@ == storage
        &&& forall|j: int| 0 <= j < self.instances@.len() && j != i ==> post.instances@[j]
            == self.instances@[j]
    }

    /// What a successful instantiation at `address` leaves: one more instance,
    /// with the given code, admin, label and storage, and all else kept.
    pub open spec fn added_instance(
        &self,
        post: Self,
        address: Seq<char>,
        code_id: u64,
        admin: Option<Seq<char>>,
        label: Option<Seq<char>>,
        storage: Seq<u8>,
    ) -> bool {
        &&& post.sender == self.sender
        &&& post.state == self.state
        &&& opt_str(post.instances@.last().admin) == admin
        &&& opt_str(post.instances@.last().label) == label
        &&& post.instances@.last().storage@ == storage
        &&& post.codes == self.codes
        &&& post.height == self.height
        &&& post.time == self.time
        &&& post.instances@.len() == self.instances@.len() + 1
        &&& post.instances@.drop_last() == self.instances@
        &&& post.instances@.last().address@ == address
        &&& post.instances@.last().code_id == code_id
    }

    /// A chain with no code and no contracts, at height 0 and time 0.
    pub fn new(sender: String, state: DeployState) -> (r: Self)
        ensures
            r.sender == sender,
            r.state == state,
            r.codes@.len() == 0,
            r.instances@.len() == 0,
            r.height == 0,
            r.time == 0,
    {
        Mock { state, sender, codes: Vec::new(), instances: Vec::new(), height: 0, time: 0 }
    }

    fn find(&self, address: &String) -> (r: Option<usize>)
        ensures
            r matches Some(i) ==> index_of(self.instances@, address@) == Some(i as int),
            r is None ==> index_of(self.instances@, address@) is None,
    {
        let mut i: usize = self.instances.len();
        proof {
            assert(self.instances@.subrange(0, i as int) =~= self.instances@);
        }
        while i > 0
            invariant
                i <= self.instances@.len(),
                index_of(self.instances@.subrange(0, i as int), address@) == index_of(
                    self.instances@,
                    address@,
                ),
            decreases i,
        {
            proof {
                assert(self.instances@.subrange(0, i as int).drop_last() =~= self.instances@.subrange(
                    0,
                    i - 1,
                ));
            }
            if self.instances[i - 1].address == *address {
                return Some(i - 1);
            }
            i = i - 1;
        }
        None
    }

    /// Advances the chain by `amount` blocks of five seconds each; refuses where
    /// the height or the time would overflow.
    pub fn wait_blocks(&mut self, amount: u64) -> (r: Result<(), OrchError>)
        ensures
            r is Ok <==> (old(self).height + amount <= u64::MAX && old(self).time + amount
                * BLOCK_TIME_SECS <= u64::MAX),
            r is Ok ==> final(self).height == old(self).height + amount && final(self).time == old(self).time + amount * BLOCK_TIME_SECS,
            r is Err ==> final(self).height == old(self).height && final(self).time == old(self).time,
            final(self).instances == old(self).instances,
            final(self).codes == old(self).codes,
            final(self).state == old(self).state,
            final(self).sender == old(self).sender,
    {
        match (self.height.checked_add(amount), amount.checked_mul(BLOCK_TIME_SECS)) {
            (Some(h), Some(d)) => match self.time.checked_add(d) {
                Some(t) => {
                    self.height = h;
                    self.time = t;
                    Ok(())
                },
                None => Err(OrchError::BackendRejection(String::from_str("block time overflow"))),
            },
            _ => Err(OrchError::BackendRejection(String::from_str("block height overflow"))),
        }
    }

    /// Advances the chain by one block.
    pub fn next_block(&mut self) -> (r: Result<(), OrchError>)
        ensures
            r is Ok <==> (old(self).height + 1 <= u64::MAX && old(self).time + BLOCK_TIME_SECS
                <= u64::MAX),
            r is Ok ==> final(self).height == old(self).height + 1 && final(self).time == old(self).time + BLOCK_TIME_SECS,
            r is Err ==> final(self).height == old(self).height && final(self).time == old(self).time,
            final(self).instances == old(self).instances,
            final(self).codes == old(self).codes,
            final(self).state == old(self).state,
            final(self).sender == old(self).sender,
    {
        self.wait_blocks(1)
    }

    /// Advances the clock by `secs` seconds, and the height by the whole
    /// blocks that fit in them.
    pub fn wait_seconds(&mut self, secs: u64) -> (r: Result<(), OrchError>)
        ensures
            r is Ok <==> (old(self).height + secs / BLOCK_TIME_SECS <= u64::MAX && old(self).time
                + secs <= u64::MAX),
            r is Ok ==> final(self).height == old(self).height + secs / BLOCK_TIME_SECS && final(self).time == old(self).time + secs,
            r is Err ==> final(self).height == old(self).height && final(self).time == old(self).time,
            final(self).instances == old(self).instances,
            final(self).codes == old(self).codes,
            final(self).state == old(self).state,
            final(self).sender == old(self).sender,
    {
        match (self.height.checked_add(secs / BLOCK_TIME_SECS), self.time.checked_add(secs)) {
            (Some(h), Some(t)) => {
                self.height = h;
                self.time = t;
                Ok(())
            },
            _ => Err(OrchError::BackendRejection(String::from_str("block clock overflow"))),
        }
    }
}

fn opt_clone(s: &Option<String>) -> (r: Option<String>)
    ensures
        r == *s,
{
    match s {
        Some(x) => Some(x.clone()),
        None => None,
    }
}

fn opt_ref_clone(s: Option<&String>) -> (r: Option<String>)
    ensures
        match s {
            Some(x) => r == Some(*x),
            None => r is None,
        },
{
    match s {
        Some(x) => Some(x.clone()),
        None => None,
    }
}

/// `inst` with new storage and code id.
fn rebuilt(inst: &Instance, storage: Vec<u8>, code_id: u64) -> (r: Instance)
    ensures
        r.address == inst.address,
        r.admin == inst.admin,
        r.label == inst.label,
        r.storage == storage,
        r.code_id == code_id,
{
    Instance {
        address: inst.address.clone(),
        code_id,
        admin: opt_clone(&inst.admin),
        label: opt_clone(&inst.label),
        storage,
    }
}

impl<C: NativeContract> Mock<C> {
    /// What creating a contract of `code_id` at the address derived from
    /// `salt` means: refused for unknown code, a bad salt or a taken address;
    /// otherwise the native code decides, and on acceptance one more
    /// instance, holding the storage it gave, stands at the predicted address.
    pub open spec fn create_post(
        &self,
        post: Self,
        code_id: u64,
        msg: Seq<u8>,
        label: Option<Seq<char>>,
        admin: Option<Seq<char>>,
        funds: Seq<Coin>,
        salt: Seq<u8>,
        r: Result<TxResponse, OrchError>,
    ) -> bool {
        let address = predicted_address(code_id, encode_utf8(self.sender@), salt);
        if !(self.has_code(code_id) && 1 <= salt.len() <= 64 && index_of(self.instances@, address)
            is None) {
            (r matches Err(OrchError::BackendRejection(_))) && post == *self
        } else {
            match self.codes@[code_id - 1].instantiate_spec(self.sender@, msg, funds) {
                Err(e) => (r matches Err(OrchError::BackendRejection(s)) && s@ == e) && post == *self,
                Ok(storage) => {
                    &&& r matches Ok(resp)
                    &&& r->Ok_0.contract_address matches Some(a) && a@ == address
                    &&& r->Ok_0.code_id is None
                    &&& self.added_instance(post, address, code_id, admin, label, storage)
                },
            }
        }
    }

    /// Creates a contract of `code_id` at the address derived from the
    /// sender and `salt`.
    fn create(
        &mut self,
        code_id: u64,
        msg: &Vec<u8>,
        label: Option<&String>,
        admin: Option<&String>,
        funds: &Vec<Coin>,
        salt: &Vec<u8>,
    ) -> (r: Result<TxResponse, OrchError>)
        ensures
            old(self).create_post(
                *final(self),
                code_id,
                msg@,
                opt_view(label),
                opt_view(admin),
                funds@,
                salt@,
                r,
            ),
    {
        if code_id < 1 || code_id > self.codes.len() as u64 {
            return Err(OrchError::BackendRejection(String::from_str("unknown code id")));
        }
        let address = match predict_address(code_id, &self.sender, salt.as_slice()) {
            Some(a) => a,
            None => {
                return Err(OrchError::BackendRejection(String::from_str("invalid salt length")));
            },
        };
        if self.find(&address).is_some() {
            return Err(OrchError::BackendRejection(String::from_str("contract address taken")));
        }
        let idx = (code_id - 1) as usize;
        match self.codes[idx].instantiate(&self.sender, msg, funds) {
            Err(e) => Err(OrchError::BackendRejection(e)),
            Ok(storage) => {
                let inst = Instance {
                    address: address.clone(),
                    code_id,
                    admin: opt_ref_clone(admin),
                    label: opt_ref_clone(label),
                    storage,
                };
                let ghost before = self.instances@;
                self.instances.push(inst);
                proof {
                    assert(self.instances@.drop_last() =~= before);
                }
                Ok(
                    TxResponse {
                        code_id: None,
                        contract_address: Some(address),
                        events: Vec::new(),
                        data: Vec::new(),
                    },
                )
            },
        }
    }
}

impl<C: NativeContract> TxHandler for Mock<C> {
    type Endpoints = C;

    open spec fn deploy_state(&self) -> DeployState {
        self.state
    }

    open spec fn upload_post(
        &self,
        post: Self,
        code: ContractCodeReference<C>,
        r: Result<TxResponse, OrchError>,
    ) -> bool {
        match code {
            ContractCodeReference::WasmCodePath(_) => r == Err::<TxResponse, OrchError>(
                OrchError::UnsupportedCodeReference,
            ) && post == *self,
            ContractCodeReference::ContractEndpoints(c) => {
                &&& self.codes@.len() < u64::MAX ==> (r matches Ok(resp) && resp.code_id == Some(
                    (self.codes@.len() + 1) as u64,
                ) && post.codes@ == self.codes@.push(c) && post.instances == self.instances
                    && post.state == self.state && post.sender == self.sender && post.height
                    == self.height && post.time == self.time)
                &&& self.codes@.len() >= u64::MAX ==> r is Err && post == *self
            },
        }
    }

    open spec fn instantiate_post(
        &self,
        post: Self,
        code_id: u64,
        msg: Seq<u8>,
        label: Option<Seq<char>>,
        admin: Option<Seq<char>>,
        funds: Seq<Coin>,
        r: Result<TxResponse, OrchError>,
    ) -> bool {
        self.create_post(post, code_id, msg, label, admin, funds, le_bytes(self.instances@.len(), 8), r)
    }

    open spec fn instantiate2_post(
        &self,
        post: Self,
        code_id: u64,
        msg: Seq<u8>,
        label: Option<Seq<char>>,
        admin: Option<Seq<char>>,
        funds: Seq<Coin>,
        salt: Seq<u8>,
        r: Result<TxResponse, OrchError>,
    ) -> bool {
        self.create_post(post, code_id, msg, label, admin, funds, salt, r)
    }

    open spec fn execute_post(
        &self,
        post: Self,
        msg: Seq<u8>,
        funds: Seq<Coin>,
        address: Seq<char>,
        r: Result<TxResponse, OrchError>,
    ) -> bool {
        match index_of(self.instances@, address) {
            None => (r matches Err(OrchError::BackendRejection(_))) && post == *self,
            Some(i) => {
                let inst = self.instances@[i];
                if !self.has_code(inst.code_id) {
                    (r matches Err(OrchError::BackendRejection(_))) && post == *self
                } else {
                    match self.codes@[inst.code_id - 1].execute_spec(inst.storage@, self.sender@, msg, funds) {
                        Err(e) => (r matches Err(OrchError::BackendRejection(s)) && s@ == e) && post
                            == *self,
                        Ok((storage, data)) => {
                            &&& r matches Ok(resp)
                            &&& r->Ok_0.data@ == data
                            &&& r->Ok_0.code_id is None
                            &&& r->Ok_0.contract_address is None
                            &&& self.replaced_instance(post, i, inst.code_id, storage)
                        },
                    }
                }
            },
        }
    }

    open spec fn migrate_post(
        &self,
        post: Self,
        msg: Seq<u8>,
        new_code_id: u64,
        address: Seq<char>,
        r: Result<TxResponse, OrchError>,
    ) -> bool {
        match index_of(self.instances@, address) {
            None => (r matches Err(OrchError::BackendRejection(_))) && post == *self,
            Some(i) => {
                let inst = self.instances@[i];
                if !self.has_code(new_code_id) || opt_str(inst.admin) != Some(self.sender@) {
                    (r matches Err(OrchError::BackendRejection(_))) && post == *self
                } else {
                    match self.codes@[new_code_id - 1].migrate_spec(inst.storage@, msg) {
                        Err(e) => (r matches Err(OrchError::BackendRejection(s)) && s@ == e) && post
                            == *self,
                        Ok(storage) => {
                            &&& r matches Ok(resp)
                            &&& r->Ok_0.code_id is None
                            &&& r->Ok_0.contract_address is None
                            &&& self.replaced_instance(post, i, new_code_id, storage)
                        },
                    }
                }
            },
        }
    }

    open spec fn query_post(&self, msg: Seq<u8>, address: Seq<char>, r: Result<Vec<u8>, OrchError>) -> bool {
        match index_of(self.instances@, address) {
            None => r matches Err(OrchError::BackendRejection(_)),
            Some(i) => {
                let inst = self.instances@[i];
                if !self.has_code(inst.code_id) {
                    r matches Err(OrchError::BackendRejection(_))
                } else {
                    match self.codes@[inst.code_id - 1].query_spec(inst.storage@, msg) {
                        Ok(v) => r matches Ok(w) && w@ == v,
                        Err(e) => r matches Err(OrchError::BackendRejection(s)) && s@ == e,
                    }
                }
            },
        }
    }

    fn state(&self) -> (r: &DeployState) {
        &self.state
    }

    fn set_address(&mut self, name: &String, address: &String) {
        self.state.set_address(name, address);
    }

    fn set_code_id(&mut self, name: &String, code_id: u64) {
        self.state.set_code_id(name, code_id);
    }

    fn upload(&mut self, code: ContractCodeReference<C>) -> (r: Result<TxResponse, OrchError>) {
        match code {
            ContractCodeReference::WasmCodePath(_) => Err(OrchError::UnsupportedCodeReference),
            ContractCodeReference::ContractEndpoints(c) => {
                if self.codes.len() as u64 >= u64::MAX {
                    return Err(OrchError::BackendRejection(String::from_str("code ids exhausted")));
                }
                self.codes.push(c);
                let code_id = self.codes.len() as u64;
                Ok(
                    TxResponse {
                        code_id: Some(code_id),
                        contract_address: None,
                        events: Vec::new(),
                        data: Vec::new(),
                    },
                )
            },
        }
    }

    fn instantiate(
        &mut self,
        code_id: u64,
        msg: &Vec<u8>,
        label: Option<&String>,
        admin: Option<&String>,
        funds: &Vec<Coin>,
    ) -> (r: Result<TxResponse, OrchError>) {
        let salt = to_le_bytes(self.instances.len() as u64, 8);
        self.create(code_id, msg, label, admin, funds, &salt)
    }

    fn instantiate2(
        &mut self,
        code_id: u64,
        msg: &Vec<u8>,
        label: Option<&String>,
        admin: Option<&String>,
        funds: &Vec<Coin>,
        salt: &Vec<u8>,
    ) -> (r: Result<TxResponse, OrchError>) {
        self.create(code_id, msg, label, admin, funds, salt)
    }

    fn execute(&mut self, msg: &Vec<u8>, funds: &Vec<Coin>, address: &String) -> (r: Result<
        TxResponse,
        OrchError,
    >) {
        let i = match self.find(address) {
            Some(i) => i,
            None => {
                return Err(OrchError::BackendRejection(String::from_str("no contract at address")));
            },
        };
        proof {
            lemma_index_of(self.instances@, address@);
        }
        let code_id = self.instances[i].code_id;
        if code_id < 1 || code_id > self.codes.len() as u64 {
            return Err(OrchError::BackendRejection(String::from_str("unknown code id")));
        }
        let idx = (code_id - 1) as usize;
        match self.codes[idx].execute(&self.instances[i].storage, &self.sender, msg, funds) {
            Err(e) => Err(OrchError::BackendRejection(e)),
            Ok((storage, data)) => {
                let inst = rebuilt(&self.instances[i], storage, code_id);
                self.instances.set(i, inst);
                Ok(TxResponse::with_data(data))
            },
        }
    }

    fn migrate(&mut self, msg: &Vec<u8>, new_code_id: u64, address: &String) -> (r: Result<
        TxResponse,
        OrchError,
    >) {
        let i = match self.find(address) {
            Some(i) => i,
            None => {
                return Err(OrchError::BackendRejection(String::from_str("no contract at address")));
            },
        };
        proof {
            lemma_index_of(self.instances@, address@);
        }
        if new_code_id < 1 || new_code_id > self.codes.len() as u64 {
            return Err(OrchError::BackendRejection(String::from_str("unknown code id")));
        }
        let authorized = match &self.instances[i].admin {
            Some(a) => *a == self.sender,
            None => false,
        };
        if !authorized {
            return Err(OrchError::BackendRejection(String::from_str("only the admin may migrate")));
        }
        let idx = (new_code_id - 1) as usize;
        match self.codes[idx].migrate(&self.instances[i].storage, msg) {
            Err(e) => Err(OrchError::BackendRejection(e)),
            Ok(storage) => {
                let inst = rebuilt(&self.instances[i], storage, new_code_id);
                self.instances.set(i, inst);
                Ok(TxResponse::with_data(Vec::new()))
            },
        }
    }

    fn query(&self, msg: &Vec<u8>, address: &String) -> (r: Result<Vec<u8>, OrchError>) {
        let i = match self.find(address) {
            Some(i) => i,
            None => {
                return Err(OrchError::BackendRejection(String::from_str("no contract at address")));
            },
        };
        proof {
            lemma_index_of(self.instances@, address@);
        }
        let code_id = self.instances[i].code_id;
        if code_id < 1 || code_id > self.codes.len() as u64 {
            return Err(OrchError::BackendRejection(String::from_str("unknown code id")));
        }
        let idx = (code_id - 1) as usize;
        match self.codes[idx].query(&self.instances[i].storage, msg) {
            Err(e) => Err(OrchError::BackendRejection(e)),
            Ok(data) => Ok(data),
        }
    }
}

/// A borrowed chain is an environment too, so that handles on several
/// contracts can work on one chain in turn.
impl<'a, C: NativeContract> TxHandler for &'a mut Mock<C> {
    type Endpoints = C;

    open spec fn deploy_state(&self) -> DeployState {
        (**self).state
    }

    open spec fn upload_post(&self, post: Self, code: ContractCodeReference<C>, r: Result<TxResponse, OrchError>) -> bool {
        (**self).upload_post(*post, code, r)
    }

    open spec fn instantiate_post(
        &self,
        post: Self,
        code_id: u64,
        msg: Seq<u8>,
        label: Option<Seq<char>>,
        admin: Option<Seq<char>>,
        funds: Seq<Coin>,
        r: Result<TxResponse, OrchError>,
    ) -> bool {
        (**self).instantiate_post(*post, code_id, msg, label, admin, funds, r)
    }

    open spec fn instantiate2_post(
        &self,
        post: Self,
        code_id: u64,
        msg: Seq<u8>,
        label: Option<Seq<char>>,
        admin: Option<Seq<char>>,
        funds: Seq<Coin>,
        salt: Seq<u8>,
        r: Result<TxResponse, OrchError>,
    ) -> bool {
        (**self).instantiate2_post(*post, code_id, msg, label, admin, funds, salt, r)
    }

    open spec fn execute_post(
        &self,
        post: Self,
        msg: Seq<u8>,
        funds: Seq<Coin>,
        address: Seq<char>,
        r: Result<TxResponse, OrchError>,
    ) -> bool {
        (**self).execute_post(*post, msg, funds, address, r)
    }

    open spec fn migrate_post(
        &self,
        post: Self,
        msg: Seq<u8>,
        new_code_id: u64,
        address: Seq<char>,
        r: Result<TxResponse, OrchError>,
    ) -> bool {
        (**self).migrate_post(*post, msg, new_code_id, address, r)
    }

    open spec fn query_post(&self, msg: Seq<u8>, address: Seq<char>, r: Result<Vec<u8>, OrchError>) -> bool {
        (**self).query_post(msg, address, r)
    }

    fn state(&self) -> (r: &DeployState) {
        &self.state
    }

    fn set_address(&mut self, name: &String, address: &String) {
        (**self).state.set_address(name, address);
    }

    fn set_code_id(&mut self, name: &String, code_id: u64) {
        (**self).state.set_code_id(name, code_id);
    }

    fn upload(&mut self, code: ContractCodeReference<C>) -> (r: Result<TxResponse, OrchError>) {
        (**self).upload(code)
    }

    fn instantiate(&mut self, code_id: u64, msg: &Vec<u8>, label: Option<&String>, admin: Option<&String>, funds: &Vec<Coin>) -> (r: Result<TxResponse, OrchError>) {
        (**self).instantiate(code_id, msg, label, admin, funds)
    }

    fn instantiate2(&mut self, code_id: u64, msg: &Vec<u8>, label: Option<&String>, admin: Option<&String>, funds: &Vec<Coin>, salt: &Vec<u8>) -> (r: Result<TxResponse, OrchError>) {
        (**self).instantiate2(code_id, msg, label, admin, funds, salt)
    }

    fn execute(&mut self, msg: &Vec<u8>, funds: &Vec<Coin>, address: &String) -> (r: Result<TxResponse, OrchError>) {
        (**self).execute(msg, funds, address)
    }

    fn migrate(&mut self, msg: &Vec<u8>, new_code_id: u64, address: &String) -> (r: Result<TxResponse, OrchError>) {
        (**self).migrate(msg, new_code_id, address)
    }

    fn query(&self, msg: &Vec<u8>, address: &String) -> (r: Result<Vec<u8>, OrchError>) {
        (**self).query(msg, address)
    }
}

} // verus!
