use crate::code_ref::ContractCodeReference;
use crate::error::OrchError;
use crate::network::{confirmation_wait_secs, wait_secs_of};
use crate::response::{clone_coins, Coin};
use crate::state::DeployState;
use vstd::prelude::*;
use vstd::string::StringExecFns;
use vstd::utf8::encode_utf8;

verus! {

/// Whether a text parses as a bech32 account id.
pub uninterp spec fn is_account_id(s: Seq<char>) -> bool;

/// Relies on cosmrs::AccountId's `FromStr`, which decodes bech32 and checks
/// the prefix and the payload length: whether it accepts depends on the text
/// alone.
#[verifier::external_body]
fn parse_account_id(s: &String) -> (r: bool)
    ensures
        r == is_account_id(s@),
{
    <cosmrs::AccountId as std::str::FromStr>::from_str(s.as_str()).is_ok()
}

/// `address` as an account address, given whether it parses as one.
pub fn checked_account(address: &String, valid: bool) -> (r: Result<String, OrchError>)
    ensures
        r is Ok <==> valid,
        r matches Ok(a) ==> a@ == address@,
        r matches Err(e) ==> e matches OrchError::InvalidAddress(x) && x@ == address@,
{
    if valid {
        Ok(address.clone())
    } else {
        Err(OrchError::InvalidAddress(address.clone()))
    }
}

/// `address` as an account address; `InvalidAddress` where it is none.
pub fn validate_account(address: &String) -> (r: Result<String, OrchError>)
    ensures
        r is Ok <==> is_account_id(address@),
        r matches Ok(a) ==> a@ == address@,
        r matches Err(e) ==> e matches OrchError::InvalidAddress(x) && x@ == address@,
{
    let valid = parse_account_id(address);
    checked_account(address, valid)
}

/// A request to store bytecode, read from `wasm_path`.
#[derive(Debug)]
pub struct MsgStoreCode {
    pub sender: String,
    pub wasm_path: String,
}

/// A request to create a contract.
#[derive(Debug)]
pub struct MsgInstantiate {
    pub sender: String,
    pub code_id: u64,
    pub label: Option<String>,
    pub admin: Option<String>,
    pub msg: Vec<u8>,
    pub funds: Vec<Coin>,
    /// The salt of a deterministic address, if one was asked for.
    pub salt: Option<Vec<u8>>,
}

/// A request to run an entry point of a contract.
#[derive(Debug)]
pub struct MsgExecute {
    pub sender: String,
    pub contract: String,
    pub msg: Vec<u8>,
    pub funds: Vec<Coin>,
}

/// A request to move a contract to new code.
#[derive(Debug)]
pub struct MsgMigrate {
    pub sender: String,
    pub contract: String,
    pub msg: Vec<u8>,
    pub code_id: u64,
}

/// A read-only request for the state of a contract.
#[derive(Debug)]
pub struct SmartQuery {
    pub address: String,
    pub query_data: Vec<u8>,
}

/// The bytes of the extension of compiled bytecode, `.wasm`.
pub open spec fn wasm_ext() -> Seq<u8> {
    seq![46u8, 119u8, 97u8, 115u8, 109u8]
}

/// Whether `b` holds `.wasm` somewhere.
pub open spec fn has_wasm_ext(b: Seq<u8>) -> bool {
    exists|i: int| 0 <= i && i + 5 <= b.len() && #[trigger] b.subrange(i, i + 5) == wasm_ext()
}

fn contains_wasm_ext(b: &[u8]) -> (r: bool)
    ensures
        r == has_wasm_ext(b@),
{
    let n = b.len();
    if n < 5 {
        proof {
            assert(!has_wasm_ext(b@));
        }
        return false;
    }
    let mut i: usize = 0;
    while i <= n - 5
        invariant
            n == b@.len(),
            5 <= n,
            i <= n - 4,
            forall|j: int| 0 <= j < i ==> #[trigger] b@.subrange(j, j + 5) != wasm_ext(),
        decreases n - i,
    {
        if b[i] == 46u8 && b[i + 1] == 119u8 && b[i + 2] == 97u8 && b[i + 3] == 115u8 && b[i + 4]
            == 109u8 {
            proof {
                assert(b@.subrange(i as int, i + 5) =~= wasm_ext());
            }
            return true;
        }
        proof {
            assert(b@.subrange(i as int, i + 5)[0] == b@[i as int]);
            assert(b@.subrange(i as int, i + 5)[1] == b@[i + 1]);
            assert(b@.subrange(i as int, i + 5)[2] == b@[i + 2]);
            assert(b@.subrange(i as int, i + 5)[3] == b@[i + 3]);
            assert(b@.subrange(i as int, i + 5)[4] == b@[i + 4]);
        }
        i = i + 1;
    }
    false
}

/// The text `dir/path.wasm`.
pub open spec fn wasm_file_in(dir: Seq<char>, path: Seq<char>) -> Seq<char> {
    dir + seq!['/'] + path + seq!['.', 'w', 'a', 's', 'm']
}

/// The file that holds the bytecode named by `path`: `path` itself where it
/// holds `.wasm`, else `path.wasm` in `wasm_dir`; `WasmDirNotSet` where that
/// directory is needed and not given.
pub fn resolve_wasm_path(path: &String, wasm_dir: Option<&String>) -> (r: Result<String, OrchError>)
    ensures
        has_wasm_ext(encode_utf8(path@)) ==> (r matches Ok(p) && p@ == path@),
        !has_wasm_ext(encode_utf8(path@)) ==> match wasm_dir {
            Some(d) => (r matches Ok(p) && p@ == wasm_file_in(d@, path@)),
            None => r == Err::<String, OrchError>(OrchError::WasmDirNotSet),
        },
{
    if contains_wasm_ext(path.as_str().as_bytes()) {
        return Ok(path.clone());
    }
    match wasm_dir {
        None => Err(OrchError::WasmDirNotSet),
        Some(d) => {
            let mut p = d.clone();
            p.append("/");
            p.append(path.as_str());
            p.append(".wasm");
            proof {
                reveal_strlit("/");
                reveal_strlit(".wasm");
                assert(p@ =~= wasm_file_in(d@, path@));
            }
            Ok(p)
        },
    }
}

/// The live-network executor's own decisions: which message each operation
/// sends, from which account, and how long to wait after an upload. Signing,
/// broadcasting and reading files are left to the caller.
pub struct Daemon {
    pub state: DeployState,
    pub sender: String,
}

impl Daemon {
    /// An executor that sends from `sender` and keeps `state`.
    pub fn new(sender: String, state: DeployState) -> (r: Self)
        ensures
            r.sender == sender,
            r.state == state,
    {
        Daemon { state, sender }
    }

    /// Seconds to wait after an upload, fixed by the network tier.
    pub fn wait(&self) -> (r: u64)
        ensures
            r == wait_secs_of(self.state.kind),
    {
        confirmation_wait_secs(self.state.kind)
    }

    /// The store-code request for `code`: only a bytecode path is accepted.
    pub fn upload_msg<C>(&self, code: &ContractCodeReference<C>, wasm_dir: Option<&String>) -> (r:
        Result<MsgStoreCode, OrchError>)
        ensures
            code is ContractEndpoints ==> r == Err::<MsgStoreCode, OrchError>(
                OrchError::UnsupportedCodeReference,
            ),
            code matches ContractCodeReference::WasmCodePath(p) ==> match resolve_wasm_path_spec(
                *p,
                wasm_dir,
            ) {
                Ok(f) => (r matches Ok(m) && m.wasm_path@ == f && m.sender@ == self.sender@),
                Err(_) => r is Err,
            },
    {
        match code {
            ContractCodeReference::WasmCodePath(p) => {
                let wasm_path = match resolve_wasm_path(p, wasm_dir) {
                    Ok(w) => w,
                    Err(e) => return Err(e),
                };
                Ok(MsgStoreCode { sender: self.sender.clone(), wasm_path })
            },
            ContractCodeReference::ContractEndpoints(_) => Err(OrchError::UnsupportedCodeReference),
        }
    }

    /// The request to run `msg` on the contract at `contract_address`;
    /// `InvalidAddress` where the sender or the contract is no account id.
    pub fn execute_msg(&self, msg: &Vec<u8>, coins: &Vec<Coin>, contract_address: &String) -> (r:
        Result<MsgExecute, OrchError>)
        ensures
            r is Ok <==> is_account_id(self.sender@) && is_account_id(contract_address@),
            r matches Ok(m) ==> m.sender@ == self.sender@ && m.contract@ == contract_address@
                && m.msg@ == msg@ && m.funds@ == coins@,
            r matches Err(e) ==> e is InvalidAddress,
    {
        let sender = match validate_account(&self.sender) {
            Ok(s) => s,
            Err(e) => return Err(e),
        };
        let contract = match validate_account(contract_address) {
            Ok(c) => c,
            Err(e) => return Err(e),
        };
        Ok(MsgExecute { sender, contract, msg: msg.clone(), funds: clone_coins(coins) })
    }

    /// The request to create a contract of `code_id`; `InvalidAddress` where
    /// the sender or a given admin is no account id.
    pub fn instantiate_msg(
        &self,
        code_id: u64,
        init_msg: &Vec<u8>,
        label: Option<&String>,
        admin: Option<&String>,
        coins: &Vec<Coin>,
        salt: Option<&Vec<u8>>,
    ) -> (r: Result<MsgInstantiate, OrchError>)
        ensures
            r is Ok <==> is_account_id(self.sender@) && match admin {
                Some(a) => is_account_id(a@),
                None => true,
            },
            r matches Ok(m) ==> {
                &&& m.sender@ == self.sender@
                &&& m.code_id == code_id
                &&& m.msg@ == init_msg@
                &&& m.funds@ == coins@
                &&& match admin {
                    Some(a) => m.admin matches Some(x) && x@ == a@,
                    None => m.admin is None,
                }
                &&& match label {
                    Some(l) => m.label matches Some(x) && x@ == l@,
                    None => m.label is None,
                }
                &&& match salt {
                    Some(s) => m.salt matches Some(x) && x@ == s@,
                    None => m.salt is None,
                }
            },
            r matches Err(e) ==> e is InvalidAddress,
    {
        let sender = match validate_account(&self.sender) {
            Ok(s) => s,
            Err(e) => return Err(e),
        };
        let admin = match admin {
            Some(a) => match validate_account(a) {
                Ok(x) => Some(x),
                Err(e) => return Err(e),
            },
            None => None,
        };
        let label = match label {
            Some(l) => Some(l.clone()),
            None => None,
        };
        let salt = match salt {
            Some(s) => Some(s.clone()),
            None => None,
        };
        Ok(
            MsgInstantiate {
                sender,
                code_id,
                label,
                admin,
                msg: init_msg.clone(),
                funds: clone_coins(coins),
                salt,
            },
        )
    }

    /// The request to move the contract at `contract_address` to
    /// `new_code_id`; `InvalidAddress` where the sender or the contract is no
    /// account id.
    pub fn migrate_msg(&self, migrate_msg: &Vec<u8>, new_code_id: u64, contract_address: &String) -> (r:
        Result<MsgMigrate, OrchError>)
        ensures
            r is Ok <==> is_account_id(self.sender@) && is_account_id(contract_address@),
            r matches Ok(m) ==> m.sender@ == self.sender@ && m.contract@ == contract_address@
                && m.msg@ == migrate_msg@ && m.code_id == new_code_id,
            r matches Err(e) ==> e is InvalidAddress,
    {
        let sender = match validate_account(&self.sender) {
            Ok(s) => s,
            Err(e) => return Err(e),
        };
        let contract = match validate_account(contract_address) {
            Ok(c) => c,
            Err(e) => return Err(e),
        };
        Ok(MsgMigrate { sender, contract, msg: migrate_msg.clone(), code_id: new_code_id })
    }

    /// The smart query of `query_msg` against the contract at `contract_address`.
    pub fn query_request(&self, query_msg: &Vec<u8>, contract_address: &String) -> (r: SmartQuery)
        ensures
            r.address@ == contract_address@,
            r.query_data@ == query_msg@,
    {
        SmartQuery { address: contract_address.clone(), query_data: query_msg.clone() }
    }
}

/// What `resolve_wasm_path` gives, as a value.
pub open spec fn resolve_wasm_path_spec(path: String, wasm_dir: Option<&String>) -> Result<
    Seq<char>,
    OrchError,
> {
    if has_wasm_ext(encode_utf8(path@)) {
        Ok(path@)
    } else {
        match wasm_dir {
            Some(d) => Ok(wasm_file_in(d@, path@)),
            None => Err(OrchError::WasmDirNotSet),
        }
    }
}

} // verus!
