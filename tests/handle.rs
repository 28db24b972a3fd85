use cosm_script::code_ref::ContractCodeReference;
use cosm_script::contract::Contract;
use cosm_script::environment::TxHandler;
use cosm_script::error::OrchError;
use cosm_script::mock::{Mock, NativeContract};
use cosm_script::network::NetworkKind;
use cosm_script::response::{Coin, TxResponse};
use cosm_script::state::DeployState;

/// A token with two balances, the owner's and the recipient's, each kept in
/// sixteen big-endian bytes. Instantiation takes the owner's opening balance
/// as decimal text, execution moves the given decimal amount to the
/// recipient, and queries read "owner" or "recipient".
struct Token;

fn balances(storage: &Vec<u8>) -> (u128, u128) {
    let mut a = [0u8; 16];
    let mut b = [0u8; 16];
    a.copy_from_slice(&storage[0..16]);
    b.copy_from_slice(&storage[16..32]);
    (u128::from_be_bytes(a), u128::from_be_bytes(b))
}

fn encode(owner: u128, recipient: u128) -> Vec<u8> {
    let mut v = owner.to_be_bytes().to_vec();
    v.extend_from_slice(&recipient.to_be_bytes());
    v
}

fn amount(msg: &Vec<u8>) -> Result<u128, String> {
    String::from_utf8(msg.clone())
        .map_err(|e| e.to_string())?
        .parse::<u128>()
        .map_err(|e| e.to_string())
}

impl NativeContract for Token {
    fn instantiate(&self, _sender: &String, msg: &Vec<u8>, _funds: &Vec<Coin>) -> Result<Vec<u8>, String> {
        Ok(encode(amount(msg)?, 0))
    }

    fn execute(
        &self,
        storage: &Vec<u8>,
        _sender: &String,
        msg: &Vec<u8>,
        _funds: &Vec<Coin>,
    ) -> Result<(Vec<u8>, Vec<u8>), String> {
        let (owner, recipient) = balances(storage);
        let n = amount(msg)?;
        if n > owner {
            return Err("insufficient funds".to_string());
        }
        Ok((encode(owner - n, recipient + n), Vec::new()))
    }

    fn query(&self, storage: &Vec<u8>, msg: &Vec<u8>) -> Result<Vec<u8>, String> {
        let (owner, recipient) = balances(storage);
        match msg.as_slice() {
            b"owner" => Ok(owner.to_string().into_bytes()),
            b"recipient" => Ok(recipient.to_string().into_bytes()),
            _ => Err("unknown query".to_string()),
        }
    }

    fn migrate(&self, storage: &Vec<u8>, _msg: &Vec<u8>) -> Result<Vec<u8>, String> {
        Ok(storage.clone())
    }
}

const SENDER: &str = "sender";

fn fresh_chain() -> Mock<Token> {
    let state = DeployState::new("mock-1".to_string(), NetworkKind::Local, "default".to_string());
    Mock::new(SENDER.to_string(), state)
}

fn token() -> Contract<Mock<Token>> {
    Contract::new(&"token".to_string(), fresh_chain())
}

fn bytes(s: &str) -> Vec<u8> {
    s.as_bytes().to_vec()
}

#[test]
fn end_to_end_upload_instantiate_execute_query() {
    let mut c = token();
    let up = c.upload(ContractCodeReference::ContractEndpoints(Token)).unwrap();
    assert_eq!(up.code_id, Some(1));
    assert_eq!(c.code_id(), Ok(1));

    let sender = SENDER.to_string();
    let inst = c.instantiate(&bytes("100"), Some(&sender), None).unwrap();
    let a = inst.contract_address.clone().unwrap();
    assert_eq!(c.address(), Ok(a.clone()));

    c.execute(&bytes("30"), None).unwrap();
    assert_eq!(c.query(&bytes("recipient")).unwrap(), bytes("30"));
    assert_eq!(c.query(&bytes("owner")).unwrap(), bytes("70"));
    // the same contract, reached directly at the stored address
    assert_eq!(c.chain.query(&bytes("recipient"), &a).unwrap(), bytes("30"));
}

#[test]
fn execute_before_instantiate_fails_without_a_call() {
    let mut c = token();
    c.upload(ContractCodeReference::ContractEndpoints(Token)).unwrap();
    let r = c.execute(&bytes("1"), None);
    assert_eq!(r.unwrap_err(), OrchError::AddressNotSet("token".to_string()));
    assert_eq!(c.chain.instances.len(), 0);
    assert_eq!(c.query(&bytes("owner")).unwrap_err(), OrchError::AddressNotSet("token".to_string()));
    assert_eq!(c.migrate(&bytes(""), 1).unwrap_err(), OrchError::AddressNotSet("token".to_string()));
}

#[test]
fn code_id_not_set_before_upload() {
    let mut c = token();
    assert_eq!(c.code_id(), Err(OrchError::CodeIdNotSet("token".to_string())));
    assert_eq!(c.address(), Err(OrchError::AddressNotSet("token".to_string())));
    let r = c.instantiate(&bytes("1"), None, None);
    assert_eq!(r.unwrap_err(), OrchError::CodeIdNotSet("token".to_string()));
    assert_eq!(c.chain.instances.len(), 0);
}

#[test]
fn reupload_and_reinstantiate_overwrite() {
    let mut c = token();
    c.upload(ContractCodeReference::ContractEndpoints(Token)).unwrap();
    c.upload(ContractCodeReference::ContractEndpoints(Token)).unwrap();
    assert_eq!(c.code_id(), Ok(2));
    let first = c.instantiate(&bytes("5"), None, None).unwrap().contract_address.unwrap();
    let second = c.instantiate(&bytes("5"), None, None).unwrap().contract_address.unwrap();
    assert_ne!(first, second);
    assert_eq!(c.address(), Ok(second));
    assert_eq!(c.chain.instances.len(), 2);
}

#[test]
fn simulated_upload_refuses_bytecode_path() {
    let mut c = token();
    let r = c.upload(ContractCodeReference::WasmCodePath("artifacts/token.wasm".to_string()));
    assert_eq!(r.unwrap_err(), OrchError::UnsupportedCodeReference);
    assert_eq!(c.code_id(), Err(OrchError::CodeIdNotSet("token".to_string())));
    assert_eq!(c.chain.codes.len(), 0);
}

#[test]
fn instantiate2_is_deterministic_on_fresh_chains() {
    let salt = bytes("salt");
    let mut addrs = Vec::new();
    for _ in 0..2 {
        let mut m = fresh_chain();
        m.upload(ContractCodeReference::ContractEndpoints(Token)).unwrap();
        let r = m.instantiate2(1, &bytes("10"), None, None, &Vec::new(), &salt).unwrap();
        addrs.push(r.contract_address.unwrap());
    }
    assert_eq!(addrs[0], addrs[1]);
    let predicted = cosm_script::address::predict_address(1, &SENDER.to_string(), &salt).unwrap();
    assert_eq!(addrs[0], predicted);
    assert_eq!(predicted.len(), 64);
}

#[test]
fn instantiate2_refuses_taken_address_and_bad_salt() {
    let mut m = fresh_chain();
    m.upload(ContractCodeReference::ContractEndpoints(Token)).unwrap();
    let salt = bytes("s");
    m.instantiate2(1, &bytes("1"), None, None, &Vec::new(), &salt).unwrap();
    let again = m.instantiate2(1, &bytes("1"), None, None, &Vec::new(), &salt);
    assert!(matches!(again, Err(OrchError::BackendRejection(_))));
    let empty = m.instantiate2(1, &bytes("1"), None, None, &Vec::new(), &Vec::new());
    assert!(matches!(empty, Err(OrchError::BackendRejection(_))));
    let long = m.instantiate2(1, &bytes("1"), None, None, &Vec::new(), &vec![7u8; 65]);
    assert!(matches!(long, Err(OrchError::BackendRejection(_))));
    assert_eq!(m.instances.len(), 1);
}

#[test]
fn instantiate_unknown_code_is_rejected() {
    let mut m = fresh_chain();
    let r = m.instantiate(1, &bytes("1"), None, None, &Vec::new());
    assert!(matches!(r, Err(OrchError::BackendRejection(_))));
    m.upload(ContractCodeReference::ContractEndpoints(Token)).unwrap();
    let r = m.instantiate(2, &bytes("1"), None, None, &Vec::new());
    assert!(matches!(r, Err(OrchError::BackendRejection(_))));
    let r = m.instantiate(0, &bytes("1"), None, None, &Vec::new());
    assert!(matches!(r, Err(OrchError::BackendRejection(_))));
}

#[test]
fn contract_refusal_leaves_state_unchanged() {
    let mut c = token();
    c.upload(ContractCodeReference::ContractEndpoints(Token)).unwrap();
    c.instantiate(&bytes("10"), None, None).unwrap();
    let r = c.execute(&bytes("11"), None);
    assert_eq!(r.unwrap_err(), OrchError::BackendRejection("insufficient funds".to_string()));
    assert_eq!(c.query(&bytes("owner")).unwrap(), bytes("10"));
}

#[test]
fn migrate_keeps_address_and_stored_code_id() {
    let mut c = token();
    let sender = SENDER.to_string();
    c.upload(ContractCodeReference::ContractEndpoints(Token)).unwrap();
    c.instantiate(&bytes("10"), Some(&sender), None).unwrap();
    let a = c.address().unwrap();
    c.chain.upload(ContractCodeReference::ContractEndpoints(Token)).unwrap();
    c.migrate(&bytes(""), 2).unwrap();
    assert_eq!(c.address(), Ok(a));
    assert_eq!(c.code_id(), Ok(1));
    assert_eq!(c.chain.instances[0].code_id, 2);
    assert_eq!(c.query(&bytes("owner")).unwrap(), bytes("10"));
    let r = c.migrate(&bytes(""), 3);
    assert!(matches!(r, Err(OrchError::BackendRejection(_))));
}

#[test]
fn migrate_without_admin_is_rejected() {
    let mut c = token();
    c.upload(ContractCodeReference::ContractEndpoints(Token)).unwrap();
    c.instantiate(&bytes("10"), None, None).unwrap();
    let r = c.migrate(&bytes(""), 1);
    assert!(matches!(r, Err(OrchError::BackendRejection(_))));
    assert_eq!(c.chain.instances[0].code_id, 1);
}

#[test]
fn blocks_advance_only_when_asked() {
    let mut m = fresh_chain();
    m.upload(ContractCodeReference::ContractEndpoints(Token)).unwrap();
    assert_eq!((m.height, m.time), (0, 0));
    m.next_block().unwrap();
    assert_eq!((m.height, m.time), (1, 5));
    m.wait_blocks(3).unwrap();
    assert_eq!((m.height, m.time), (4, 20));
    m.wait_seconds(12).unwrap();
    assert_eq!((m.height, m.time), (6, 32));
    m.height = u64::MAX;
    assert!(m.next_block().is_err());
    assert_eq!((m.height, m.time), (u64::MAX, 32));
}

#[test]
fn response_fields_must_be_present() {
    let r = TxResponse::with_data(vec![1, 2]);
    assert!(matches!(r.uploaded_code_id(), Err(OrchError::MissingResponseField(_))));
    assert!(matches!(r.instantiated_contract_address(), Err(OrchError::MissingResponseField(_))));
    let r = TxResponse { code_id: Some(9), contract_address: Some("x".to_string()), events: vec![], data: vec![] };
    assert_eq!(r.uploaded_code_id(), Ok(9));
    assert_eq!(r.instantiated_contract_address(), Ok("x".to_string()));
}

#[test]
fn store_overwrites_and_keeps_other_field() {
    let mut s = DeployState::new("c".to_string(), NetworkKind::Testnet, "d".to_string());
    let n = "a".to_string();
    s.set_code_id(&n, 4);
    s.set_address(&n, &"x".to_string());
    s.set_address(&n, &"y".to_string());
    s.set_code_id(&n, 5);
    assert_eq!(s.get_address(&n), Ok("y".to_string()));
    assert_eq!(s.get_code_id(&n), Ok(5));
    let m = "b".to_string();
    assert_eq!(s.get_address(&m), Err(OrchError::AddressNotSet("b".to_string())));
    s.set_address(&m, &"z".to_string());
    assert_eq!(s.get_code_id(&m), Err(OrchError::CodeIdNotSet("b".to_string())));
    assert_eq!(s.get_address(&n), Ok("y".to_string()));
    assert_eq!(s.entries.len(), 2);
}

#[test]
fn instantiate_is_deterministic_on_fresh_chains() {
    let mut addrs = Vec::new();
    for _ in 0..2 {
        let mut c = token();
        c.upload(ContractCodeReference::ContractEndpoints(Token)).unwrap();
        c.instantiate(&bytes("1"), None, None).unwrap();
        addrs.push(c.address().unwrap());
    }
    assert_eq!(addrs[0], addrs[1]);
    let salt = cosm_script::address::to_le_bytes(0, 8);
    let predicted = cosm_script::address::predict_address(1, &SENDER.to_string(), &salt).unwrap();
    assert_eq!(addrs[0], predicted);
}

/// Answers each execution with the total of the funds sent with it.
struct FundsEcho;

impl NativeContract for FundsEcho {
    fn instantiate(&self, _sender: &String, _msg: &Vec<u8>, funds: &Vec<Coin>) -> Result<Vec<u8>, String> {
        Ok(funds.iter().map(|c| c.amount).sum::<u128>().to_string().into_bytes())
    }

    fn execute(
        &self,
        storage: &Vec<u8>,
        _sender: &String,
        _msg: &Vec<u8>,
        funds: &Vec<Coin>,
    ) -> Result<(Vec<u8>, Vec<u8>), String> {
        let total: u128 = funds.iter().map(|c| c.amount).sum();
        Ok((storage.clone(), total.to_string().into_bytes()))
    }

    fn query(&self, storage: &Vec<u8>, _msg: &Vec<u8>) -> Result<Vec<u8>, String> {
        Ok(storage.clone())
    }

    fn migrate(&self, storage: &Vec<u8>, _msg: &Vec<u8>) -> Result<Vec<u8>, String> {
        Ok(storage.clone())
    }
}

#[test]
fn funds_reach_the_native_contract() {
    let state = DeployState::new("mock-1".to_string(), NetworkKind::Local, "default".to_string());
    let mut c = Contract::new(&"echo".to_string(), Mock::new(SENDER.to_string(), state));
    c.upload(ContractCodeReference::ContractEndpoints(FundsEcho)).unwrap();
    let funds = vec![
        Coin { denom: "ucosm".to_string(), amount: 7 },
        Coin { denom: "uatom".to_string(), amount: 5 },
    ];
    c.instantiate(&bytes("{}"), None, Some(&funds)).unwrap();
    assert_eq!(c.query(&bytes("{}")).unwrap(), bytes("12"));
    assert_eq!(c.execute(&bytes("{}"), Some(&funds)).unwrap().data, bytes("12"));
    assert_eq!(c.execute(&bytes("{}"), None).unwrap().data, bytes("0"));
}

#[test]
fn equal_queries_give_equal_answers() {
    let mut c = token();
    c.upload(ContractCodeReference::ContractEndpoints(Token)).unwrap();
    c.instantiate(&bytes("40"), None, None).unwrap();
    let first = c.query(&bytes("owner"));
    let second = c.query(&bytes("owner"));
    assert_eq!(first, second);
    assert_eq!(first.unwrap(), bytes("40"));
    assert_eq!(c.query(&bytes("nothing")).unwrap_err(), OrchError::BackendRejection("unknown query".to_string()));
}

#[test]
fn handles_share_one_chain() {
    let mut chain = fresh_chain();
    {
        let mut first = Contract::new(&"first".to_string(), &mut chain);
        first.upload(ContractCodeReference::ContractEndpoints(Token)).unwrap();
        first.instantiate(&bytes("3"), None, None).unwrap();
    }
    {
        let mut second = Contract::new(&"second".to_string(), &mut chain);
        assert_eq!(second.code_id(), Err(OrchError::CodeIdNotSet("second".to_string())));
        assert_eq!(second.upload(ContractCodeReference::ContractEndpoints(Token)).unwrap().code_id, Some(2));
        second.instantiate(&bytes("4"), None, None).unwrap();
        assert_eq!(second.query(&bytes("owner")).unwrap(), bytes("4"));
    }
    let first = Contract::new(&"first".to_string(), &mut chain);
    assert_eq!(first.code_id(), Ok(1));
    assert_eq!(first.query(&bytes("owner")).unwrap(), bytes("3"));
    assert_eq!(chain.instances.len(), 2);
}
