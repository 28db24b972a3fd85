use cosm_script::address::{hex_encode, native_code_checksum, predict_address, to_le_bytes};
use cosm_script::code_ref::{get_source, ContractCodeReference, ContractSource};
use cosm_script::daemon::{checked_account, resolve_wasm_path, validate_account, Daemon};
use cosm_script::error::OrchError;
use cosm_script::network::{confirmation_wait_secs, NetworkKind};
use cosm_script::response::Coin;
use cosm_script::state::DeployState;

fn account(prefix: &str, fill: u8) -> String {
    cosmrs::AccountId::new(prefix, &[fill; 20]).unwrap().to_string()
}

fn daemon(kind: NetworkKind, sender: String) -> Daemon {
    Daemon::new(sender, DeployState::new("chain-1".to_string(), kind, "default".to_string()))
}

#[test]
fn confirmation_wait_by_tier() {
    assert_eq!(confirmation_wait_secs(NetworkKind::Local), 6);
    assert_eq!(confirmation_wait_secs(NetworkKind::Testnet), 30);
    assert_eq!(confirmation_wait_secs(NetworkKind::Mainnet), 60);
    assert_eq!(daemon(NetworkKind::Mainnet, account("juno", 1)).wait(), 60);
    assert_eq!(daemon(NetworkKind::Local, account("juno", 1)).wait(), 6);
}

#[test]
fn live_upload_refuses_native_endpoints() {
    let d = daemon(NetworkKind::Testnet, account("juno", 1));
    let code: ContractCodeReference<u8> = ContractCodeReference::ContractEndpoints(0);
    assert!(matches!(d.upload_msg(&code, None), Err(OrchError::UnsupportedCodeReference)));
}

#[test]
fn live_upload_resolves_bytecode_path() {
    let d = daemon(NetworkKind::Testnet, account("juno", 1));
    let dir = "/opt/wasm".to_string();
    let code: ContractCodeReference<u8> = ContractCodeReference::WasmCodePath("token".to_string());
    let m = d.upload_msg(&code, Some(&dir)).unwrap();
    assert_eq!(m.wasm_path, "/opt/wasm/token.wasm");
    assert_eq!(m.sender, account("juno", 1));
    let code: ContractCodeReference<u8> = ContractCodeReference::WasmCodePath("a/b.wasm".to_string());
    assert_eq!(d.upload_msg(&code, None).unwrap().wasm_path, "a/b.wasm");
}

#[test]
fn wasm_path_resolution() {
    let dir = "dir".to_string();
    assert_eq!(resolve_wasm_path(&"x.wasm".to_string(), None), Ok("x.wasm".to_string()));
    assert_eq!(resolve_wasm_path(&"x".to_string(), Some(&dir)), Ok("dir/x.wasm".to_string()));
    assert_eq!(resolve_wasm_path(&"x.was".to_string(), Some(&dir)), Ok("dir/x.was.wasm".to_string()));
    assert_eq!(resolve_wasm_path(&"x".to_string(), None), Err(OrchError::WasmDirNotSet));
}

#[test]
fn account_validation() {
    let good = account("cosmos", 3);
    assert_eq!(validate_account(&good), Ok(good.clone()));
    let bad = "not-an-address".to_string();
    assert_eq!(validate_account(&bad), Err(OrchError::InvalidAddress(bad.clone())));
    assert_eq!(checked_account(&bad, true), Ok(bad.clone()));
    assert_eq!(checked_account(&good, false), Err(OrchError::InvalidAddress(good.clone())));
}

#[test]
fn execute_msg_checks_addresses() {
    let d = daemon(NetworkKind::Local, account("juno", 1));
    let target = account("juno", 2);
    let funds = vec![Coin { denom: "ujuno".to_string(), amount: 5 }];
    let m = d.execute_msg(&b"{}".to_vec(), &funds, &target).unwrap();
    assert_eq!(m.contract, target);
    assert_eq!(m.msg, b"{}".to_vec());
    assert_eq!(m.funds.len(), 1);
    assert_eq!(m.funds[0].amount, 5);
    let bad = "juno1nope".to_string();
    assert_eq!(d.execute_msg(&b"{}".to_vec(), &funds, &bad).unwrap_err(), OrchError::InvalidAddress(bad.clone()));
    assert!(matches!(d.migrate_msg(&b"{}".to_vec(), 3, &bad), Err(OrchError::InvalidAddress(_))));
    let m = d.migrate_msg(&b"{}".to_vec(), 3, &target).unwrap();
    assert_eq!(m.code_id, 3);
    let bad_sender = daemon(NetworkKind::Local, "someone".to_string());
    assert!(matches!(bad_sender.execute_msg(&b"{}".to_vec(), &funds, &target), Err(OrchError::InvalidAddress(_))));
}

#[test]
fn instantiate_msg_refuses_unparsable_admin() {
    let d = daemon(NetworkKind::Local, account("juno", 1));
    let bad = "admin?".to_string();
    let r = d.instantiate_msg(7, &b"{}".to_vec(), None, Some(&bad), &vec![], None);
    assert_eq!(r.unwrap_err(), OrchError::InvalidAddress(bad));
    let admin = account("juno", 9);
    let label = "token".to_string();
    let salt = vec![1u8, 2];
    let m = d.instantiate_msg(7, &b"{}".to_vec(), Some(&label), Some(&admin), &vec![], Some(&salt)).unwrap();
    assert_eq!(m.code_id, 7);
    assert_eq!(m.admin, Some(admin));
    assert_eq!(m.label, Some(label));
    assert_eq!(m.salt, Some(salt));
    let q = d.query_request(&b"{\"balance\":{}}".to_vec(), &account("juno", 2));
    assert_eq!(q.address, account("juno", 2));
}

#[test]
fn hex_and_bytes() {
    assert_eq!(hex_encode(&[0x0f, 0xa0, 0x00]), "0fa000");
    assert_eq!(hex_encode(&[]), "");
    assert_eq!(to_le_bytes(258, 3), vec![2, 1, 0]);
    let c = native_code_checksum(1);
    assert_eq!(c.len(), 32);
    assert_eq!(c[0], 1);
    assert!(c[1..].iter().all(|b| *b == 0));
}

#[test]
fn predicted_address_depends_on_inputs() {
    let creator = "creator".to_string();
    let a = predict_address(1, &creator, b"salt").unwrap();
    assert_eq!(a.len(), 64);
    assert_eq!(predict_address(1, &creator, b"salt").unwrap(), a);
    assert_ne!(predict_address(2, &creator, b"salt").unwrap(), a);
    assert_ne!(predict_address(1, &"other".to_string(), b"salt").unwrap(), a);
    assert_ne!(predict_address(1, &creator, b"pepper").unwrap(), a);
    assert!(predict_address(1, &creator, b"").is_none());
    assert!(predict_address(1, &creator, &[0u8; 65]).is_none());
    assert!(predict_address(1, &creator, &[0u8; 64]).is_some());
}

struct Bytecode;

impl ContractSource<u8> for Bytecode {
    fn source(&self) -> ContractCodeReference<u8> {
        ContractCodeReference::WasmCodePath("token".to_string())
    }
}

#[test]
fn source_is_what_the_contract_gives() {
    assert!(matches!(get_source(&Bytecode), ContractCodeReference::WasmCodePath(p) if p == "token"));
}
