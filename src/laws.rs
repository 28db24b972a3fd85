use crate::code_ref::ContractCodeReference;
use crate::contract::{instantiate_outcome, upload_outcome};
use crate::environment::TxHandler;
use crate::error::OrchError;
use crate::mock::{index_of, Instance, Mock, NativeContract};
use crate::response::{Coin, TxResponse};
use crate::state::DeployState;
use vstd::prelude::*;

verus! {

/// A name that was never uploaded has no code id, so the store answers
/// `CodeIdNotSet` for it; once an upload through the handle succeeded, the
/// store holds for the handle's name exactly the code id the upload reported.
pub proof fn lemma_upload_records_code_id<Chain: TxHandler>(
    pre: Chain,
    post: Chain,
    name: Seq<char>,
    code: ContractCodeReference<Chain::Endpoints>,
    r: Result<TxResponse, OrchError>,
)
    requires
        exists|mid: Chain, r0: Result<TxResponse, OrchError>|
            #[trigger] upload_outcome(pre, post, name, code, mid, r0, r),
        r is Ok,
    ensures
        r->Ok_0.code_id is Some,
        post.deploy_state().code_id_of(name) == r->Ok_0.code_id,
{
    let (mid, r0) = choose|mid: Chain, r0: Result<TxResponse, OrchError>|
        #[trigger] upload_outcome(pre, post, name, code, mid, r0, r);
    assert(mid.deploy_state().is_code_id_update(&post.deploy_state(), name, r->Ok_0.code_id->Some_0));
    assert(post.deploy_state().code_id_of(name) == Some(r->Ok_0.code_id->Some_0));
}

/// Once an instantiation through the handle succeeded, the store holds for
/// the handle's name exactly the address the instantiation reported, which is
/// the address that later executions, migrations and queries through the
/// handle are sent to.
pub proof fn lemma_instantiate_records_address<Chain: TxHandler>(
    pre: Chain,
    post: Chain,
    name: Seq<char>,
    code_id: u64,
    msg: Seq<u8>,
    admin: Option<Seq<char>>,
    funds: Seq<Coin>,
    r: Result<TxResponse, OrchError>,
)
    requires
        exists|mid: Chain, r0: Result<TxResponse, OrchError>|
            #[trigger] instantiate_outcome(pre, post, name, code_id, msg, admin, funds, mid, r0, r),
        r is Ok,
    ensures
        r->Ok_0.contract_address is Some,
        post.deploy_state().address_of(name) == Some(r->Ok_0.contract_address->Some_0@),
{
    let (mid, r0) = choose|mid: Chain, r0: Result<TxResponse, OrchError>|
        #[trigger] instantiate_outcome(pre, post, name, code_id, msg, admin, funds, mid, r0, r);
    let a = r->Ok_0.contract_address->Some_0;
    assert(mid.deploy_state().is_address_update(&post.deploy_state(), name, a@));
    assert(post.deploy_state().address_of(name) == Some(a@));
}

/// Recording an address twice for one name keeps the second: nothing guards
/// against redeployment.
pub proof fn lemma_address_overwritten(
    s0: DeployState,
    s1: DeployState,
    s2: DeployState,
    name: Seq<char>,
    first: Seq<char>,
    second: Seq<char>,
)
    requires
        s0.is_address_update(&s1, name, first),
        s1.is_address_update(&s2, name, second),
    ensures
        s2.address_of(name) == Some(second),
        forall|n: Seq<char>| #[trigger] s2.code_id_of(n) == s0.code_id_of(n),
{
    assert(s2.address_of(name) == Some(second));
    assert forall|n: Seq<char>| #[trigger] s2.code_id_of(n) == s0.code_id_of(n) by {
        assert(s1.code_id_of(n) == s0.code_id_of(n));
    }
}

/// Recording a code id twice for one name keeps the second.
pub proof fn lemma_code_id_overwritten(
    s0: DeployState,
    s1: DeployState,
    s2: DeployState,
    name: Seq<char>,
    first: u64,
    second: u64,
)
    requires
        s0.is_code_id_update(&s1, name, first),
        s1.is_code_id_update(&s2, name, second),
    ensures
        s2.code_id_of(name) == Some(second),
        forall|n: Seq<char>| #[trigger] s2.address_of(n) == s0.address_of(n),
{
    assert(s2.code_id_of(name) == Some(second));
    assert forall|n: Seq<char>| #[trigger] s2.address_of(n) == s0.address_of(n) by {
        assert(s1.address_of(n) == s0.address_of(n));
    }
}

/// Two deterministic instantiations with the same code id, creator and salt
/// on two simulated chains give the same address, whatever else differs.
pub proof fn lemma_instantiate2_deterministic<C: NativeContract>(
    m1: Mock<C>,
    post1: Mock<C>,
    m2: Mock<C>,
    post2: Mock<C>,
    code_id: u64,
    msg1: Seq<u8>,
    msg2: Seq<u8>,
    label1: Option<Seq<char>>,
    label2: Option<Seq<char>>,
    admin1: Option<Seq<char>>,
    admin2: Option<Seq<char>>,
    funds1: Seq<Coin>,
    funds2: Seq<Coin>,
    salt: Seq<u8>,
    r1: Result<TxResponse, OrchError>,
    r2: Result<TxResponse, OrchError>,
)
    requires
        m1.sender@ == m2.sender@,
        m1.instantiate2_post(post1, code_id, msg1, label1, admin1, funds1, salt, r1),
        m2.instantiate2_post(post2, code_id, msg2, label2, admin2, funds2, salt, r2),
        r1 is Ok,
        r2 is Ok,
    ensures
        r1->Ok_0.contract_address is Some,
        r2->Ok_0.contract_address is Some,
        r1->Ok_0.contract_address->Some_0@ == r2->Ok_0.contract_address->Some_0@,
{
}

/// Two instantiations of the same code by the same sender on simulated
/// chains that hold equally many instances give the same address: the same
/// sequence of calls on two fresh chains yields the same addresses.
pub proof fn lemma_instantiate_deterministic<C: NativeContract>(
    m1: Mock<C>,
    post1: Mock<C>,
    m2: Mock<C>,
    post2: Mock<C>,
    code_id: u64,
    msg1: Seq<u8>,
    msg2: Seq<u8>,
    label1: Option<Seq<char>>,
    label2: Option<Seq<char>>,
    admin1: Option<Seq<char>>,
    admin2: Option<Seq<char>>,
    funds1: Seq<Coin>,
    funds2: Seq<Coin>,
    r1: Result<TxResponse, OrchError>,
    r2: Result<TxResponse, OrchError>,
)
    requires
        m1.sender@ == m2.sender@,
        m1.instances@.len() == m2.instances@.len(),
        m1.instantiate_post(post1, code_id, msg1, label1, admin1, funds1, r1),
        m2.instantiate_post(post2, code_id, msg2, label2, admin2, funds2, r2),
        r1 is Ok,
        r2 is Ok,
    ensures
        r1->Ok_0.contract_address is Some,
        r2->Ok_0.contract_address is Some,
        r1->Ok_0.contract_address->Some_0@ == r2->Ok_0.contract_address->Some_0@,
{
}

/// Two queries of the same message at the same address of one simulated
/// chain, with no transaction between them, give the same answer.
pub proof fn lemma_query_deterministic<C: NativeContract>(
    m: Mock<C>,
    msg: Seq<u8>,
    address: Seq<char>,
    r1: Result<Vec<u8>, OrchError>,
    r2: Result<Vec<u8>, OrchError>,
)
    requires
        m.query_post(msg, address, r1),
        m.query_post(msg, address, r2),
    ensures
        r1 is Ok <==> r2 is Ok,
        r1 is Ok ==> r1->Ok_0@ == r2->Ok_0@,
{
}

/// Instances listed with the same addresses are found at the same index.
proof fn lemma_index_of_same_addresses(s: Seq<Instance>, t: Seq<Instance>, address: Seq<char>)
    requires
        s.len() == t.len(),
        forall|j: int| 0 <= j < s.len() ==> s[j].address == t[j].address,
    ensures
        index_of(s, address) == index_of(t, address),
    decreases s.len(),
{
    if s.len() > 0 {
        assert(s.last().address == t.last().address);
        lemma_index_of_same_addresses(s.drop_last(), t.drop_last(), address);
    }
}

/// After a successful execution on a simulated chain, a query of the same
/// contract answers from the storage that the execution left: what the
/// contract's query gives on the storage its execute produced.
pub proof fn lemma_execute_then_query<C: NativeContract>(
    m: Mock<C>,
    post: Mock<C>,
    msg: Seq<u8>,
    funds: Seq<Coin>,
    address: Seq<char>,
    r: Result<TxResponse, OrchError>,
    query: Seq<u8>,
    answer: Result<Vec<u8>, OrchError>,
)
    requires
        m.execute_post(post, msg, funds, address, r),
        r is Ok,
        post.query_post(query, address, answer),
    ensures
        index_of(m.instances@, address) is Some,
        ({
            let inst = m.instances@[index_of(m.instances@, address)->Some_0];
            let code = m.codes@[inst.code_id - 1];
            &&& m.has_code(inst.code_id)
            &&& code.execute_spec(inst.storage@, m.sender@, msg, funds) is Ok
            &&& match code.query_spec(
                code.execute_spec(inst.storage@, m.sender@, msg, funds)->Ok_0.0,
                query,
            ) {
                Ok(v) => (answer matches Ok(w) && w@ == v),
                Err(e) => (answer matches Err(OrchError::BackendRejection(s)) && s@ == e),
            }
        }),
{
    let i = index_of(m.instances@, address)->Some_0;
    assert forall|j: int| 0 <= j < m.instances@.len() implies m.instances@[j].address
        == post.instances@[j].address by {
        if j != i {
            assert(post.instances@[j] == m.instances@[j]);
        }
    }
    lemma_index_of_same_addresses(m.instances@, post.instances@, address);
}

/// On a freshly built simulated chain the first upload of native code mints
/// code id 1, and bytecode is refused.
pub proof fn lemma_fresh_mock_first_code_id<C: NativeContract>(
    m: Mock<C>,
    post: Mock<C>,
    code: ContractCodeReference<C>,
    r: Result<TxResponse, OrchError>,
)
    requires
        m.codes@.len() == 0,
        m.upload_post(post, code, r),
    ensures
        code is ContractEndpoints ==> (r matches Ok(resp) && resp.code_id == Some(1u64)),
        code is WasmCodePath ==> r == Err::<TxResponse, OrchError>(OrchError::UnsupportedCodeReference),
{
}

} // verus!
