use crate::error::OrchError;
use vstd::prelude::*;
use vstd::string::StringExecFns;

verus! {

/// An amount of one denomination.
#[derive(Debug, Clone)]
pub struct Coin {
    pub denom: String,
    pub amount: u128,
}

/// What a backend hands back for a transaction.
#[derive(Debug, Clone)]
pub struct TxResponse {
    /// The code id minted by an upload, if the transaction uploaded code.
    pub code_id: Option<u64>,
    /// The address of the contract created, if the transaction instantiated one.
    pub contract_address: Option<String>,
    /// The raw event log.
    pub events: Vec<String>,
    /// Data returned by the contract.
    pub data: Vec<u8>,
}

/// A copy of `coins`.
pub fn clone_coins(coins: &Vec<Coin>) -> (r: Vec<Coin>)
    ensures
        r@ == coins@,
{
    let mut v: Vec<Coin> = Vec::new();
    let mut i: usize = 0;
    while i < coins.len()
        invariant
            i <= coins@.len(),
            v@ == coins@.subrange(0, i as int),
        decreases coins@.len() - i,
    {
        let c = Coin { denom: coins[i].denom.clone(), amount: coins[i].amount };
        v.push(c);
        i = i + 1;
        proof {
            assert(v@ =~= coins@.subrange(0, i as int));
        }
    }
    proof {
        assert(coins@.subrange(0, coins@.len() as int) =~= coins@);
    }
    v
}

impl TxResponse {
    /// A response that carries nothing but `data`.
    pub fn with_data(data: Vec<u8>) -> (r: Self)
        ensures
            r.code_id is None,
            r.contract_address is None,
            r.events@.len() == 0,
            r.data@ == data@,
    {
        TxResponse { code_id: None, contract_address: None, events: Vec::new(), data }
    }

    /// The code id this upload minted.
    pub fn uploaded_code_id(&self) -> (r: Result<u64, OrchError>)
        ensures
            r is Ok <==> self.code_id is Some,
            r matches Ok(c) ==> self.code_id == Some(c),
            r is Err ==> r matches Err(OrchError::MissingResponseField(_)),
    {
        match self.code_id {
            Some(c) => Ok(c),
            None => Err(OrchError::MissingResponseField(String::from_str("code_id"))),
        }
    }

    /// The address of the contract this instantiation created.
    pub fn instantiated_contract_address(&self) -> (r: Result<String, OrchError>)
        ensures
            r is Ok <==> self.contract_address is Some,
            r matches Ok(a) ==> self.contract_address matches Some(b) && a@ == b@,
            r is Err ==> r matches Err(OrchError::MissingResponseField(_)),
    {
        match &self.contract_address {
            Some(a) => Ok(a.clone()),
            None => Err(OrchError::MissingResponseField(String::from_str("contract_address"))),
        }
    }
}

} // verus!
