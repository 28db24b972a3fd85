use vstd::prelude::*;

verus! {

/// Where the code of a contract comes from: compiled bytecode on disk, which
/// a live network consumes, or an in-process implementation of its entry
/// points, which the simulated chain consumes.
pub enum ContractCodeReference<C> {
    WasmCodePath(String),
    ContractEndpoints(C),
}

/// A contract that can say where its code comes from.
pub trait ContractSource<C> {
    /// The code reference this contract gives.
    open spec fn source_spec(&self) -> ContractCodeReference<C> {
        arbitrary()
    }

    fn source(&self) -> (r: ContractCodeReference<C>)
        ensures
            r == self.source_spec(),
    ;
}

/// The code reference that `contract` gives.
pub fn get_source<C, S: ContractSource<C>>(contract: &S) -> (r: ContractCodeReference<C>)
    ensures
        r == contract.source_spec(),
{
    contract.source()
}

} // verus!
