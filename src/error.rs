use vstd::prelude::*;

verus! {

/// Every failure that the library surfaces to a caller.
#[derive(Debug, Clone, PartialEq, Eq)]
pub enum OrchError {
    /// The store holds no address for the named contract.
    AddressNotSet(String),
    /// The store holds no code id for the named contract.
    CodeIdNotSet(String),
    /// The code reference variant is not the one the backend consumes.
    UnsupportedCodeReference,
    /// A string that should name an account is not a valid account id.
    InvalidAddress(String),
    /// The network or its transport failed.
    TransportFailure(String),
    /// A payload or response could not be encoded or decoded.
    SerializationFailure(String),
    /// The chain or ledger ran the operation and rejected it.
    BackendRejection(String),
    /// A bytecode path needs the bytecode directory, and none is configured.
    WasmDirNotSet,
    /// A transaction response lacks a field the operation needs.
    MissingResponseField(String),
}

} // verus!
