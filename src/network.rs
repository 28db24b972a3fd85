use vstd::prelude::*;

verus! {

/// The tier of a network, which fixes how long to wait after an upload.
#[derive(Debug, Clone, Copy, PartialEq, Eq)]
pub enum NetworkKind {
    Local,
    Testnet,
    Mainnet,
}

/// Seconds to wait after an upload on a network of the given tier.
pub open spec fn wait_secs_of(kind: NetworkKind) -> u64 {
    match kind {
        NetworkKind::Local => 6,
        NetworkKind::Testnet => 30,
        NetworkKind::Mainnet => 60,
    }
}

/// The fixed delay applied once after every upload, so that the stored code
/// reaches the other nodes before it is referenced.
pub fn confirmation_wait_secs(kind: NetworkKind) -> (r: u64)
    ensures
        r == wait_secs_of(kind),
        kind is Local ==> r == 6,
        kind is Testnet ==> r == 30,
        kind is Mainnet ==> r == 60,
{
    match kind {
        NetworkKind::Local => 6,
        NetworkKind::Testnet => 30,
        NetworkKind::Mainnet => 60,
    }
}

} // verus!
