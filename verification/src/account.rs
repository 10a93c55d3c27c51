use vstd::prelude::*;

verus! {

/// Identity of an account or contract on the ledger: the 32-byte key that the
/// address wraps (as two big-endian halves) and whether it names a contract.
#[derive(Clone, Copy, Debug, PartialEq, Eq, Structural)]
pub struct Account {
    pub is_contract: bool,
    pub key_hi: u128,
    pub key_lo: u128,
}

} // verus!
