//! The contract's greeting: it answers with the symbol it was given.
use vstd::prelude::*;

use crate::escrow::Escrow;

verus! {

/// Soroban's `Symbol`, a short identifier; it is carried through unopened.
#[verifier::external_type_specification]
#[verifier::external_body]
pub struct ExSymbol(soroban_sdk::Symbol);

impl Escrow {
    pub fn hello(to: soroban_sdk::Symbol) -> (r: soroban_sdk::Symbol)
        ensures
            r == to,
    {
        to
    }
}

} // verus!
