use vstd::prelude::*;

verus! {

/// Fee, in base units of the fee token, for an update in the reduced tier.
pub const SPEC_FEE: u64 = 33_333_000_000_000;

/// Fee, in base units of the fee token, for an update in the standard tier.
pub const STANDARD_FEE: u64 = 38_333_000_000_000;

/// The fee owed: none for a removal, else the amount of the chosen tier.
pub open spec fn fee_of(is_update: bool, spec: bool) -> Option<u64> {
    if !is_update {
        None
    } else if spec {
        Some(33_333_000_000_000)
    } else {
        Some(38_333_000_000_000)
    }
}

/// The amount to move from the claimer to the pool, if any.
pub fn update_fee(is_update: bool, spec: bool) -> (r: Option<u64>)
    ensures
        r == fee_of(is_update, spec),
{
    if is_update {
        if spec {
            Some(SPEC_FEE)
        } else {
            Some(STANDARD_FEE)
        }
    } else {
        None
    }
}

} // verus!
