//! Progress of a transfer as a whole percentage.

use vstd::prelude::*;

verus! {

/// The percentage that `so_far` bytes are of `total` bytes, rounded down and
/// never above 100; `None` while the total is unknown (zero).
pub open spec fn percent_of(total: nat, so_far: nat) -> Option<nat> {
    if total == 0 {
        None
    } else if so_far >= total {
        Some(100nat)
    } else {
        Some((so_far * 100) / total)
    }
}

/// Computes the percentage of a transfer from the byte counts the transfer
/// reports. A total of zero means that the size is unknown, and gives `None`.
pub fn percent(total: u64, so_far: u64) -> (r: Option<u8>)
    ensures
        r.is_some() == (total > 0),
        match r {
            Some(p) => percent_of(total as nat, so_far as nat) == Some(p as nat) && p <= 100,
            None => percent_of(total as nat, so_far as nat).is_none(),
        },
{
    if total == 0 {
        None
    } else if so_far >= total {
        Some(100)
    } else {
        let wide: u128 = (so_far as u128) * 100;
        let q: u128 = wide / (total as u128);
        assert(q < 100) by (nonlinear_arith)
            requires
                q == wide / (total as u128),
                wide == (so_far as u128) * 100,
                so_far < total,
                total > 0,
        ;
        Some(q as u8)
    }
}

} // verus!
