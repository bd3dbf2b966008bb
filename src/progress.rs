use vstd::prelude::*;

verus! {

/// `a + b`, held at `u64::MAX` where the sum would not fit.
pub open spec fn saturated_sum(a: u64, b: u64) -> u64 {
    if a + b > u64::MAX {
        u64::MAX
    } else {
        (a + b) as u64
    }
}

/// Whole percent of `received` out of a known, non-zero `total`, at most 100.
pub open spec fn percent_of(received: u64, total: u64) -> u64
    recommends
        total > 0,
{
    if received >= total {
        100
    } else {
        ((received as int) * 100 / (total as int)) as u64
    }
}

/// Adds one chunk to the byte count of a download; never wraps.
pub fn add_chunk(received: u64, chunk: u64) -> (r: u64)
    ensures
        r == saturated_sum(received, chunk),
        r >= received,
{
    if chunk > u64::MAX - received {
        u64::MAX
    } else {
        received + chunk
    }
}

/// The share of a download that has arrived, in whole percent. An unknown
/// total, or a total of zero bytes, gives no percentage at all rather than
/// a division by an invented size.
pub fn percent_done(received: u64, total: Option<u64>) -> (r: Option<u64>)
    ensures
        r == match total {
            Some(t) => if t > 0 { Some(percent_of(received, t)) } else { None },
            None => None,
        },
        r matches Some(p) ==> p <= 100,
{
    match total {
        None => None,
        Some(t) => {
            if t == 0 {
                None
            } else if received >= t {
                Some(100)
            } else {
                let wide: u128 = (received as u128) * 100;
                proof {
                    assert((received as int) * 100 / (t as int) <= 100) by (nonlinear_arith)
                        requires
                            received < t,
                            t > 0,
                    ;
                }
                Some((wide / (t as u128)) as u64)
            }
        },
    }
}

} // verus!
