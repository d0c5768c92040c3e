use vstd::prelude::*;

use crate::errors::{Result, TaError};

verus! {

/// Accepts a period that is usable as a window length or smoothing horizon.
pub fn check_period(period: usize) -> (r: Result<usize>)
    ensures
        period > 0 <==> r is Ok,
        r is Ok ==> r == Ok::<usize, TaError>(period),
        r is Err ==> r == Err::<usize, TaError>(TaError::InvalidParameter),
{
    if period == 0 {
        Err(TaError::InvalidParameter)
    } else {
        Ok(period)
    }
}

/// Accepts the periods of an indicator built from a fast and a slow average,
/// which requires both to be positive and the fast one to be the shorter.
pub fn check_fast_slow(fast: usize, slow: usize) -> (r: Result<(usize, usize)>)
    ensures
        r is Ok <==> 0 < fast < slow,
        r is Ok ==> r == Ok::<(usize, usize), TaError>((fast, slow)),
        r is Err ==> r == Err::<(usize, usize), TaError>(TaError::InvalidParameter),
{
    if fast == 0 || fast >= slow {
        Err(TaError::InvalidParameter)
    } else {
        Ok((fast, slow))
    }
}

} // verus!
