use vstd::prelude::*;
use crate::layout::DesignError;

verus! {

/// Pairs each kernel tap with the window tap at the same index, so that the
/// caller can take their product. Vectors of different lengths are refused
/// rather than truncated or padded.
pub fn pair_taps<T: Copy>(filter: &Vec<T>, window: &Vec<T>) -> (r: Result<Vec<(T, T)>, DesignError>)
    ensures
        filter@.len() != window@.len() <==> r == Err::<Vec<(T, T)>, DesignError>(
            DesignError::LengthMismatch { filter_len: filter@.len() as usize, window_len: window@.len() as usize },
        ),
        filter@.len() == window@.len() <==> r is Ok,
        r matches Ok(p) ==> p@.len() == filter@.len() && forall|i: int|
            0 <= i < p@.len() ==> #[trigger] p@[i] == (filter@[i], window@[i]),
{
    if filter.len() != window.len() {
        return Err(DesignError::LengthMismatch { filter_len: filter.len(), window_len: window.len() });
    }
    let mut r: Vec<(T, T)> = Vec::new();
    let mut i: usize = 0;
    while i < filter.len()
        invariant
            filter@.len() == window@.len(),
            i <= filter@.len(),
            r@.len() == i,
            forall|j: int| 0 <= j < i ==> #[trigger] r@[j] == (filter@[j], window@[j]),
        decreases filter@.len() - i,
    {
        r.push((filter[i], window[i]));
        i = i + 1;
    }
    Ok(r)
}

} // verus!
