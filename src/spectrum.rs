use vstd::prelude::*;

verus! {

/// The analysis length `M` used when the caller names none: the spectrum
/// is read off a zero-padded 256-point DFT.
pub const DEFAULT_SPECTRUM_LEN: usize = 256;

/// The number of frequency bins `M / 2` in the magnitude spectrum of an
/// `M`-point analysis: bins `0 .. M/2` cover DC up to below Nyquist. It does
/// not depend on how many taps are analysed, which are zero-padded to `M`.
pub fn spectrum_bin_count(analysis_len: usize) -> (r: usize)
    ensures
        r == analysis_len / 2,
        2 * r <= analysis_len,
{
    analysis_len / 2
}

} // verus!
