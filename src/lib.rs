//! Design-side logic of a windowed-sinc FIR filter designer: the filter
//! classes and window kinds, which gain reference each class normalises
//! against, where each tap sits relative to the kernel centre, and the
//! pairing of kernel and window taps.
mod combine;
mod kinds;
mod layout;
mod spectrum;

pub use combine::pair_taps;
pub use kinds::{Filter, GainReference, Window};
pub use layout::{tap_position, DesignError, TapLayout, TapPosition};
pub use spectrum::{spectrum_bin_count, DEFAULT_SPECTRUM_LEN};
