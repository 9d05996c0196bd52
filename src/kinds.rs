use vstd::prelude::*;

verus! {

/// The tapering window that multiplies the ideal kernel.
#[derive(Clone, Copy, Debug, PartialEq, Eq, Structural)]
pub enum Window {
    Rectangular,
    Triangular,
    Welch,
    Sin,
    Hann,
    Hamming,
    Blackman,
    Nuttall,
    BlackmanNuttall,
    BlackmanHarris,
    FlatTop,
}

/// The display name of each window kind.
pub open spec fn window_label(w: Window) -> Seq<char> {
    match w {
        Window::Rectangular => "Rectangular"@,
        Window::Triangular => "Triangular"@,
        Window::Welch => "Welch"@,
        Window::Sin => "Sin"@,
        Window::Hann => "Hann"@,
        Window::Hamming => "Hamming"@,
        Window::Blackman => "Blackman"@,
        Window::Nuttall => "Nutall"@,
        Window::BlackmanNuttall => "Blackman Nutall"@,
        Window::BlackmanHarris => "Blackman Harris"@,
        Window::FlatTop => "Flat Top"@,
    }
}

impl Default for Window {
    fn default() -> (r: Window)
        ensures
            r == Window::Rectangular,
    {
        Window::Rectangular
    }
}

impl Window {
    /// The name under which the window kind is shown.
    pub fn label(&self) -> (r: String)
        ensures
            r@ == window_label(*self),
    {
        match self {
            Window::Rectangular => String::from_str("Rectangular"),
            Window::Triangular => String::from_str("Triangular"),
            Window::Welch => String::from_str("Welch"),
            Window::Sin => String::from_str("Sin"),
            Window::Hann => String::from_str("Hann"),
            Window::Hamming => String::from_str("Hamming"),
            Window::Blackman => String::from_str("Blackman"),
            Window::Nuttall => String::from_str("Nutall"),
            Window::BlackmanNuttall => String::from_str("Blackman Nutall"),
            Window::BlackmanHarris => String::from_str("Blackman Harris"),
            Window::FlatTop => String::from_str("Flat Top"),
        }
    }
}

/// The ideal response that the sinc kernel approximates.
#[derive(Clone, Copy, Debug, PartialEq, Eq, Structural)]
pub enum Filter {
    LowPass,
    HighPass,
    BandPass,
    BandStop,
}

/// The frequency at which a filter class is brought to unity gain.
#[derive(Clone, Copy, Debug, PartialEq, Eq, Structural)]
pub enum GainReference {
    /// Gain at zero frequency: the plain sum of the taps.
    Dc,
    /// Magnitude response at half the sampling rate.
    Nyquist,
    /// Magnitude response midway between the two cut-off frequencies.
    BandCenter,
}

/// The display name of each filter class.
pub open spec fn filter_label(f: Filter) -> Seq<char> {
    match f {
        Filter::LowPass => "Low Pass"@,
        Filter::HighPass => "High Pass"@,
        Filter::BandPass => "Band Pass"@,
        Filter::BandStop => "Band Stop"@,
    }
}

/// Low-pass and band-stop filters pass DC; high-pass is referenced at
/// Nyquist and band-pass at the centre of its band.
pub open spec fn gain_reference_of(f: Filter) -> GainReference {
    match f {
        Filter::LowPass | Filter::BandStop => GainReference::Dc,
        Filter::HighPass => GainReference::Nyquist,
        Filter::BandPass => GainReference::BandCenter,
    }
}

/// Every class but low-pass has a lower band edge.
pub open spec fn reads_low_cut(f: Filter) -> bool {
    f != Filter::LowPass
}

/// Every class but high-pass has an upper band edge.
pub open spec fn reads_high_cut(f: Filter) -> bool {
    f != Filter::HighPass
}

impl Default for Filter {
    fn default() -> (r: Filter)
        ensures
            r == Filter::LowPass,
    {
        Filter::LowPass
    }
}

impl Filter {
    /// The name under which the filter class is shown.
    pub fn label(&self) -> (r: String)
        ensures
            r@ == filter_label(*self),
    {
        match self {
            Filter::LowPass => String::from_str("Low Pass"),
            Filter::HighPass => String::from_str("High Pass"),
            Filter::BandPass => String::from_str("Band Pass"),
            Filter::BandStop => String::from_str("Band Stop"),
        }
    }

    /// Where the kernel's gain is measured before it is normalised.
    pub fn gain_reference(&self) -> (r: GainReference)
        ensures
            r == gain_reference_of(*self),
    {
        match self {
            Filter::LowPass | Filter::BandStop => GainReference::Dc,
            Filter::HighPass => GainReference::Nyquist,
            Filter::BandPass => GainReference::BandCenter,
        }
    }

    /// Whether the kernel formula of this class reads the low cut-off.
    pub fn uses_low_cut(&self) -> (r: bool)
        ensures
            r == reads_low_cut(*self),
    {
        match self {
            Filter::LowPass => false,
            _ => true,
        }
    }

    /// Whether the kernel formula of this class reads the high cut-off.
    pub fn uses_high_cut(&self) -> (r: bool)
        ensures
            r == reads_high_cut(*self),
    {
        match self {
            Filter::HighPass => false,
            _ => true,
        }
    }
}

} // verus!
