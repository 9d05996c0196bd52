use vstd::prelude::*;

verus! {

/// Why a design request or a combination of tap vectors was refused.
#[derive(Clone, Copy, Debug, PartialEq, Eq, Structural)]
pub enum DesignError {
    /// A kernel needs at least one tap.
    NoTaps,
    /// Kernel and window taps can only be combined one for one.
    LengthMismatch { filter_len: usize, window_len: usize },
}

/// Where a tap stands relative to the kernel centre (the shift sample).
///
/// At the centre the sinc formulas are 0/0 and their limit value is used;
/// elsewhere they read the signed distance `n - shift`.
#[derive(Clone, Copy, Debug, PartialEq, Eq, Structural)]
pub enum TapPosition {
    Center,
    /// The tap lies this many samples before the centre.
    Before(usize),
    /// The tap lies this many samples after the centre.
    After(usize),
}

impl TapPosition {
    /// The signed distance `n - shift` that the position stands for.
    pub open spec fn offset(self) -> int {
        match self {
            TapPosition::Center => 0,
            TapPosition::Before(d) => -(d as int),
            TapPosition::After(d) => d as int,
        }
    }

    /// A distance is never written as zero: zero is the centre.
    pub open spec fn well_formed(self) -> bool {
        match self {
            TapPosition::Center => true,
            TapPosition::Before(d) => d > 0,
            TapPosition::After(d) => d > 0,
        }
    }
}

/// The position of tap `n` in a kernel centred on `shift`.
pub open spec fn position_of(n: int, shift: int) -> TapPosition {
    if n == shift {
        TapPosition::Center
    } else if n < shift {
        TapPosition::Before((shift - n) as usize)
    } else {
        TapPosition::After((n - shift) as usize)
    }
}

/// Classifies tap `n` against the centre `shift`.
pub fn tap_position(n: usize, shift: usize) -> (r: TapPosition)
    ensures
        r == position_of(n as int, shift as int),
        r.well_formed(),
        r.offset() == n - shift,
        r == TapPosition::Center <==> n == shift,
{
    if n == shift {
        TapPosition::Center
    } else if n < shift {
        TapPosition::Before(shift - n)
    } else {
        TapPosition::After(n - shift)
    }
}

/// The tap count and centre of a kernel; a layout always has a tap.
pub struct TapLayout {
    pub tap_count: usize,
    pub shift: usize,
}

impl TapLayout {
    pub open spec fn well_formed(&self) -> bool {
        self.tap_count >= 1
    }

    /// The span `L = tap_count - 1` over which the window formulas run
    /// their index `n` from 0 to `L`.
    pub open spec fn span(&self) -> int {
        self.tap_count - 1
    }

    /// Accepts any centre, and any tap count but zero.
    pub fn new(tap_count: usize, shift: usize) -> (r: Result<TapLayout, DesignError>)
        ensures
            tap_count == 0 <==> r == Err::<TapLayout, DesignError>(DesignError::NoTaps),
            tap_count >= 1 <==> r is Ok,
            r matches Ok(l) ==> l.tap_count == tap_count && l.shift == shift && l.well_formed(),
    {
        if tap_count == 0 {
            Err(DesignError::NoTaps)
        } else {
            Ok(TapLayout { tap_count, shift })
        }
    }

    /// The window span `tap_count - 1`.
    pub fn window_span(&self) -> (r: usize)
        requires
            self.well_formed(),
        ensures
            r == self.span(),
    {
        self.tap_count - 1
    }

    /// The position of every tap, in order from tap 0.
    pub fn positions(&self) -> (r: Vec<TapPosition>)
        ensures
            r@.len() == self.tap_count,
            forall|n: int| 0 <= n < r@.len() ==> #[trigger] r@[n] == position_of(n, self.shift as int),
    {
        let mut r: Vec<TapPosition> = Vec::new();
        let mut n: usize = 0;
        while n < self.tap_count
            invariant
                n <= self.tap_count,
                r@.len() == n,
                forall|i: int| 0 <= i < n ==> #[trigger] r@[i] == position_of(i, self.shift as int),
            decreases self.tap_count - n,
        {
            r.push(tap_position(n, self.shift));
            n = n + 1;
        }
        r
    }
}

} // verus!
