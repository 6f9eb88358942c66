use vstd::prelude::*;

verus! {

/// Largest window length an indicator can be configured with.
///
/// Together with the price limit it keeps every running aggregate of a
/// window inside 128 bits.
pub const MAX_LENGTH: usize = 65536;

/// A window length: a bar count between 1 and [`MAX_LENGTH`].
#[derive(PartialEq, Eq, Hash, Clone, Copy, Debug)]
pub struct Length {
    value: usize,
}

impl View for Length {
    type V = usize;

    closed spec fn view(&self) -> usize {
        self.value
    }
}

impl Length {
    #[verifier::type_invariant]
    spec fn in_range(self) -> bool {
        0 < self.value <= MAX_LENGTH
    }

    /// Accepts `n` exactly when `1 <= n <= MAX_LENGTH`.
    pub fn new(n: usize) -> (length: Option<Length>)
        ensures
            length is Some <==> 0 < n <= MAX_LENGTH,
            length matches Some(l) ==> l@ == n,
    {
        if 0 < n && n <= MAX_LENGTH {
            Some(Length { value: n })
        } else {
            None
        }
    }

    /// The length `n`, known to lie in range.
    pub(crate) fn from_checked(n: usize) -> (length: Length)
        requires
            0 < n <= MAX_LENGTH,
        ensures
            length@ == n,
    {
        Length { value: n }
    }

    /// The bar count.
    pub fn get(self) -> (n: usize)
        ensures
            n == self@,
            0 < n <= MAX_LENGTH,
    {
        proof {
            use_type_invariant(&self);
        }
        self.value
    }
}

} // verus!
