use vstd::prelude::*;

verus! {

/// The bit pattern of `1.0` in IEEE 754 single precision.
pub const ONE_BITS: u32 = 0x3F80_0000;

/// A coverage rate in `[0, 1]`, held as the bit pattern of its IEEE 754
/// single-precision value. For values in that range the patterns, read as
/// unsigned integers, are ordered exactly as the numbers they encode, so
/// comparing rates is comparing patterns.
#[derive(Clone, Copy, Debug, PartialEq, Eq, Structural)]
pub struct Rate {
    pub bits: u32,
}

impl Rate {
    /// The pattern of this rate, as an integer.
    pub open spec fn view(self) -> nat {
        self.bits as nat
    }

    /// Whether `bits` is the single-precision pattern of a number in `[0, 1]`.
    pub open spec fn bits_in_range(bits: u32) -> bool {
        bits <= ONE_BITS
    }

    /// A rate is well formed when it encodes a number in `[0, 1]`.
    pub open spec fn wf(self) -> bool {
        Rate::bits_in_range(self.bits)
    }

    /// The rate whose single-precision pattern is `bits`, or `None` when that
    /// pattern encodes no number in `[0, 1]` (a negative number, a number
    /// above one, an infinity or a NaN).
    pub fn from_bits(bits: u32) -> (r: Option<Rate>)
        ensures
            Rate::bits_in_range(bits) <==> r is Some,
            r matches Some(rate) ==> rate.wf() && rate@ == bits,
    {
        if bits <= ONE_BITS {
            Some(Rate { bits })
        } else {
            None
        }
    }

    /// The single-precision pattern of this rate.
    pub fn to_bits(&self) -> (r: u32)
        ensures
            r == self@,
    {
        self.bits
    }
}

} // verus!
