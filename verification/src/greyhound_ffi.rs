//! Ring parameters of the Greyhound library and the plain data layout of its
//! ring elements (`polz`: a vector of `L` limbs of `N` signed 16-bit coefficients).

use vstd::prelude::*;

verus! {

/// Ring degree: number of coefficients of one ring element.
pub const N: usize = 64;

/// Bit length of the modulus.
pub const LOGQ: usize = 32;

/// Number of 16-bit limbs of one `polz` for `LOGQ == 32`.
pub const L: usize = 3;

/// The offset of the modulus below `2^LOGQ`.
pub const QOFF: i64 = 99;

/// The modulus `q = 2^LOGQ - QOFF`.
pub const MODULUS: i64 = 4294967197;

/// One limb: `N` signed 16-bit coefficients.
pub struct Vecn {
    pub v: [i16; 64],
}

/// A ring element in limb representation.
pub struct Polz {
    pub limbs: [Vecn; 3],
}

impl Vecn {
    pub open spec fn is_zero(&self) -> bool {
        forall|i: int| 0 <= i < N ==> #[trigger] self.v@[i] == 0
    }

    /// The all-zero limb.
    pub fn zero() -> (r: Vecn)
        ensures
            r.is_zero(),
    {
        Vecn { v: [0i16; 64] }
    }
}

impl Polz {
    pub open spec fn is_zero(&self) -> bool {
        forall|l: int| 0 <= l < L ==> (#[trigger] self.limbs@[l]).is_zero()
    }

    /// The zero ring element, as the conversion buffer is initialised before
    /// the library fills it.
    pub fn zero() -> (r: Polz)
        ensures
            r.is_zero(),
    {
        Polz { limbs: [Vecn::zero(), Vecn::zero(), Vecn::zero()] }
    }
}

/// A buffer of `count` zero ring elements, the destination of the
/// integer-to-ring conversion of the Greyhound library.
pub fn zeroed_polz_vec(count: usize) -> (r: Vec<Polz>)
    ensures
        r@.len() == count,
        forall|i: int| 0 <= i < count ==> (#[trigger] r@[i]).is_zero(),
{
    let mut r: Vec<Polz> = Vec::new();
    let mut i: usize = 0;
    while i < count
        invariant
            i <= count,
            r@.len() == i,
            forall|j: int| 0 <= j < i ==> (#[trigger] r@[j]).is_zero(),
        decreases count - i,
    {
        r.push(Polz::zero());
        i = i + 1;
    }
    r
}

/// The modulus is `2^LOGQ - QOFF`.
pub proof fn lemma_modulus_value()
    ensures
        MODULUS == vstd::arithmetic::power2::pow2(LOGQ as nat) - QOFF,
{
    vstd::arithmetic::power2::lemma2_to64();
}

} // verus!
