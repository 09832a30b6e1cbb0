//! The Spartan engines that commit with Greyhound. Each names a curve; the
//! curve arithmetic and the Greyhound engine are bound to it where the
//! engine is instantiated.

use vstd::prelude::*;

verus! {

/// Pallas curve with the Greyhound commitment scheme.
#[derive(Clone, Copy, Debug, PartialEq, Eq, Structural)]
pub struct PallasGreyhoundEngine;

/// Vesta curve with the Greyhound commitment scheme.
#[derive(Clone, Copy, Debug, PartialEq, Eq, Structural)]
pub struct VestaGreyhoundEngine;

/// P256 curve with the Greyhound commitment scheme.
#[derive(Clone, Copy, Debug, PartialEq, Eq, Structural)]
pub struct P256GreyhoundEngine;

/// T256 curve with the Greyhound commitment scheme.
#[derive(Clone, Copy, Debug, PartialEq, Eq, Structural)]
pub struct T256GreyhoundEngine;

/// The former name of `PallasGreyhoundEngine`, kept for existing code.
pub type PallasHyraxEngine = PallasGreyhoundEngine;

/// The former name of `VestaGreyhoundEngine`, kept for existing code.
pub type VestaHyraxEngine = VestaGreyhoundEngine;

/// The former name of `P256GreyhoundEngine`, kept for existing code.
pub type P256HyraxEngine = P256GreyhoundEngine;

/// The former name of `T256GreyhoundEngine`, kept for existing code.
pub type T256HyraxEngine = T256GreyhoundEngine;

} // verus!
