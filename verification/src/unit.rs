use vstd::prelude::*;

verus! {

/// Temperature unit a reading can be shown in. The conversion arithmetic is
/// floating point and lives with the unverified display side.
#[derive(Clone, Copy, Debug, PartialEq, Eq)]
pub enum Unit {
    Fahrenheit,
    Celsius,
    Kelvin,
}

} // verus!
