use vstd::prelude::*;

verus! {

/// Firmware revision reported by the sensor: a major and a minor version byte.
/// Read once at startup for diagnostics; never mutated.
#[derive(Clone, Copy, Debug, PartialEq, Eq)]
pub struct FirmwareVersion {
    pub major: u8,
    pub minor: u8,
}

impl FirmwareVersion {
    pub fn new(major: u8, minor: u8) -> (v: Self)
        ensures
            v.major == major,
            v.minor == minor,
    {
        Self { major, minor }
    }
}

} // verus!
