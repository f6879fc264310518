use vstd::prelude::*;

verus! {

/// The option may be set by software.
pub const CAP_SOFT_SELECT: u32 = 1;
/// The option is set by a hardware switch.
pub const CAP_HARD_SELECT: u32 = 2;
/// The option's value can be read by software.
pub const CAP_SOFT_DETECT: u32 = 4;
/// The option is emulated by the backend.
pub const CAP_EMULATED: u32 = 8;
/// The backend can pick the option's value itself.
pub const CAP_AUTOMATIC: u32 = 16;
/// The option is currently inactive.
pub const CAP_INACTIVE: u32 = 32;
/// The option is meant for advanced users.
pub const CAP_ADVANCED: u32 = 64;

/// The value set was snapped to a legal one.
pub const INFO_INEXACT: u32 = 1;
/// Option descriptors captured earlier may now be stale.
pub const INFO_RELOAD_OPTIONS: u32 = 2;
/// The scan parameters have changed.
pub const INFO_RELOAD_PARAMS: u32 = 4;

/// The capability bits of an option, kept as the ABI reported them.
#[derive(Clone, Copy, Debug, PartialEq, Eq, Structural)]
pub struct OptionCapability {
    pub bits: u32,
}

impl OptionCapability {
    /// Keeps every bit, known or not.
    pub fn from_bits_unchecked(bits: u32) -> (r: OptionCapability)
        ensures
            r.bits == bits,
    {
        OptionCapability { bits }
    }

    pub fn bits(&self) -> (r: u32)
        ensures
            r == self.bits,
    {
        self.bits
    }

    /// Whether every bit of `flags` is set.
    pub fn contains(&self, flags: u32) -> (r: bool)
        ensures
            r == (self.bits & flags == flags),
    {
        self.bits & flags == flags
    }
}

/// The side effects that a set operation reports.
#[derive(Clone, Copy, Debug, PartialEq, Eq, Structural)]
pub struct OptionInfo {
    pub bits: u32,
}

impl OptionInfo {
    /// No side effect.
    pub fn empty() -> (r: OptionInfo)
        ensures
            r.bits == 0,
    {
        OptionInfo { bits: 0 }
    }

    /// Keeps every bit that the ABI wrote, known or not.
    pub fn from_bits_unchecked(bits: u32) -> (r: OptionInfo)
        ensures
            r.bits == bits,
    {
        OptionInfo { bits }
    }

    pub fn bits(&self) -> (r: u32)
        ensures
            r == self.bits,
    {
        self.bits
    }

    /// Whether every bit of `flags` is set.
    pub fn contains(&self, flags: u32) -> (r: bool)
        ensures
            r == (self.bits & flags == flags),
    {
        self.bits & flags == flags
    }
}

} // verus!
