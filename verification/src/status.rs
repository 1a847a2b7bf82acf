//! The privilege/status oracle: the two global protection bits that the
//! translator consults while checking a leaf page-table entry.
//!
//! The original status registers live with the caller; a translation call
//! receives a consistent snapshot of the two bits it needs, read at Machine
//! privilege, as an explicit capability value instead of a hidden global.

use vstd::prelude::*;

verus! {

/// Names the two protection bits the translator may ask for.
#[derive(Copy, Clone, Debug, PartialEq, Eq, Structural)]
pub enum ProtectionBit {
    /// Permit supervisor access to user-accessible pages (the SUM-style bit).
    PermitSupervisorUserAccess,
    /// Make executable pages readable (the MXR-style bit).
    MakeExecutableReadable,
}

/// Snapshot of the protection bits, taken by the caller before a translation.
#[derive(Copy, Clone, Debug, PartialEq, Eq, Structural)]
pub struct StatusOracle {
    /// Permit-supervisor-user-access bit.
    pub sum: bool,
    /// Make-executable-readable bit.
    pub mxr: bool,
}

impl StatusOracle {
    /// Builds an oracle from the two bits.
    pub fn new(sum: bool, mxr: bool) -> (r: StatusOracle)
        ensures
            r.sum == sum,
            r.mxr == mxr,
    {
        StatusOracle { sum, mxr }
    }

    /// Reads one protection bit by name.
    pub fn read_protection_bit(&self, bit: ProtectionBit) -> (r: bool)
        ensures
            r == (match bit {
                ProtectionBit::PermitSupervisorUserAccess => self.sum,
                ProtectionBit::MakeExecutableReadable => self.mxr,
            }),
    {
        match bit {
            ProtectionBit::PermitSupervisorUserAccess => self.sum,
            ProtectionBit::MakeExecutableReadable => self.mxr,
        }
    }
}

} // verus!
