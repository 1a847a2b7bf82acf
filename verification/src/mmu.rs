//! The translator: configuration decoding and the page-table walk.

use vstd::prelude::*;

use crate::bit_field::spec_frame_limit;
use crate::bit_field::spec_levels;
use crate::bit_field::spec_page_offset;
use crate::bit_field::spec_ppn_segment;
use crate::bit_field::spec_pte_a;
use crate::bit_field::spec_pte_address;
use crate::bit_field::spec_pte_d;
use crate::bit_field::spec_pte_r;
use crate::bit_field::spec_pte_target_frame;
use crate::bit_field::spec_pte_u;
use crate::bit_field::spec_pte_v;
use crate::bit_field::spec_pte_w;
use crate::bit_field::spec_pte_x;
use crate::bit_field::spec_root_frame;
use crate::bit_field::spec_vpn_segment;
use crate::bit_field::page_offset;
use crate::bit_field::ppn_segment;
use crate::bit_field::pte_a;
use crate::bit_field::pte_address;
use crate::bit_field::pte_d;
use crate::bit_field::pte_r;
use crate::bit_field::pte_target_frame;
use crate::bit_field::pte_u;
use crate::bit_field::pte_v;
use crate::bit_field::pte_w;
use crate::bit_field::pte_x;
use crate::bit_field::root_frame;
use crate::bit_field::vpn_segment;
use crate::memory::MemoryReader;
use crate::status::ProtectionBit;
use crate::status::StatusOracle;

verus! {

/// Target instruction-set width.
#[derive(Copy, Clone, Debug, PartialEq, Eq, Structural)]
pub enum Isa {
    /// 32-bit architecture.
    Rv32,
    /// 64-bit architecture.
    Rv64,
}

/// Kind of virtual-memory system selected by the root register.
#[derive(Copy, Clone, Debug, PartialEq, Eq, Structural)]
pub enum AddrTransMode {
    /// No address translation.
    Bare,
    /// Page-based 32-bit virtual-memory system (two levels).
    Sv32,
    /// Page-based 39-bit virtual-memory system (three levels).
    Sv39,
}

/// Privilege level of the access being translated.
#[derive(Copy, Clone, Debug, PartialEq, Eq, Structural)]
pub enum PrivilegedLevel {
    User,
    Supervisor,
    Reserved,
    Machine,
}

/// Alignment size of an access, in bytes.
#[derive(Copy, Clone, Debug, PartialEq, Eq, Structural)]
pub enum TransAlign {
    Size8,
    Size16,
    Size32,
    Size64,
}

impl TransAlign {
    /// Width of the access in bytes.
    pub fn bytes(&self) -> (r: u64)
        ensures
            r == (match self {
                TransAlign::Size8 => 1u64,
                TransAlign::Size16 => 2u64,
                TransAlign::Size32 => 4u64,
                TransAlign::Size64 => 8u64,
            }),
    {
        match self {
            TransAlign::Size8 => 1,
            TransAlign::Size16 => 2,
            TransAlign::Size32 => 4,
            TransAlign::Size64 => 8,
        }
    }
}

/// Purpose of the access being translated.
#[derive(Copy, Clone, Debug, PartialEq, Eq, Structural)]
pub enum TransFor {
    /// Fetch an instruction.
    Fetch,
    /// Load data from memory.
    Load,
    /// Store or atomic memory operation.
    StoreAMO,
    /// Delegated fetch.
    Deleg,
}

/// Cause of a trap.
#[derive(Copy, Clone, Debug, PartialEq, Eq, Structural)]
pub enum TrapCause {
    InstAddrMisaligned,
    InstAccessFault,
    IllegalInst,
    Breakpoint,
    LoadAddrMisaligned,
    LoadAccessFault,
    StoreAMOAddrMisaligned,
    StoreAMOAccessFault,
    UmodeEcall,
    SmodeEcall,
    MmodeEcall,
    InstPageFault,
    LoadPageFault,
    StoreAMOPageFault,
    SupervisorSoftwareInterrupt,
    MachineSoftwareInterrupt,
    SupervisorTimerInterrupt,
    MachineTimerInterrupt,
    SupervisorExternalInterrupt,
    MachineExternalInterrupt,
}

impl TrapCause {
    /// Numeric cause code, with the interrupt bit in the highest position of
    /// a 32-bit cause register for the interrupt causes.
    pub fn code(&self) -> (r: u64)
        ensures
            r == (match self {
                TrapCause::InstAddrMisaligned => 0u64,
                TrapCause::InstAccessFault => 1u64,
                TrapCause::IllegalInst => 2u64,
                TrapCause::Breakpoint => 3u64,
                TrapCause::LoadAddrMisaligned => 4u64,
                TrapCause::LoadAccessFault => 5u64,
                TrapCause::StoreAMOAddrMisaligned => 6u64,
                TrapCause::StoreAMOAccessFault => 7u64,
                TrapCause::UmodeEcall => 8u64,
                TrapCause::SmodeEcall => 9u64,
                TrapCause::MmodeEcall => 11u64,
                TrapCause::InstPageFault => 12u64,
                TrapCause::LoadPageFault => 13u64,
                TrapCause::StoreAMOPageFault => 15u64,
                TrapCause::SupervisorSoftwareInterrupt => 0x80000001u64,
                TrapCause::MachineSoftwareInterrupt => 0x80000003u64,
                TrapCause::SupervisorTimerInterrupt => 0x80000005u64,
                TrapCause::MachineTimerInterrupt => 0x80000007u64,
                TrapCause::SupervisorExternalInterrupt => 0x80000009u64,
                TrapCause::MachineExternalInterrupt => 0x8000000Bu64,
            }),
    {
        match self {
            TrapCause::InstAddrMisaligned => 0,
            TrapCause::InstAccessFault => 1,
            TrapCause::IllegalInst => 2,
            TrapCause::Breakpoint => 3,
            TrapCause::LoadAddrMisaligned => 4,
            TrapCause::LoadAccessFault => 5,
            TrapCause::StoreAMOAddrMisaligned => 6,
            TrapCause::StoreAMOAccessFault => 7,
            TrapCause::UmodeEcall => 8,
            TrapCause::SmodeEcall => 9,
            TrapCause::MmodeEcall => 11,
            TrapCause::InstPageFault => 12,
            TrapCause::LoadPageFault => 13,
            TrapCause::StoreAMOPageFault => 15,
            TrapCause::SupervisorSoftwareInterrupt => 0x80000001,
            TrapCause::MachineSoftwareInterrupt => 0x80000003,
            TrapCause::SupervisorTimerInterrupt => 0x80000005,
            TrapCause::MachineTimerInterrupt => 0x80000007,
            TrapCause::SupervisorExternalInterrupt => 0x80000009,
            TrapCause::MachineExternalInterrupt => 0x8000000B,
        }
    }
}

/// Outcome other than a successful translation.
///
/// A configuration fault (an unsupported mode encoding in the root register)
/// is kept apart from the expected translation faults, which a caller
/// recovers from by raising a trap with the carried cause.
#[derive(Copy, Clone, Debug, PartialEq, Eq, Structural)]
pub enum TransError {
    /// The root register selects a mode the active ISA does not support.
    UnsupportedMode,
    /// The walk failed; the cause is determined by the access purpose.
    Trap(TrapCause),
}

/// Fault cause raised for a failed translation, keyed by purpose alone.
pub open spec fn spec_trap_cause(purpose: TransFor) -> TrapCause {
    match purpose {
        TransFor::Fetch => TrapCause::InstPageFault,
        TransFor::Load => TrapCause::LoadPageFault,
        TransFor::StoreAMO => TrapCause::StoreAMOPageFault,
        TransFor::Deleg => TrapCause::InstPageFault,
    }
}

/// A PTE is a leaf exactly when it is readable or executable.
pub open spec fn spec_is_leaf_pte(pte: u64) -> bool {
    spec_pte_r(pte) == 1 || spec_pte_x(pte) == 1
}

/// Basic validity, checked on every PTE: the Valid bit must be set, and
/// Writable-without-Readable is a reserved encoding.
pub open spec fn spec_pte_valid(pte: u64) -> bool {
    !(spec_pte_v(pte) == 0 || (spec_pte_r(pte) == 0 && spec_pte_w(pte) == 1))
}

/// Result of the basic validity check: the PTE itself, or the
/// purpose-derived fault.
pub open spec fn spec_check_pte_validity(purpose: TransFor, pte: u64) -> Result<u64, TrapCause> {
    if spec_pte_valid(pte) {
        Ok(pte)
    } else {
        Err(spec_trap_cause(purpose))
    }
}

/// Result of the checks applied once a leaf PTE is identified: basic
/// validity again, then the User, Accessed, and per-purpose permission
/// bits, with the two protection bits `sum` and `mxr` governing Load and
/// StoreAMO accesses.
pub open spec fn spec_check_leaf_pte(
    purpose: TransFor,
    priv_lv: PrivilegedLevel,
    sum: bool,
    mxr: bool,
    pte: u64,
) -> Result<u64, TrapCause> {
    if !spec_pte_valid(pte) {
        Err(spec_trap_cause(purpose))
    } else if spec_pte_u(pte) == 0 && priv_lv == PrivilegedLevel::User {
        Err(spec_trap_cause(purpose))
    } else if spec_pte_a(pte) == 0 {
        Err(spec_trap_cause(purpose))
    } else {
        match purpose {
            TransFor::Fetch | TransFor::Deleg => {
                if spec_pte_x(pte) == 0 {
                    Err(TrapCause::InstPageFault)
                } else {
                    Ok(pte)
                }
            }
            TransFor::Load => {
                if !sum && spec_pte_u(pte) == 1 && priv_lv == PrivilegedLevel::Supervisor {
                    Err(spec_trap_cause(purpose))
                } else if spec_pte_r(pte) == 0 && (!mxr || spec_pte_x(pte) == 0) {
                    Err(TrapCause::LoadPageFault)
                } else {
                    Ok(pte)
                }
            }
            TransFor::StoreAMO => {
                if !sum && spec_pte_u(pte) == 1 && priv_lv == PrivilegedLevel::Supervisor {
                    Err(spec_trap_cause(purpose))
                } else if spec_pte_w(pte) == 0 || spec_pte_d(pte) == 0 {
                    Err(TrapCause::StoreAMOPageFault)
                } else {
                    Ok(pte)
                }
            }
        }
    }
}

/// Translation mode selected by the root register, or `None` for a mode
/// encoding the active ISA does not support.
pub open spec fn spec_mode(isa: Isa, satp: u64) -> Option<AddrTransMode> {
    match isa {
        Isa::Rv32 => {
            if (satp >> 31) & 0x1 == 1 {
                Some(AddrTransMode::Sv32)
            } else {
                Some(AddrTransMode::Bare)
            }
        }
        Isa::Rv64 => {
            if (satp >> 60) & 0xF == 8 {
                Some(AddrTransMode::Sv39)
            } else if (satp >> 60) & 0xF == 0 {
                Some(AddrTransMode::Bare)
            } else {
                None
            }
        }
    }
}

/// The PTE-sized word held at `addr`, read at the width of the ISA.
pub open spec fn spec_read_pte<M: MemoryReader>(mem: &M, isa: Isa, addr: u64) -> Option<u64> {
    match isa {
        Isa::Rv32 => mem.word32(addr),
        Isa::Rv64 => mem.word64(addr),
    }
}

/// The table walk from the table at `frame`, with `level` levels left below
/// it.  Yields the leaf PTE and the level it was found at, or the
/// purpose-derived fault on an unbacked address, an invalid PTE, or
/// exhaustion of the levels without a leaf.
pub open spec fn spec_walk<M: MemoryReader>(
    mem: &M,
    isa: Isa,
    purpose: TransFor,
    vaddr: u64,
    frame: u64,
    level: int,
) -> Result<(u64, int), TrapCause>
    decreases level,
{
    let addr = spec_pte_address(isa, frame, spec_vpn_segment(isa, vaddr, level));
    match spec_read_pte(mem, isa, addr) {
        None => Err(spec_trap_cause(purpose)),
        Some(pte) => {
            if !spec_pte_valid(pte) {
                Err(spec_trap_cause(purpose))
            } else if spec_is_leaf_pte(pte) {
                Ok((pte, level))
            } else if level <= 0 {
                Err(spec_trap_cause(purpose))
            } else {
                spec_walk(mem, isa, purpose, vaddr, spec_pte_target_frame(isa, pte), level - 1)
            }
        }
    }
}

/// Physical address reconstructed from a leaf PTE found at `level`: PPN
/// segments below the leaf level come from the virtual address (the
/// superpage case), the rest from the PTE.  `None` stands for a misaligned
/// superpage: a PPN segment below the leaf level that should be zero is not.
pub open spec fn spec_leaf_paddr(isa: Isa, vaddr: u64, pte: u64, level: int) -> Option<u64> {
    let off = spec_page_offset(vaddr);
    match isa {
        Isa::Rv32 => {
            if level == 0 {
                Some(
                    (spec_ppn_segment(isa, pte, 1) << 22) | (spec_ppn_segment(isa, pte, 0) << 12)
                        | off,
                )
            } else if level == 1 {
                if spec_ppn_segment(isa, pte, 0) != 0 {
                    None
                } else {
                    Some(
                        (spec_ppn_segment(isa, pte, 1) << 22) | (spec_vpn_segment(isa, vaddr, 0)
                            << 12) | off,
                    )
                }
            } else {
                None
            }
        }
        Isa::Rv64 => {
            if level == 0 {
                Some(
                    (spec_ppn_segment(isa, pte, 2) << 30) | (spec_ppn_segment(isa, pte, 1) << 21)
                        | (spec_ppn_segment(isa, pte, 0) << 12) | off,
                )
            } else if level == 1 {
                if spec_ppn_segment(isa, pte, 0) != 0 {
                    None
                } else {
                    Some(
                        (spec_ppn_segment(isa, pte, 2) << 30) | (spec_ppn_segment(isa, pte, 1)
                            << 21) | (spec_vpn_segment(isa, vaddr, 0) << 12) | off,
                    )
                }
            } else if level == 2 {
                if spec_ppn_segment(isa, pte, 0) != 0 || spec_ppn_segment(isa, pte, 1) != 0 {
                    None
                } else {
                    Some(
                        (spec_ppn_segment(isa, pte, 2) << 30) | (spec_vpn_segment(isa, vaddr, 1)
                            << 21) | (spec_vpn_segment(isa, vaddr, 0) << 12) | off,
                    )
                }
            } else {
                None
            }
        }
    }
}

/// The whole translation as a function of its inputs: Machine-level (and
/// reserved-level) accesses and Bare mode are the identity, an unsupported
/// mode encoding is a configuration fault, and otherwise the walk, the leaf
/// checks and the reconstruction decide.
pub open spec fn spec_translate<M: MemoryReader>(
    mem: &M,
    status: StatusOracle,
    isa: Isa,
    satp: u64,
    purpose: TransFor,
    vaddr: u64,
    priv_lv: PrivilegedLevel,
) -> Result<u64, TransError> {
    match priv_lv {
        PrivilegedLevel::Supervisor | PrivilegedLevel::User => {
            match spec_mode(isa, satp) {
                None => Err(TransError::UnsupportedMode),
                Some(AddrTransMode::Bare) => Ok(vaddr),
                Some(_) => {
                    match spec_walk(
                        mem,
                        isa,
                        purpose,
                        vaddr,
                        spec_root_frame(isa, satp),
                        spec_levels(isa) - 1,
                    ) {
                        Err(c) => Err(TransError::Trap(c)),
                        Ok((pte, level)) => {
                            match spec_check_leaf_pte(
                                purpose,
                                priv_lv,
                                status.sum,
                                status.mxr,
                                pte,
                            ) {
                                Err(c) => Err(TransError::Trap(c)),
                                Ok(_) => {
                                    match spec_leaf_paddr(isa, vaddr, pte, level) {
                                        None => Err(TransError::Trap(spec_trap_cause(purpose))),
                                        Some(pa) => Ok(pa),
                                    }
                                }
                            }
                        }
                    }
                }
            }
        }
        _ => Ok(vaddr),
    }
}

/// The translator.  It holds the raw root register value, the configuration
/// decoded from it, and the target ISA.
pub struct Mmu {
    /// Root page-table frame number, decoded from the root register.
    pub ppn: u64,
    /// Raw value of the root register.
    pub satp: u64,
    /// Translation mode, decoded from the root register.
    pub trans_mode: AddrTransMode,
    /// Target instruction-set width.
    pub isa: Isa,
}

impl Mmu {
    /// Builds a translator from an initial configuration.  The decoded parts
    /// are refreshed from the root register at the start of every
    /// translation, so the initial `ppn` and `trans_mode` only matter to
    /// callers that read them before the first call.
    pub fn new(ppn: u64, satp: u64, trans_mode: AddrTransMode, isa: Isa) -> (r: Mmu)
        ensures
            r.ppn == ppn,
            r.satp == satp,
            r.trans_mode == trans_mode,
            r.isa == isa,
    {
        Mmu { ppn, satp, trans_mode, isa }
    }

    /// Recomputes the root frame number and translation mode from the
    /// current root register value, reporting an unsupported mode encoding
    /// as a configuration fault and leaving the decoded state untouched in
    /// that case.
    pub fn update_ppn_and_mode(&mut self) -> (r: Result<(), TransError>)
        ensures
            final(self).satp == old(self).satp,
            final(self).isa == old(self).isa,
            (match spec_mode(old(self).isa, old(self).satp) {
                Some(m) => r is Ok && final(self).ppn == spec_root_frame(
                    old(self).isa,
                    old(self).satp,
                ) && final(self).trans_mode == m,
                None => r == Err::<(), TransError>(TransError::UnsupportedMode) && *final(self)
                    == *old(self),
            }),
    {
        let mode = match self.isa {
            Isa::Rv32 => {
                if (self.satp >> 31) & 0x1 == 1 {
                    AddrTransMode::Sv32
                } else {
                    AddrTransMode::Bare
                }
            }
            Isa::Rv64 => {
                if (self.satp >> 60) & 0xF == 8 {
                    AddrTransMode::Sv39
                } else if (self.satp >> 60) & 0xF == 0 {
                    AddrTransMode::Bare
                } else {
                    return Err(TransError::UnsupportedMode);
                }
            }
        };
        self.ppn = root_frame(self.isa, self.satp);
        self.trans_mode = mode;
        Ok(())
    }

    /// A PTE is a leaf exactly when its Readable or Executable bit is set.
    pub fn is_leaf_pte(&self, pte: u64) -> (r: bool)
        ensures
            r == spec_is_leaf_pte(pte),
    {
        let r_bit = pte_r(pte);
        let x_bit = pte_x(pte);

        r_bit == 1 || x_bit == 1
    }

    /// Checks the basic validity of a PTE, leaf or not: the Valid bit, and
    /// the reserved Writable-without-Readable encoding.
    pub fn check_pte_validity(&self, purpose: TransFor, pte: u64) -> (r: Result<u64, TrapCause>)
        ensures
            r == spec_check_pte_validity(purpose, pte),
    {
        let v_bit = pte_v(pte);
        let r_bit = pte_r(pte);
        let w_bit = pte_w(pte);

        if v_bit == 0 || (r_bit == 0 && w_bit == 1) {
            return Err(self.trap_cause(purpose));
        }

        Ok(pte)
    }

    /// The fault cause a failed translation raises, keyed by purpose alone.
    pub fn trap_cause(&self, purpose: TransFor) -> (r: TrapCause)
        ensures
            r == spec_trap_cause(purpose),
    {
        match purpose {
            TransFor::Fetch => TrapCause::InstPageFault,
            TransFor::Load => TrapCause::LoadPageFault,
            TransFor::StoreAMO => TrapCause::StoreAMOPageFault,
            TransFor::Deleg => TrapCause::InstPageFault,
        }
    }

    /// Checks a leaf PTE: basic validity, the User and Accessed bits, and
    /// the per-purpose permission bits, consulting the status oracle for
    /// the two protection bits.
    pub fn check_leaf_pte(
        &self,
        purpose: TransFor,
        priv_lv: PrivilegedLevel,
        pte: u64,
        status: &StatusOracle,
    ) -> (r: Result<u64, TrapCause>)
        ensures
            r == spec_check_leaf_pte(purpose, priv_lv, status.sum, status.mxr, pte),
    {
        let r_bit = pte_r(pte);
        let w_bit = pte_w(pte);
        let x_bit = pte_x(pte);
        let u_bit = pte_u(pte);
        let a_bit = pte_a(pte);
        let d_bit = pte_d(pte);

        match self.check_pte_validity(purpose, pte) {
            Err(c) => {
                return Err(c);
            }
            Ok(_) => {}
        }

        // check the U bit
        if u_bit == 0 && priv_lv == PrivilegedLevel::User {
            return Err(self.trap_cause(purpose));
        }

        // check the A bit
        if a_bit == 0 {
            return Err(self.trap_cause(purpose));
        }

        // check the PTE field according to translate purpose
        match purpose {
            TransFor::Fetch | TransFor::Deleg => {
                if x_bit == 0 {
                    return Err(TrapCause::InstPageFault);
                }
            }
            TransFor::Load => {
                // check sum bit
                let sum = status.read_protection_bit(ProtectionBit::PermitSupervisorUserAccess);
                if !sum && u_bit == 1 && priv_lv == PrivilegedLevel::Supervisor {
                    return Err(self.trap_cause(purpose));
                }

                // check the X and R bit
                let mxr = status.read_protection_bit(ProtectionBit::MakeExecutableReadable);
                if r_bit == 0 && (!mxr || x_bit == 0) {
                    return Err(TrapCause::LoadPageFault);
                }
            }
            TransFor::StoreAMO => {
                // check sum bit
                let sum = status.read_protection_bit(ProtectionBit::PermitSupervisorUserAccess);
                if !sum && u_bit == 1 && priv_lv == PrivilegedLevel::Supervisor {
                    return Err(self.trap_cause(purpose));
                }

                if w_bit == 0 || d_bit == 0 {
                    return Err(TrapCause::StoreAMOPageFault);
                }
            }
        }

        Ok(pte)
    }

    /// Translates `vaddr` for `purpose` at privilege level `priv_lv`,
    /// reading page tables through `mem` and the protection bits from
    /// `status`.
    ///
    /// Machine-level (and reserved-level) accesses bypass translation and
    /// the configuration entirely.  Otherwise the configuration is
    /// refreshed from the root register first; Bare mode is the identity,
    /// and the paged modes walk the tables as [`spec_translate`] states.
    pub fn trans_addr<M: MemoryReader>(
        &mut self,
        purpose: TransFor,
        vaddr: u64,
        priv_lv: PrivilegedLevel,
        mem: &M,
        status: &StatusOracle,
    ) -> (r: Result<u64, TransError>)
        ensures
            r == spec_translate(mem, *status, old(self).isa, old(self).satp, purpose, vaddr, priv_lv),
            final(self).satp == old(self).satp,
            final(self).isa == old(self).isa,
            (match priv_lv {
                PrivilegedLevel::Supervisor | PrivilegedLevel::User => (match spec_mode(
                    old(self).isa,
                    old(self).satp,
                ) {
                    Some(m) => final(self).ppn == spec_root_frame(old(self).isa, old(self).satp)
                        && final(self).trans_mode == m,
                    None => *final(self) == *old(self),
                }),
                _ => *final(self) == *old(self),
            }),
    {
        match priv_lv {
            PrivilegedLevel::Supervisor | PrivilegedLevel::User => {
                // update trans_mode and ppn
                match self.update_ppn_and_mode() {
                    Err(e) => {
                        return Err(e);
                    }
                    Ok(_) => {}
                }

                match self.trans_mode {
                    AddrTransMode::Bare => Ok(vaddr),
                    AddrTransMode::Sv32 | AddrTransMode::Sv39 => {
                        let isa = self.isa;
                        let page_off = page_offset(vaddr);
                        let mut frame = self.ppn;
                        let mut level: usize = match isa {
                            Isa::Rv32 => 1,
                            Isa::Rv64 => 2,
                        };
                        let mut pte: u64 = 0;
                        let ghost root = frame;
                        let ghost top = level as int;
                        proof {
                            crate::bit_field::lemma_root_frame_bound(isa, old(self).satp);
                        }

                        loop
                            invariant
                                priv_lv == PrivilegedLevel::Supervisor || priv_lv
                                    == PrivilegedLevel::User,
                                self.satp == old(self).satp,
                                self.isa == old(self).isa,
                                isa == self.isa,
                                spec_mode(old(self).isa, old(self).satp) == Some(self.trans_mode),
                                self.trans_mode == AddrTransMode::Sv32 || self.trans_mode
                                    == AddrTransMode::Sv39,
                                self.ppn == spec_root_frame(old(self).isa, old(self).satp),
                                root == self.ppn,
                                top == spec_levels(isa) - 1,
                                level <= top,
                                frame <= spec_frame_limit(isa),
                                spec_walk(mem, isa, purpose, vaddr, root, top) == spec_walk(
                                    mem,
                                    isa,
                                    purpose,
                                    vaddr,
                                    frame,
                                    level as int,
                                ),
                            ensures
                                level <= top,
                                spec_walk(mem, isa, purpose, vaddr, root, top) == Ok::<
                                    (u64, int),
                                    TrapCause,
                                >((pte, level as int)),
                            decreases level,
                        {
                            let vpn = vpn_segment(isa, vaddr, level);
                            let addr = pte_address(isa, frame, vpn);
                            let loaded = match isa {
                                Isa::Rv32 => mem.load32(addr),
                                Isa::Rv64 => mem.load64(addr),
                            };
                            let pte_word = match loaded {
                                Ok(w) => w,
                                Err(_) => {
                                    return Err(TransError::Trap(self.trap_cause(purpose)));
                                }
                            };
                            match self.check_pte_validity(purpose, pte_word) {
                                Err(c) => {
                                    return Err(TransError::Trap(c));
                                }
                                Ok(_) => {}
                            }

                            if self.is_leaf_pte(pte_word) {
                                pte = pte_word;
                                break;
                            }

                            if level == 0 {
                                return Err(TransError::Trap(self.trap_cause(purpose)));
                            }

                            frame = pte_target_frame(isa, pte_word);
                            level = level - 1;
                        }

                        match self.check_leaf_pte(purpose, priv_lv, pte, status) {
                            Err(c) => {
                                return Err(TransError::Trap(c));
                            }
                            Ok(_) => {}
                        }

                        let paddr = match isa {
                            Isa::Rv32 => {
                                if level == 0 {
                                    (ppn_segment(isa, pte, 1) << 22) | (ppn_segment(isa, pte, 0)
                                        << 12) | page_off
                                } else {
                                    if ppn_segment(isa, pte, 0) != 0 {
                                        return Err(TransError::Trap(self.trap_cause(purpose)));
                                    }
                                    (ppn_segment(isa, pte, 1) << 22) | (vpn_segment(isa, vaddr, 0)
                                        << 12) | page_off
                                }
                            }
                            Isa::Rv64 => {
                                if level == 0 {
                                    (ppn_segment(isa, pte, 2) << 30) | (ppn_segment(isa, pte, 1)
                                        << 21) | (ppn_segment(isa, pte, 0) << 12) | page_off
                                } else if level == 1 {
                                    if ppn_segment(isa, pte, 0) != 0 {
                                        return Err(TransError::Trap(self.trap_cause(purpose)));
                                    }
                                    (ppn_segment(isa, pte, 2) << 30) | (ppn_segment(isa, pte, 1)
                                        << 21) | (vpn_segment(isa, vaddr, 0) << 12) | page_off
                                } else {
                                    if ppn_segment(isa, pte, 0) != 0 || ppn_segment(isa, pte, 1)
                                        != 0 {
                                        return Err(TransError::Trap(self.trap_cause(purpose)));
                                    }
                                    (ppn_segment(isa, pte, 2) << 30) | (vpn_segment(isa, vaddr, 1)
                                        << 21) | (vpn_segment(isa, vaddr, 0) << 12) | page_off
                                }
                            }
                        };

                        Ok(paddr)
                    }
                }
            }
            // return the raw virtual address if the privilege level is
            // excluded from translation
            _ => Ok(vaddr),
        }
    }
}

} // verus!
