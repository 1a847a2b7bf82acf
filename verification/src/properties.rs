//! Laws of the translator, stated over the same spec functions its
//! contracts use and proved once for all inputs.

use vstd::prelude::*;

use crate::bit_field::spec_page_offset;
use crate::bit_field::spec_ppn_segment;
use crate::bit_field::spec_pte_a;
use crate::bit_field::spec_pte_address;
use crate::bit_field::spec_pte_d;
use crate::bit_field::spec_pte_r;
use crate::bit_field::spec_pte_target_frame;
use crate::bit_field::spec_pte_u;
use crate::bit_field::spec_pte_v;
use crate::bit_field::spec_pte_w;
use crate::bit_field::spec_root_frame;
use crate::bit_field::spec_vpn_segment;
use crate::memory::MemoryReader;
use crate::mmu::AddrTransMode;
use crate::mmu::Isa;
use crate::mmu::PrivilegedLevel;
use crate::mmu::TransError;
use crate::mmu::TransFor;
use crate::mmu::TrapCause;
use crate::mmu::spec_check_leaf_pte;
use crate::mmu::spec_check_pte_validity;
use crate::mmu::spec_is_leaf_pte;
use crate::mmu::spec_leaf_paddr;
use crate::mmu::spec_mode;
use crate::mmu::spec_pte_valid;
use crate::mmu::spec_read_pte;
use crate::mmu::spec_translate;
use crate::mmu::spec_trap_cause;
use crate::mmu::spec_walk;
use crate::status::StatusOracle;

verus! {

/// In Bare mode a translation is the identity for every purpose and every
/// privilege level: no fault is possible.
pub proof fn lemma_bare_mode_identity<M: MemoryReader>(
    mem: &M,
    status: StatusOracle,
    isa: Isa,
    satp: u64,
    purpose: TransFor,
    vaddr: u64,
    priv_lv: PrivilegedLevel,
)
    requires
        spec_mode(isa, satp) == Some(AddrTransMode::Bare),
    ensures
        spec_translate(mem, status, isa, satp, purpose, vaddr, priv_lv) == Ok::<u64, TransError>(
            vaddr,
        ),
{
}

/// A Machine-level access bypasses translation regardless of the mode the
/// root register selects: the result is the virtual address, unchanged.
pub proof fn lemma_machine_level_identity<M: MemoryReader>(
    mem: &M,
    status: StatusOracle,
    isa: Isa,
    satp: u64,
    purpose: TransFor,
    vaddr: u64,
)
    ensures
        spec_translate(mem, status, isa, satp, purpose, vaddr, PrivilegedLevel::Machine)
            == Ok::<u64, TransError>(vaddr),
{
}

/// A PTE whose Valid bit is clear fails both the basic validity check and
/// the leaf check, for every purpose and every privilege level, and the
/// cause is determined by the purpose alone.
pub proof fn lemma_invalid_pte_faults(
    purpose: TransFor,
    priv_lv: PrivilegedLevel,
    sum: bool,
    mxr: bool,
    pte: u64,
)
    requires
        spec_pte_v(pte) == 0,
    ensures
        spec_check_pte_validity(purpose, pte) == Err::<u64, TrapCause>(spec_trap_cause(purpose)),
        spec_check_leaf_pte(purpose, priv_lv, sum, mxr, pte) == Err::<u64, TrapCause>(
            spec_trap_cause(purpose),
        ),
        purpose == TransFor::Fetch ==> spec_trap_cause(purpose) == TrapCause::InstPageFault,
        purpose == TransFor::Deleg ==> spec_trap_cause(purpose) == TrapCause::InstPageFault,
        purpose == TransFor::Load ==> spec_trap_cause(purpose) == TrapCause::LoadPageFault,
        purpose == TransFor::StoreAMO ==> spec_trap_cause(purpose)
            == TrapCause::StoreAMOPageFault,
{
}

/// A leaf PTE whose Accessed bit is clear always fails the leaf check,
/// whatever the other permission bits, the purpose, the privilege level
/// and the protection bits are.
pub proof fn lemma_accessed_clear_faults(
    purpose: TransFor,
    priv_lv: PrivilegedLevel,
    sum: bool,
    mxr: bool,
    pte: u64,
)
    requires
        spec_pte_a(pte) == 0,
    ensures
        spec_check_leaf_pte(purpose, priv_lv, sum, mxr, pte) == Err::<u64, TrapCause>(
            spec_trap_cause(purpose),
        ),
{
}

/// A StoreAMO access to a leaf whose Writable bit is set but whose Dirty
/// bit is clear fails the leaf check with a store/AMO page fault, for
/// every privilege level and whatever the protection bits are.
pub proof fn lemma_store_dirty_clear_faults(
    priv_lv: PrivilegedLevel,
    sum: bool,
    mxr: bool,
    pte: u64,
)
    requires
        spec_pte_w(pte) == 1,
        spec_pte_d(pte) == 0,
    ensures
        spec_check_leaf_pte(TransFor::StoreAMO, priv_lv, sum, mxr, pte) == Err::<u64, TrapCause>(
            TrapCause::StoreAMOPageFault,
        ),
{
}

/// If no word that memory can hand back is a leaf PTE, the walk exhausts
/// its levels without finding one and faults with the purpose-derived
/// cause, from every starting frame and level.
pub proof fn lemma_walk_without_leaf_faults<M: MemoryReader>(
    mem: &M,
    isa: Isa,
    purpose: TransFor,
    vaddr: u64,
    frame: u64,
    level: int,
)
    requires
        forall|a: u64| (#[trigger] spec_read_pte(mem, isa, a)) matches Some(w)
            ==> !spec_is_leaf_pte(w),
    ensures
        spec_walk(mem, isa, purpose, vaddr, frame, level) == Err::<(u64, int), TrapCause>(
            spec_trap_cause(purpose),
        ),
    decreases level,
{
    let addr = spec_pte_address(isa, frame, spec_vpn_segment(isa, vaddr, level));
    match spec_read_pte(mem, isa, addr) {
        None => {}
        Some(pte) => {
            if spec_pte_valid(pte) && level > 0 {
                lemma_walk_without_leaf_faults(
                    mem,
                    isa,
                    purpose,
                    vaddr,
                    spec_pte_target_frame(isa, pte),
                    level - 1,
                );
            }
        }
    }
}

/// The walk only ever hands out a valid leaf PTE, found at or below the
/// level it started from.
pub proof fn lemma_walk_yields_valid_leaf<M: MemoryReader>(
    mem: &M,
    isa: Isa,
    purpose: TransFor,
    vaddr: u64,
    frame: u64,
    level: int,
)
    requires
        0 <= level,
    ensures
        (match spec_walk(mem, isa, purpose, vaddr, frame, level) {
            Ok((pte, lv)) => spec_pte_valid(pte) && spec_is_leaf_pte(pte) && 0 <= lv <= level,
            Err(c) => c == spec_trap_cause(purpose),
        }),
    decreases level,
{
    let addr = spec_pte_address(isa, frame, spec_vpn_segment(isa, vaddr, level));
    match spec_read_pte(mem, isa, addr) {
        None => {}
        Some(pte) => {
            if spec_pte_valid(pte) && !spec_is_leaf_pte(pte) && level > 0 {
                lemma_walk_yields_valid_leaf(
                    mem,
                    isa,
                    purpose,
                    vaddr,
                    spec_pte_target_frame(isa, pte),
                    level - 1,
                );
            }
        }
    }
}

/// Reconstruction from a leaf at the deepest level, where every PPN
/// segment comes from the PTE, always succeeds and keeps the page-offset
/// bits of the virtual address unchanged.
pub proof fn lemma_reconstruction_keeps_offset(isa: Isa, vaddr: u64, pte: u64)
    ensures
        (match spec_leaf_paddr(isa, vaddr, pte, 0) {
            Some(pa) => spec_page_offset(pa) == spec_page_offset(vaddr),
            None => false,
        }),
{
    let a2 = spec_ppn_segment(isa, pte, 2);
    let a1 = spec_ppn_segment(isa, pte, 1);
    let a0 = spec_ppn_segment(isa, pte, 0);
    assert((((a1 << 22) | (a0 << 12) | (vaddr & 0xFFF)) & 0xFFF) == vaddr & 0xFFF)
        by (bit_vector);
    assert((((a2 << 30) | (a1 << 21) | (a0 << 12) | (vaddr & 0xFFF)) & 0xFFF) == vaddr & 0xFFF)
        by (bit_vector);
}

/// The single-level Sv32 superpage walk of a Load at User level: with the
/// root-indexed PTE a readable, user-accessible, accessed leaf whose low
/// PPN segment is unset, the middle VPN segment of the virtual address
/// passes through to the physical address and the offset is kept.
pub proof fn lemma_sv32_superpage_load<M: MemoryReader>(
    mem: &M,
    status: StatusOracle,
    satp: u64,
    pte: u64,
    root_vpn: u64,
    mid_vpn: u64,
    off: u64,
)
    requires
        (satp >> 31) & 0x1 == 1,
        root_vpn <= 0x3FF,
        mid_vpn <= 0x3FF,
        off <= 0xFFF,
        mem.word32(spec_pte_address(Isa::Rv32, spec_root_frame(Isa::Rv32, satp), root_vpn))
            == Some(pte),
        spec_pte_v(pte) == 1,
        spec_pte_r(pte) == 1,
        spec_pte_u(pte) == 1,
        spec_pte_a(pte) == 1,
        spec_ppn_segment(Isa::Rv32, pte, 0) == 0,
    ensures
        spec_translate(
            mem,
            status,
            Isa::Rv32,
            satp,
            TransFor::Load,
            (root_vpn << 22) | (mid_vpn << 12) | off,
            PrivilegedLevel::User,
        ) == Ok::<u64, TransError>(
            (spec_ppn_segment(Isa::Rv32, pte, 1) << 22) | (mid_vpn << 12) | off,
        ),
{
    let vaddr = (root_vpn << 22) | (mid_vpn << 12) | off;
    assert((((root_vpn << 22) | (mid_vpn << 12) | off) >> 22) & 0x3FF == root_vpn) by (bit_vector)
        requires
            root_vpn <= 0x3FF,
            mid_vpn <= 0x3FF,
            off <= 0xFFF,
    ;
    assert((((root_vpn << 22) | (mid_vpn << 12) | off) >> 12) & 0x3FF == mid_vpn) by (bit_vector)
        requires
            root_vpn <= 0x3FF,
            mid_vpn <= 0x3FF,
            off <= 0xFFF,
    ;
    assert(((root_vpn << 22) | (mid_vpn << 12) | off) & 0xFFF == off) by (bit_vector)
        requires
            off <= 0xFFF,
    ;
    assert(spec_walk(mem, Isa::Rv32, TransFor::Load, vaddr, spec_root_frame(Isa::Rv32, satp), 1)
        == Ok::<(u64, int), TrapCause>((pte, 1)));
}

} // verus!
