//! Named accessors for the bit fields of virtual addresses, page-table
//! entries and the root register.
//!
//! Every field boundary (9-bit or 10-bit segments, the 12-bit page offset,
//! the flag positions) is single-sourced here, so the walk never contains an
//! inline magic-number shift.

use vstd::prelude::*;

use crate::mmu::Isa;

verus! {

/// Bytes in one page.
pub const PAGE_SIZE: u64 = 4096;

/// Largest frame number a pointer PTE can carry for the ISA; also bounds the
/// root frame number, whose field is narrower on both ISAs.
pub open spec fn spec_frame_limit(isa: Isa) -> u64 {
    match isa {
        Isa::Rv32 => 0x3FFF_FFFF,
        Isa::Rv64 => 0xFFF_FFFF_FFFF,
    }
}

/// Number of page-table levels for the ISA.
pub open spec fn spec_levels(isa: Isa) -> int {
    match isa {
        Isa::Rv32 => 2,
        Isa::Rv64 => 3,
    }
}

/// Size of one page-table entry in bytes.
pub open spec fn spec_pte_size(isa: Isa) -> u64 {
    match isa {
        Isa::Rv32 => 4,
        Isa::Rv64 => 8,
    }
}

/// Size of one page-table entry in bytes.
#[verifier::when_used_as_spec(spec_pte_size)]
pub fn pte_size(isa: Isa) -> (r: u64)
    ensures
        r == spec_pte_size(isa),
{
    match isa {
        Isa::Rv32 => 4,
        Isa::Rv64 => 8,
    }
}

/// Valid bit of a PTE.
pub open spec fn spec_pte_v(pte: u64) -> u64 {
    pte & 0x1
}

/// Valid bit of a PTE.
#[verifier::when_used_as_spec(spec_pte_v)]
pub fn pte_v(pte: u64) -> (r: u64)
    ensures
        r == spec_pte_v(pte),
{
    pte & 0x1
}

/// Readable bit of a PTE.
pub open spec fn spec_pte_r(pte: u64) -> u64 {
    (pte >> 1) & 0x1
}

/// Readable bit of a PTE.
#[verifier::when_used_as_spec(spec_pte_r)]
pub fn pte_r(pte: u64) -> (r: u64)
    ensures
        r == spec_pte_r(pte),
{
    (pte >> 1) & 0x1
}

/// Writable bit of a PTE.
pub open spec fn spec_pte_w(pte: u64) -> u64 {
    (pte >> 2) & 0x1
}

/// Writable bit of a PTE.
#[verifier::when_used_as_spec(spec_pte_w)]
pub fn pte_w(pte: u64) -> (r: u64)
    ensures
        r == spec_pte_w(pte),
{
    (pte >> 2) & 0x1
}

/// Executable bit of a PTE.
pub open spec fn spec_pte_x(pte: u64) -> u64 {
    (pte >> 3) & 0x1
}

/// Executable bit of a PTE.
#[verifier::when_used_as_spec(spec_pte_x)]
pub fn pte_x(pte: u64) -> (r: u64)
    ensures
        r == spec_pte_x(pte),
{
    (pte >> 3) & 0x1
}

/// User-accessible bit of a PTE.
pub open spec fn spec_pte_u(pte: u64) -> u64 {
    (pte >> 4) & 0x1
}

/// User-accessible bit of a PTE.
#[verifier::when_used_as_spec(spec_pte_u)]
pub fn pte_u(pte: u64) -> (r: u64)
    ensures
        r == spec_pte_u(pte),
{
    (pte >> 4) & 0x1
}

/// Global bit of a PTE.
pub open spec fn spec_pte_g(pte: u64) -> u64 {
    (pte >> 5) & 0x1
}

/// Global bit of a PTE.
#[verifier::when_used_as_spec(spec_pte_g)]
pub fn pte_g(pte: u64) -> (r: u64)
    ensures
        r == spec_pte_g(pte),
{
    (pte >> 5) & 0x1
}

/// Accessed bit of a PTE.
pub open spec fn spec_pte_a(pte: u64) -> u64 {
    (pte >> 6) & 0x1
}

/// Accessed bit of a PTE.
#[verifier::when_used_as_spec(spec_pte_a)]
pub fn pte_a(pte: u64) -> (r: u64)
    ensures
        r == spec_pte_a(pte),
{
    (pte >> 6) & 0x1
}

/// Dirty bit of a PTE.
pub open spec fn spec_pte_d(pte: u64) -> u64 {
    (pte >> 7) & 0x1
}

/// Dirty bit of a PTE.
#[verifier::when_used_as_spec(spec_pte_d)]
pub fn pte_d(pte: u64) -> (r: u64)
    ensures
        r == spec_pte_d(pte),
{
    (pte >> 7) & 0x1
}

/// Page offset of a virtual address: its low 12 bits.
pub open spec fn spec_page_offset(vaddr: u64) -> u64 {
    vaddr & 0xFFF
}

/// Page offset of a virtual address: its low 12 bits.
#[verifier::when_used_as_spec(spec_page_offset)]
pub fn page_offset(vaddr: u64) -> (r: u64)
    ensures
        r == spec_page_offset(vaddr),
{
    vaddr & 0xFFF
}

/// Virtual-page-number segment `index` of a virtual address: two 10-bit
/// segments on Rv32, three 9-bit segments on Rv64.  Segments past the last
/// one of the ISA read as zero.
pub open spec fn spec_vpn_segment(isa: Isa, vaddr: u64, index: int) -> u64 {
    match isa {
        Isa::Rv32 => {
            if index == 0 {
                (vaddr >> 12) & 0x3FF
            } else if index == 1 {
                (vaddr >> 22) & 0x3FF
            } else {
                0
            }
        }
        Isa::Rv64 => {
            if index == 0 {
                (vaddr >> 12) & 0x1FF
            } else if index == 1 {
                (vaddr >> 21) & 0x1FF
            } else if index == 2 {
                (vaddr >> 30) & 0x1FF
            } else {
                0
            }
        }
    }
}

/// Virtual-page-number segment `index` of a virtual address.
pub fn vpn_segment(isa: Isa, vaddr: u64, index: usize) -> (r: u64)
    requires
        index < 3,
    ensures
        r == spec_vpn_segment(isa, vaddr, index as int),
        r <= 0x3FF,
{
    proof {
        lemma_shr_and_mask_bound(vaddr, 12, 0x3FF);
        lemma_shr_and_mask_bound(vaddr, 22, 0x3FF);
        lemma_shr_and_mask_bound(vaddr, 12, 0x1FF);
        lemma_shr_and_mask_bound(vaddr, 21, 0x1FF);
        lemma_shr_and_mask_bound(vaddr, 30, 0x1FF);
    }
    match isa {
        Isa::Rv32 => {
            if index == 0 {
                (vaddr >> 12) & 0x3FF
            } else if index == 1 {
                (vaddr >> 22) & 0x3FF
            } else {
                0
            }
        }
        Isa::Rv64 => {
            if index == 0 {
                (vaddr >> 12) & 0x1FF
            } else if index == 1 {
                (vaddr >> 21) & 0x1FF
            } else {
                (vaddr >> 30) & 0x1FF
            }
        }
    }
}

/// Physical-page-number segment `index` of a leaf PTE.  On Rv32 the top
/// segment is 12 bits wide and the third segment reads as zero; on Rv64 the
/// top segment is 26 bits wide.
pub open spec fn spec_ppn_segment(isa: Isa, pte: u64, index: int) -> u64 {
    match isa {
        Isa::Rv32 => {
            if index == 0 {
                (pte >> 10) & 0x3FF
            } else if index == 1 {
                (pte >> 20) & 0xFFF
            } else {
                0
            }
        }
        Isa::Rv64 => {
            if index == 0 {
                (pte >> 10) & 0x1FF
            } else if index == 1 {
                (pte >> 19) & 0x1FF
            } else if index == 2 {
                (pte >> 28) & 0x3FF_FFFF
            } else {
                0
            }
        }
    }
}

/// Physical-page-number segment `index` of a leaf PTE.
pub fn ppn_segment(isa: Isa, pte: u64, index: usize) -> (r: u64)
    requires
        index < 3,
    ensures
        r == spec_ppn_segment(isa, pte, index as int),
{
    match isa {
        Isa::Rv32 => {
            if index == 0 {
                (pte >> 10) & 0x3FF
            } else if index == 1 {
                (pte >> 20) & 0xFFF
            } else {
                0
            }
        }
        Isa::Rv64 => {
            if index == 0 {
                (pte >> 10) & 0x1FF
            } else if index == 1 {
                (pte >> 19) & 0x1FF
            } else {
                (pte >> 28) & 0x3FF_FFFF
            }
        }
    }
}

/// Frame number of the next-level table named by a pointer PTE: its PPN
/// fields reassembled into a single frame number.
pub open spec fn spec_pte_target_frame(isa: Isa, pte: u64) -> u64 {
    match isa {
        Isa::Rv32 => (pte >> 10) & 0x3FFF_FFFF,
        Isa::Rv64 => (pte >> 10) & 0xFFF_FFFF_FFFF,
    }
}

/// Frame number of the next-level table named by a pointer PTE.
#[verifier::when_used_as_spec(spec_pte_target_frame)]
pub fn pte_target_frame(isa: Isa, pte: u64) -> (r: u64)
    ensures
        r == spec_pte_target_frame(isa, pte),
        r <= spec_frame_limit(isa),
{
    proof {
        lemma_shr_and_mask_bound(pte, 10, 0x3FFF_FFFF);
        lemma_shr_and_mask_bound(pte, 10, 0xFFF_FFFF_FFFF);
    }
    match isa {
        Isa::Rv32 => (pte >> 10) & 0x3FFF_FFFF,
        Isa::Rv64 => (pte >> 10) & 0xFFF_FFFF_FFFF,
    }
}

/// Root page-table frame number held in the root register: its low 22 bits
/// on Rv32, its low 44 bits on Rv64.
pub open spec fn spec_root_frame(isa: Isa, satp: u64) -> u64 {
    match isa {
        Isa::Rv32 => satp & 0x3F_FFFF,
        Isa::Rv64 => satp & 0xFFF_FFFF_FFFF,
    }
}

/// Root page-table frame number held in the root register.
#[verifier::when_used_as_spec(spec_root_frame)]
pub fn root_frame(isa: Isa, satp: u64) -> (r: u64)
    ensures
        r == spec_root_frame(isa, satp),
        r <= spec_frame_limit(isa),
{
    proof {
        lemma_and_mask_bound(satp, 0x3F_FFFF);
        lemma_and_mask_bound(satp, 0xFFF_FFFF_FFFF);
    }
    match isa {
        Isa::Rv32 => satp & 0x3F_FFFF,
        Isa::Rv64 => satp & 0xFFF_FFFF_FFFF,
    }
}

/// Byte address of the PTE for `vpn_seg` in the table at `frame`.
pub open spec fn spec_pte_address(isa: Isa, frame: u64, vpn_seg: u64) -> u64 {
    (frame * PAGE_SIZE + vpn_seg * spec_pte_size(isa)) as u64
}

/// A masked value never exceeds its mask.
pub proof fn lemma_and_mask_bound(x: u64, m: u64)
    ensures
        x & m <= m,
{
    assert(x & m <= m) by (bit_vector);
}

/// A right-shifted and masked value never exceeds its mask.
pub proof fn lemma_shr_and_mask_bound(x: u64, s: u64, m: u64)
    ensures
        (x >> s) & m <= m,
{
    assert((x >> s) & m <= m) by (bit_vector);
}

/// Every flag accessor yields a single bit: zero or one.
pub proof fn lemma_flags_are_bits(pte: u64)
    ensures
        spec_pte_v(pte) <= 1,
        spec_pte_r(pte) <= 1,
        spec_pte_w(pte) <= 1,
        spec_pte_x(pte) <= 1,
        spec_pte_u(pte) <= 1,
        spec_pte_g(pte) <= 1,
        spec_pte_a(pte) <= 1,
        spec_pte_d(pte) <= 1,
{
    lemma_and_mask_bound(pte, 0x1);
    lemma_shr_and_mask_bound(pte, 1, 0x1);
    lemma_shr_and_mask_bound(pte, 2, 0x1);
    lemma_shr_and_mask_bound(pte, 3, 0x1);
    lemma_shr_and_mask_bound(pte, 4, 0x1);
    lemma_shr_and_mask_bound(pte, 5, 0x1);
    lemma_shr_and_mask_bound(pte, 6, 0x1);
    lemma_shr_and_mask_bound(pte, 7, 0x1);
}

/// The root frame number always fits the frame field of a pointer PTE.
pub proof fn lemma_root_frame_bound(isa: Isa, satp: u64)
    ensures
        spec_root_frame(isa, satp) <= spec_frame_limit(isa),
{
    lemma_and_mask_bound(satp, 0x3F_FFFF);
    lemma_and_mask_bound(satp, 0xFFF_FFFF_FFFF);
}

/// Byte address of the PTE for `vpn_seg` in the table at `frame`.
pub fn pte_address(isa: Isa, frame: u64, vpn_seg: u64) -> (r: u64)
    requires
        frame <= spec_frame_limit(isa),
        vpn_seg <= 0x3FF,
    ensures
        r == spec_pte_address(isa, frame, vpn_seg),
{
    match isa {
        Isa::Rv32 => frame * PAGE_SIZE + vpn_seg * 4,
        Isa::Rv64 => frame * PAGE_SIZE + vpn_seg * 8,
    }
}

} // verus!
