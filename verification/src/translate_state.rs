//! Step-by-step translation state for a consumer that displays a walk one
//! level at a time: the decomposed VPN and PPN segments of the current
//! step, which level is being shown, and whether a result is ready.
//!
//! The segment layout is the three-level one of the 39-bit virtual-memory
//! system, matching the display this state was made for.

use vstd::prelude::*;

use crate::bit_field::lemma_flags_are_bits;
use crate::bit_field::pte_r;
use crate::bit_field::pte_x;
use crate::bit_field::spec_ppn_segment;
use crate::bit_field::spec_vpn_segment;
use crate::mmu::Isa;
use crate::mmu::spec_is_leaf_pte;

verus! {

/// Display state of a walk in progress.
#[derive(Clone)]
pub struct TranslateState {
    /// Virtual page number segments, lowest first.
    pub vpn: [u32; 3],
    /// Physical page number segments of the PTE last entered, lowest first.
    pub ppn: [u32; 3],
    /// Which translation levels are shown, deepest first.
    pub level_flags: [bool; 3],
    /// Whether the final result is shown.
    pub result_flag: bool,
}

impl TranslateState {
    /// Initial state: no segments yet, only the top level shown, no result.
    pub fn new() -> (r: TranslateState)
        ensures
            r.vpn@ == seq![0u32, 0u32, 0u32],
            r.ppn@ == seq![0u32, 0u32, 0u32],
            r.level_flags@ == seq![false, false, true],
            r.result_flag == false,
    {
        let r = TranslateState {
            vpn: [0, 0, 0],
            ppn: [0, 0, 0],
            level_flags: [false, false, true],
            result_flag: false,
        };
        proof {
            assert(r.vpn@ =~= seq![0u32, 0u32, 0u32]);
            assert(r.ppn@ =~= seq![0u32, 0u32, 0u32]);
            assert(r.level_flags@ =~= seq![false, false, true]);
        }
        r
    }

    /// Decomposes `vpn_value` into its three VPN segments.
    pub fn set_vpn(&mut self, vpn_value: u64)
        ensures
            final(self).vpn@[0] == spec_vpn_segment(Isa::Rv64, vpn_value, 0) as u32,
            final(self).vpn@[1] == spec_vpn_segment(Isa::Rv64, vpn_value, 1) as u32,
            final(self).vpn@[2] == spec_vpn_segment(Isa::Rv64, vpn_value, 2) as u32,
            final(self).ppn == old(self).ppn,
            final(self).level_flags == old(self).level_flags,
            final(self).result_flag == old(self).result_flag,
    {
        self.vpn[0] = ((vpn_value >> 12) & 0x1ff) as u32;
        self.vpn[1] = ((vpn_value >> 21) & 0x1ff) as u32;
        self.vpn[2] = ((vpn_value >> 30) & 0x1ff) as u32;
    }

    /// VPN segment at `index`.
    pub fn vpn(&self, index: usize) -> (r: u64)
        requires
            index < 3,
        ensures
            r == self.vpn@[index as int] as u64,
    {
        self.vpn[index] as u64
    }

    /// Decomposes `ppn_value` into its three PPN segments.
    pub fn set_ppn(&mut self, ppn_value: u64)
        ensures
            final(self).ppn@[0] == spec_ppn_segment(Isa::Rv64, ppn_value, 0) as u32,
            final(self).ppn@[1] == spec_ppn_segment(Isa::Rv64, ppn_value, 1) as u32,
            final(self).ppn@[2] == spec_ppn_segment(Isa::Rv64, ppn_value, 2) as u32,
            final(self).vpn == old(self).vpn,
            final(self).level_flags == old(self).level_flags,
            final(self).result_flag == old(self).result_flag,
    {
        self.ppn[0] = ((ppn_value >> 10) & 0x1ff) as u32;
        self.ppn[1] = ((ppn_value >> 19) & 0x1ff) as u32;
        self.ppn[2] = ((ppn_value >> 28) & 0x03ff_ffff) as u32;
    }

    /// PPN segment at `index`.
    pub fn ppn(&self, index: usize) -> (r: u64)
        requires
            index < 3,
        ensures
            r == self.ppn@[index as int] as u64,
    {
        self.ppn[index] as u64
    }

    /// Records what the PTE just entered means for the display: a pointer
    /// shows the next level, a leaf shows the result.
    pub fn enable_flags(&mut self, index: usize, pte: u64)
        requires
            index < 3,
        ensures
            final(self).level_flags@[index as int] == !spec_is_leaf_pte(pte),
            forall|i: int|
                0 <= i < 3 && i != index ==> final(self).level_flags@[i] == old(
                    self,
                ).level_flags@[i],
            final(self).result_flag == spec_is_leaf_pte(pte),
            final(self).vpn == old(self).vpn,
            final(self).ppn == old(self).ppn,
    {
        proof {
            lemma_flags_are_bits(pte);
        }
        self.level_flags[index] = pte_r(pte) == 0 && pte_x(pte) == 0;
        self.result_flag = pte_r(pte) == 1 || pte_x(pte) == 1;
    }

    /// Whether the level at `index` is shown.
    pub fn flags(&self, index: usize) -> (r: bool)
        requires
            index < 3,
        ensures
            r == self.level_flags@[index as int],
    {
        self.level_flags[index]
    }

    /// Sets whether the final result is shown.
    pub fn set_result_flag(&mut self, new_val: bool)
        ensures
            final(self).result_flag == new_val,
            final(self).vpn == old(self).vpn,
            final(self).ppn == old(self).ppn,
            final(self).level_flags == old(self).level_flags,
    {
        self.result_flag = new_val;
    }

    /// Whether the final result is shown.
    pub fn result_flag(&self) -> (r: bool)
        ensures
            r == self.result_flag,
    {
        self.result_flag
    }

    /// The deepest level currently shown.
    pub fn get_level(&self) -> (r: usize)
        requires
            exists|i: int| 0 <= i < 3 && self.level_flags@[i],
        ensures
            r < 3,
            self.level_flags@[r as int],
            forall|j: int| 0 <= j < r ==> !self.level_flags@[j],
    {
        if self.level_flags[0] {
            0
        } else if self.level_flags[1] {
            1
        } else {
            2
        }
    }
}

} // verus!
