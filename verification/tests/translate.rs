use svxx_mmu::memory::SparseMemory;
use svxx_mmu::mmu::AddrTransMode;
use svxx_mmu::mmu::Isa;
use svxx_mmu::mmu::Mmu;
use svxx_mmu::mmu::PrivilegedLevel;
use svxx_mmu::mmu::TransAlign;
use svxx_mmu::mmu::TransError;
use svxx_mmu::mmu::TransFor;
use svxx_mmu::mmu::TrapCause;
use svxx_mmu::status::StatusOracle;

fn oracle() -> StatusOracle {
    StatusOracle::new(false, false)
}

#[test]
fn machine_level_identity() {
    let mem = SparseMemory::new();
    // even with an unsupported mode encoding in the root register
    let mut mmu = Mmu::new(0, 0x1000_0000_0000_0000, AddrTransMode::Bare, Isa::Rv64);
    let r = mmu.trans_addr(TransFor::Load, 0xDEAD_B000, PrivilegedLevel::Machine, &mem, &oracle());
    assert_eq!(r, Ok(0xDEAD_B000));
}

#[test]
fn reserved_level_identity() {
    let mem = SparseMemory::new();
    let mut mmu = Mmu::new(0, 0x8000_0100, AddrTransMode::Bare, Isa::Rv32);
    let r = mmu.trans_addr(TransFor::Fetch, 0x1234, PrivilegedLevel::Reserved, &mem, &oracle());
    assert_eq!(r, Ok(0x1234));
}

#[test]
fn bare_mode_identity_rv32() {
    let mem = SparseMemory::new();
    let mut mmu = Mmu::new(0, 0x7FFF_FFFF, AddrTransMode::Sv32, Isa::Rv32);
    for purpose in [TransFor::Fetch, TransFor::Load, TransFor::StoreAMO, TransFor::Deleg] {
        for lv in [PrivilegedLevel::User, PrivilegedLevel::Supervisor] {
            let r = mmu.trans_addr(purpose, 0xCAFE_F00D, lv, &mem, &oracle());
            assert_eq!(r, Ok(0xCAFE_F00D));
        }
    }
}

#[test]
fn bare_mode_identity_rv64() {
    let mem = SparseMemory::new();
    let mut mmu = Mmu::new(0, 0x0000_0000_0002_0000, AddrTransMode::Sv39, Isa::Rv64);
    let r = mmu.trans_addr(TransFor::Load, 0xFFFF_FFFF_FFFF, PrivilegedLevel::User, &mem, &oracle());
    assert_eq!(r, Ok(0xFFFF_FFFF_FFFF));
}

#[test]
fn unsupported_mode_is_a_config_fault() {
    let mem = SparseMemory::new();
    let mut mmu = Mmu::new(0, 0x1000_0000_0000_0000, AddrTransMode::Bare, Isa::Rv64);
    let r = mmu.trans_addr(TransFor::Load, 0, PrivilegedLevel::Supervisor, &mem, &oracle());
    assert_eq!(r, Err(TransError::UnsupportedMode));
}

#[test]
fn sv32_two_level_walk() {
    let mut mem = SparseMemory::new();
    // root table at frame 0x100; vaddr = vpn1 42, vpn0 63, offset 0x123
    let vaddr: u64 = (42 << 22) | (63 << 12) | 0x123;
    // level-1 PTE: a pointer to the table at frame 0x200
    mem.set_word(0x100 * 4096 + 42 * 4, (0x200 << 10) | 0x1);
    // level-0 PTE: a leaf with ppn1 0x55, ppn0 0x66, V R U A set
    mem.set_word(0x200 * 4096 + 63 * 4, (0x55 << 20) | (0x66 << 10) | 0x53);
    let mut mmu = Mmu::new(0, 0x8000_0000 | 0x100, AddrTransMode::Bare, Isa::Rv32);
    let r = mmu.trans_addr(TransFor::Load, vaddr, PrivilegedLevel::User, &mem, &oracle());
    let expected: u64 = (0x55 << 22) | (0x66 << 12) | 0x123;
    assert_eq!(r, Ok(expected));
    // the page-offset bits pass through unchanged
    assert_eq!(expected & 0xFFF, vaddr & 0xFFF);
}

#[test]
fn sv39_three_level_walk() {
    let mut mem = SparseMemory::new();
    // root table at frame 0x1000; vaddr = vpn2 5, vpn1 6, vpn0 7, offset 0xABC
    let vaddr: u64 = (5 << 30) | (6 << 21) | (7 << 12) | 0xABC;
    mem.set_word(0x1000 * 4096 + 5 * 8, (0x2000 << 10) | 0x1);
    mem.set_word(0x2000 * 4096 + 6 * 8, (0x3000 << 10) | 0x1);
    // leaf with ppn2 0x11, ppn1 0x22, ppn0 0x33, V R U A set
    mem.set_word(0x3000 * 4096 + 7 * 8, (0x11 << 28) | (0x22 << 19) | (0x33 << 10) | 0x53);
    let mut mmu = Mmu::new(0, (8 << 60) | 0x1000, AddrTransMode::Bare, Isa::Rv64);
    let r = mmu.trans_addr(TransFor::Load, vaddr, PrivilegedLevel::User, &mem, &oracle());
    let expected: u64 = (0x11 << 30) | (0x22 << 21) | (0x33 << 12) | 0xABC;
    assert_eq!(r, Ok(expected));
    assert_eq!(expected & 0xFFF, vaddr & 0xFFF);
}

#[test]
fn sv32_superpage_substitutes_vpn() {
    let mut mem = SparseMemory::new();
    // the root-indexed PTE is already a leaf: ppn1 0x77, ppn0 unset
    let vaddr: u64 = (3 << 22) | (0x11 << 12) | 0x45;
    mem.set_word(0x100 * 4096 + 3 * 4, (0x77 << 20) | 0x53);
    let mut mmu = Mmu::new(0, 0x8000_0000 | 0x100, AddrTransMode::Bare, Isa::Rv32);
    let r = mmu.trans_addr(TransFor::Load, vaddr, PrivilegedLevel::User, &mem, &oracle());
    // the middle VPN segment passes through to the physical address
    assert_eq!(r, Ok((0x77 << 22) | (0x11 << 12) | 0x45));
}

#[test]
fn sv39_superpage_substitutes_vpn() {
    let mut mem = SparseMemory::new();
    // a leaf at the middle level: ppn2 0x19, ppn1 0x2B, ppn0 unset
    let vaddr: u64 = (9 << 30) | (8 << 21) | (0x155 << 12) | 0x9F;
    mem.set_word(0x1000 * 4096 + 9 * 8, (0x2000 << 10) | 0x1);
    mem.set_word(0x2000 * 4096 + 8 * 8, (0x19 << 28) | (0x2B << 19) | 0x53);
    let mut mmu = Mmu::new(0, (8 << 60) | 0x1000, AddrTransMode::Bare, Isa::Rv64);
    let r = mmu.trans_addr(TransFor::Load, vaddr, PrivilegedLevel::User, &mem, &oracle());
    assert_eq!(r, Ok((0x19 << 30) | (0x2B << 21) | (0x155 << 12) | 0x9F));
}

#[test]
fn misaligned_superpage_faults() {
    let mut mem = SparseMemory::new();
    // top-level leaf whose low PPN segment is not zero
    let vaddr: u64 = (3 << 22) | (0x11 << 12) | 0x45;
    mem.set_word(0x100 * 4096 + 3 * 4, (0x77 << 20) | (0x1 << 10) | 0x53);
    let mut mmu = Mmu::new(0, 0x8000_0000 | 0x100, AddrTransMode::Bare, Isa::Rv32);
    let r = mmu.trans_addr(TransFor::Load, vaddr, PrivilegedLevel::User, &mem, &oracle());
    assert_eq!(r, Err(TransError::Trap(TrapCause::LoadPageFault)));
}

#[test]
fn invalid_pte_cause_follows_purpose() {
    let mut mem = SparseMemory::new();
    // root-indexed PTE with Valid clear
    mem.set_word(0x100 * 4096, 0x52);
    for (purpose, cause) in [
        (TransFor::Fetch, TrapCause::InstPageFault),
        (TransFor::Deleg, TrapCause::InstPageFault),
        (TransFor::Load, TrapCause::LoadPageFault),
        (TransFor::StoreAMO, TrapCause::StoreAMOPageFault),
    ] {
        for lv in [PrivilegedLevel::User, PrivilegedLevel::Supervisor] {
            let mut mmu = Mmu::new(0, 0x8000_0000 | 0x100, AddrTransMode::Bare, Isa::Rv32);
            let r = mmu.trans_addr(purpose, 0, lv, &mem, &oracle());
            assert_eq!(r, Err(TransError::Trap(cause)));
        }
    }
}

#[test]
fn writable_without_readable_faults() {
    let mut mem = SparseMemory::new();
    // V set, W set, R clear: a reserved encoding
    mem.set_word(0x100 * 4096, 0x5);
    let mut mmu = Mmu::new(0, 0x8000_0000 | 0x100, AddrTransMode::Bare, Isa::Rv32);
    let r = mmu.trans_addr(TransFor::Fetch, 0, PrivilegedLevel::Supervisor, &mem, &oracle());
    assert_eq!(r, Err(TransError::Trap(TrapCause::InstPageFault)));
}

#[test]
fn accessed_clear_faults() {
    let mut mem = SparseMemory::new();
    // leaf with every permission bit set except Accessed
    mem.set_word(0x100 * 4096, (0x9 << 20) | 0x9F);
    let mut mmu = Mmu::new(0, 0x8000_0000 | 0x100, AddrTransMode::Bare, Isa::Rv32);
    let r = mmu.trans_addr(TransFor::Load, 0, PrivilegedLevel::User, &mem, &oracle());
    assert_eq!(r, Err(TransError::Trap(TrapCause::LoadPageFault)));
    let r = mmu.trans_addr(TransFor::Fetch, 0, PrivilegedLevel::User, &mem, &oracle());
    assert_eq!(r, Err(TransError::Trap(TrapCause::InstPageFault)));
}

#[test]
fn store_with_dirty_clear_faults() {
    let mut mem = SparseMemory::new();
    // leaf with V R W U A set but Dirty clear
    mem.set_word(0x100 * 4096, (0x9 << 20) | 0x57);
    let mut mmu = Mmu::new(0, 0x8000_0000 | 0x100, AddrTransMode::Bare, Isa::Rv32);
    let r = mmu.trans_addr(TransFor::StoreAMO, 0, PrivilegedLevel::User, &mem, &oracle());
    assert_eq!(r, Err(TransError::Trap(TrapCause::StoreAMOPageFault)));
}

#[test]
fn store_with_dirty_set_succeeds() {
    let mut mem = SparseMemory::new();
    // leaf with V R W U A D set
    mem.set_word(0x100 * 4096, (0x9 << 20) | 0xD7);
    let mut mmu = Mmu::new(0, 0x8000_0000 | 0x100, AddrTransMode::Bare, Isa::Rv32);
    let r = mmu.trans_addr(TransFor::StoreAMO, 0x321, PrivilegedLevel::User, &mem, &oracle());
    assert_eq!(r, Ok((0x9 << 22) | 0x321));
}

#[test]
fn all_pointers_exhaust_levels_and_fault() {
    let mut mem = SparseMemory::new();
    // both levels hold valid pointer PTEs, so no leaf is ever found
    mem.set_word(0x100 * 4096, (0x200 << 10) | 0x1);
    mem.set_word(0x200 * 4096, (0x300 << 10) | 0x1);
    for (purpose, cause) in [
        (TransFor::Fetch, TrapCause::InstPageFault),
        (TransFor::Load, TrapCause::LoadPageFault),
        (TransFor::StoreAMO, TrapCause::StoreAMOPageFault),
    ] {
        let mut mmu = Mmu::new(0, 0x8000_0000 | 0x100, AddrTransMode::Bare, Isa::Rv32);
        let r = mmu.trans_addr(purpose, 0, PrivilegedLevel::Supervisor, &mem, &oracle());
        assert_eq!(r, Err(TransError::Trap(cause)));
    }
}

#[test]
fn unbacked_read_faults() {
    let mem = SparseMemory::new();
    let mut mmu = Mmu::new(0, 0x8000_0000 | 0x100, AddrTransMode::Bare, Isa::Rv32);
    let r = mmu.trans_addr(TransFor::Load, 0, PrivilegedLevel::Supervisor, &mem, &oracle());
    assert_eq!(r, Err(TransError::Trap(TrapCause::LoadPageFault)));
}

#[test]
fn user_bit_gates_user_access() {
    let mut mem = SparseMemory::new();
    // leaf with V R A set but U clear
    mem.set_word(0x100 * 4096, (0x9 << 20) | 0x43);
    let mut mmu = Mmu::new(0, 0x8000_0000 | 0x100, AddrTransMode::Bare, Isa::Rv32);
    let r = mmu.trans_addr(TransFor::Load, 0, PrivilegedLevel::User, &mem, &oracle());
    assert_eq!(r, Err(TransError::Trap(TrapCause::LoadPageFault)));
    // the same page is readable at Supervisor level
    let r = mmu.trans_addr(TransFor::Load, 0, PrivilegedLevel::Supervisor, &mem, &oracle());
    assert_eq!(r, Ok(0x9 << 22));
}

#[test]
fn supervisor_load_of_user_page_needs_sum() {
    let mut mem = SparseMemory::new();
    // user-accessible leaf with V R U A set
    mem.set_word(0x100 * 4096, (0x9 << 20) | 0x53);
    let mut mmu = Mmu::new(0, 0x8000_0000 | 0x100, AddrTransMode::Bare, Isa::Rv32);
    let r = mmu.trans_addr(
        TransFor::Load,
        0,
        PrivilegedLevel::Supervisor,
        &mem,
        &StatusOracle::new(false, false),
    );
    assert_eq!(r, Err(TransError::Trap(TrapCause::LoadPageFault)));
    let r = mmu.trans_addr(
        TransFor::Load,
        0,
        PrivilegedLevel::Supervisor,
        &mem,
        &StatusOracle::new(true, false),
    );
    assert_eq!(r, Ok(0x9 << 22));
}

#[test]
fn execute_only_page_needs_mxr_for_load() {
    let mut mem = SparseMemory::new();
    // leaf with V X U A set but R clear
    mem.set_word(0x100 * 4096, (0x9 << 20) | 0x59);
    let mut mmu = Mmu::new(0, 0x8000_0000 | 0x100, AddrTransMode::Bare, Isa::Rv32);
    let r = mmu.trans_addr(
        TransFor::Load,
        0,
        PrivilegedLevel::User,
        &mem,
        &StatusOracle::new(false, false),
    );
    assert_eq!(r, Err(TransError::Trap(TrapCause::LoadPageFault)));
    let r = mmu.trans_addr(
        TransFor::Load,
        0,
        PrivilegedLevel::User,
        &mem,
        &StatusOracle::new(false, true),
    );
    assert_eq!(r, Ok(0x9 << 22));
}

#[test]
fn fetch_needs_executable() {
    let mut mem = SparseMemory::new();
    // readable leaf without X
    mem.set_word(0x100 * 4096, (0x9 << 20) | 0x53);
    let mut mmu = Mmu::new(0, 0x8000_0000 | 0x100, AddrTransMode::Bare, Isa::Rv32);
    for purpose in [TransFor::Fetch, TransFor::Deleg] {
        let r = mmu.trans_addr(purpose, 0, PrivilegedLevel::User, &mem, &oracle());
        assert_eq!(r, Err(TransError::Trap(TrapCause::InstPageFault)));
    }
    // executable leaf passes
    let mut mem = SparseMemory::new();
    mem.set_word(0x100 * 4096, (0x9 << 20) | 0x5B);
    let r = mmu.trans_addr(TransFor::Fetch, 0, PrivilegedLevel::User, &mem, &oracle());
    assert_eq!(r, Ok(0x9 << 22));
}

#[test]
fn update_ppn_and_mode_decodes_the_root_register() {
    let mut mmu = Mmu::new(0, 0x8000_0000 | 0x345, AddrTransMode::Bare, Isa::Rv32);
    assert_eq!(mmu.update_ppn_and_mode(), Ok(()));
    assert_eq!(mmu.ppn, 0x345);
    assert_eq!(mmu.trans_mode, AddrTransMode::Sv32);

    let mut mmu = Mmu::new(0, 0x345, AddrTransMode::Sv32, Isa::Rv32);
    assert_eq!(mmu.update_ppn_and_mode(), Ok(()));
    assert_eq!(mmu.ppn, 0x345);
    assert_eq!(mmu.trans_mode, AddrTransMode::Bare);

    let mut mmu = Mmu::new(0, (8 << 60) | 0xABC, AddrTransMode::Bare, Isa::Rv64);
    assert_eq!(mmu.update_ppn_and_mode(), Ok(()));
    assert_eq!(mmu.ppn, 0xABC);
    assert_eq!(mmu.trans_mode, AddrTransMode::Sv39);

    let mut mmu = Mmu::new(0, 0xABC, AddrTransMode::Sv39, Isa::Rv64);
    assert_eq!(mmu.update_ppn_and_mode(), Ok(()));
    assert_eq!(mmu.trans_mode, AddrTransMode::Bare);

    let mut mmu = Mmu::new(0x777, (3 << 60) | 0xABC, AddrTransMode::Bare, Isa::Rv64);
    assert_eq!(mmu.update_ppn_and_mode(), Err(TransError::UnsupportedMode));
    // the decoded state is left untouched on a configuration fault
    assert_eq!(mmu.ppn, 0x777);
}

#[test]
fn checker_helpers() {
    let mmu = Mmu::new(0, 0, AddrTransMode::Bare, Isa::Rv32);
    assert!(mmu.is_leaf_pte(0x2));
    assert!(mmu.is_leaf_pte(0x8));
    assert!(!mmu.is_leaf_pte(0x1));
    assert_eq!(mmu.check_pte_validity(TransFor::Load, 0x1), Ok(0x1));
    assert_eq!(
        mmu.check_pte_validity(TransFor::Load, 0x0),
        Err(TrapCause::LoadPageFault)
    );
    assert_eq!(
        mmu.check_pte_validity(TransFor::StoreAMO, 0x5),
        Err(TrapCause::StoreAMOPageFault)
    );
    assert_eq!(mmu.trap_cause(TransFor::Fetch), TrapCause::InstPageFault);
    assert_eq!(mmu.trap_cause(TransFor::Deleg), TrapCause::InstPageFault);
    assert_eq!(mmu.trap_cause(TransFor::Load), TrapCause::LoadPageFault);
    assert_eq!(mmu.trap_cause(TransFor::StoreAMO), TrapCause::StoreAMOPageFault);
    assert_eq!(
        mmu.check_leaf_pte(TransFor::Load, PrivilegedLevel::User, 0x53, &oracle()),
        Ok(0x53)
    );
    assert_eq!(
        mmu.check_leaf_pte(TransFor::Load, PrivilegedLevel::User, 0x13, &oracle()),
        Err(TrapCause::LoadPageFault)
    );
}

#[test]
fn trap_cause_codes() {
    assert_eq!(TrapCause::InstAddrMisaligned.code(), 0);
    assert_eq!(TrapCause::MmodeEcall.code(), 11);
    assert_eq!(TrapCause::InstPageFault.code(), 12);
    assert_eq!(TrapCause::LoadPageFault.code(), 13);
    assert_eq!(TrapCause::StoreAMOPageFault.code(), 15);
    assert_eq!(TrapCause::SupervisorSoftwareInterrupt.code(), (1 << 31) + 1);
    assert_eq!(TrapCause::MachineExternalInterrupt.code(), (1 << 31) + 11);
}

#[test]
fn trans_align_bytes() {
    assert_eq!(TransAlign::Size8.bytes(), 1);
    assert_eq!(TransAlign::Size16.bytes(), 2);
    assert_eq!(TransAlign::Size32.bytes(), 4);
    assert_eq!(TransAlign::Size64.bytes(), 8);
}
