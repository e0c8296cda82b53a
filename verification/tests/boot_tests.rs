use axplat_aarch64::boot::{
    boot_stage_message, cpu_id_from_mpidr, format_boot_usize, image_header, relocate,
    BootPageTable, PrimaryBootSequencer, SecondaryBootSequencer, TABLE_ENTRIES,
};

#[test]
fn boot_stage_labels() {
    assert_eq!(boot_stage_message(1), "\r\n[EL2->EL1] before switch_to_el1\r\n");
    assert_eq!(boot_stage_message(3), "\r\n[EL1] after init_mmu\r\n");
    assert_eq!(boot_stage_message(9), "\r\n[stage]\r\n");
}

#[test]
fn relocate_same_address_is_noop() {
    let mut mem: Vec<u8> = (0u32..64).map(|i| i as u8).collect();
    let snapshot = mem.clone();
    let outcome = relocate(&mut mem, 16, 8, 16, 0xDEAD_BEEF);
    assert_eq!(mem, snapshot);
    assert!(!outcome.copied);
    assert_eq!(outcome.entry, 16);
    assert_eq!(outcome.boot_arg, 0xDEAD_BEEF);
}

#[test]
fn relocate_copies_every_byte() {
    let mut mem: Vec<u8> = (0u32..64).map(|i| i as u8).collect();
    let snapshot = mem.clone();
    let outcome = relocate(&mut mem, 8, 8, 40, 0x1234);
    assert!(outcome.copied);
    assert_eq!(outcome.entry, 40);
    assert_eq!(outcome.boot_arg, 0x1234);
    for i in 0..8 {
        assert_eq!(mem[40 + i], snapshot[8 + i]);
    }
    for k in 0..64 {
        if !(40..48).contains(&k) {
            assert_eq!(mem[k], snapshot[k]);
        }
    }
}

#[test]
fn boot_page_table_builder_idempotent() {
    let mut a = BootPageTable::new();
    a.init_boot_page_table(0x8_1000);
    let first: Vec<(u64, u64)> = (0..TABLE_ENTRIES)
        .map(|i| (a.root_entry(i), a.next_entry(i)))
        .collect();
    a.init_boot_page_table(0x8_1000);
    for i in 0..TABLE_ENTRIES {
        assert_eq!(a.root_entry(i), first[i].0);
        assert_eq!(a.next_entry(i), first[i].1);
    }
}

#[test]
fn boot_page_table_layout() {
    let mut pt = BootPageTable::new();
    pt.init_boot_page_table(0x8_1000);
    // Root slot 0 points at the next-level table; all other root slots stay empty.
    assert_eq!(pt.root_entry(0), 0x8_1000 | 0x3);
    for i in 1..TABLE_ENTRIES {
        assert_eq!(pt.root_entry(i), 0);
    }
    // Slot 0: device block at physical 0 (valid, AF, PXN, UXN, attr index 0).
    assert_eq!(pt.next_entry(0), 0x0060_0000_0000_0401);
    // Slots 1-3: normal executable blocks for the next three gigabytes.
    assert_eq!(pt.next_entry(1), 0x0040_0000_4000_0705);
    assert_eq!(pt.next_entry(2), 0x0040_0000_8000_0705);
    assert_eq!(pt.next_entry(3), 0x0040_0000_C000_0705);
    for i in 4..TABLE_ENTRIES {
        assert_eq!(pt.next_entry(i), 0);
    }
}

#[test]
fn cpu_id_masks_affinity_bits() {
    assert_eq!(cpu_id_from_mpidr(0x0000_0000_8000_0003), 3);
    assert_eq!(cpu_id_from_mpidr(0xFFFF_FFFF_FFFF_FFFF), 0xFF_FFFF);
    assert_eq!(cpu_id_from_mpidr(0), 0);
}

#[test]
fn format_boot_usize_zero() {
    assert_eq!(format_boot_usize(0), b"0x0\r\n".to_vec());
}

#[test]
fn format_boot_usize_digits() {
    assert_eq!(format_boot_usize(0x1A2B), b"0x1a2b\r\n".to_vec());
    assert_eq!(format_boot_usize(9), b"0x9\r\n".to_vec());
    assert_eq!(format_boot_usize(0xF0), b"0xf0\r\n".to_vec());
}

#[test]
fn image_header_layout() {
    let size: u64 = 0x12_3456;
    let h = image_header(0xAABB_CCDD_EEFF_0011, size);
    assert_eq!(h.len(), 64);
    // Entry code quad, little-endian.
    assert_eq!(&h[0..8], &0xAABB_CCDD_EEFF_0011u64.to_le_bytes());
    // Image load offset from start of RAM: zero.
    assert_eq!(&h[8..16], &[0u8; 8]);
    // Effective image size, little-endian.
    assert_eq!(&h[16..24], &size.to_le_bytes());
    // Flags: little-endian kernel, 4K pages, any load address.
    assert_eq!(&h[24..32], &0b1010u64.to_le_bytes());
    // Three reserved quads.
    assert_eq!(&h[32..56], &[0u8; 24]);
    // Magic "ARM\x64" and a reserved word.
    assert_eq!(&h[56..60], b"ARM\x64");
    assert_eq!(&h[60..64], &[0u8; 4]);
}

#[test]
fn primary_boot_sequence_hands_off_saved_values() {
    let dtb: u64 = 0x4400_0000;
    let mut pt = BootPageTable::new();
    let mut seq = PrimaryBootSequencer::start(dtb);
    seq.mark_relocated();
    seq.derive_cpu_id(0x8000_0003);
    seq.assign_stack(0x4008_0000);
    seq.lower_exception_level();
    seq.enable_fp(true);
    seq.build_page_table(&mut pt, 0x8_0000, 0x8_1000);
    seq.enable_mmu();
    seq.rebase_stack();
    let (cpu_id, boot_arg) = seq.handoff();
    assert_eq!(cpu_id, 3);
    assert_eq!(boot_arg, dtb);
    // The page table was built along the way.
    assert_eq!(pt.root_entry(0), 0x8_1000 | 0x3);
}

#[test]
fn secondary_boot_sequence_hands_off_cpu_id() {
    let pt = {
        let mut pt = BootPageTable::new();
        pt.init_boot_page_table(0x8_1000);
        pt
    };
    let mut seq = SecondaryBootSequencer::start(0x4010_0000);
    seq.derive_cpu_id(0x8000_0001);
    seq.lower_exception_level();
    seq.enable_fp(false);
    seq.enable_mmu(0x8_0000, &pt);
    seq.rebase_stack();
    let cpu_id = seq.handoff();
    assert_eq!(cpu_id, 1);
}
