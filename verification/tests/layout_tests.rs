use rv_loader::image::{copy_segment, load_segments, LoadError};
use rv_loader::layout::{
    compute_layout, round_to_page, LayoutError, LoadLayout, Segment, PAGE_SIZE, PT_LOAD,
};
use rv_loader::names::riscv_rel_name;

fn load(vaddr: u64, offset: u64, filesz: u64, memsz: u64) -> Segment {
    Segment { p_type: PT_LOAD, flags: 5, offset, vaddr, filesz, memsz }
}

#[test]
fn single_segment_layout() {
    let segs = vec![load(0x1000, 0, 0x100, 0x100)];
    assert_eq!(
        compute_layout(&segs),
        Ok(LoadLayout { min_vaddr: 0x1000, max_vaddr: 0x1100, image_size: 0x100, alloc_size: 4096 })
    );
}

#[test]
fn layout_spans_all_loadable_segments() {
    let segs = vec![
        Segment { p_type: 6, flags: 4, offset: 0x34, vaddr: 0x34, filesz: 0x60, memsz: 0x60 },
        load(0x3000, 0x1000, 0x10, 0x2001),
        load(0x1000, 0x100, 0x200, 0x200),
        Segment { p_type: 2, flags: 6, offset: 0, vaddr: 0x9000_0000, filesz: 0, memsz: 0x1000 },
        load(0x2000, 0x400, 0x80, 0x100),
    ];
    assert_eq!(
        compute_layout(&segs),
        Ok(LoadLayout {
            min_vaddr: 0x1000,
            max_vaddr: 0x5001,
            image_size: 0x4001,
            alloc_size: 0x5000,
        })
    );
}

#[test]
fn layout_without_loadable_segment_is_refused() {
    let none: Vec<Segment> = Vec::new();
    assert_eq!(compute_layout(&none), Err(LayoutError::NoLoadableSegment));
    let segs =
        vec![Segment { p_type: 2, flags: 6, offset: 0, vaddr: 0x1000, filesz: 0, memsz: 0x10 }];
    assert_eq!(compute_layout(&segs), Err(LayoutError::NoLoadableSegment));
}

#[test]
fn layout_beyond_the_address_space_is_refused() {
    let segs = vec![load(0x1000, 0, 0, 0x10), load(u64::MAX, 0, 0, 1)];
    assert_eq!(compute_layout(&segs), Err(LayoutError::AddressOverflow));
    let segs = vec![load(0, 0, 0, u64::MAX)];
    assert_eq!(compute_layout(&segs), Err(LayoutError::AddressOverflow));
    let segs = vec![load(0, 0, 0, u64::MAX - 4095)];
    assert_eq!(
        compute_layout(&segs),
        Ok(LoadLayout {
            min_vaddr: 0,
            max_vaddr: u64::MAX - 4095,
            image_size: u64::MAX - 4095,
            alloc_size: u64::MAX - 4095,
        })
    );
}

#[test]
fn sizes_round_up_to_whole_pages() {
    assert_eq!(PAGE_SIZE, 4096);
    assert_eq!(round_to_page(0), Some(0));
    assert_eq!(round_to_page(1), Some(4096));
    assert_eq!(round_to_page(4095), Some(4096));
    assert_eq!(round_to_page(4096), Some(4096));
    assert_eq!(round_to_page(4097), Some(8192));
    assert_eq!(round_to_page(u64::MAX - 4095), Some(u64::MAX - 4095));
    assert_eq!(round_to_page(u64::MAX - 4094), None);
    assert_eq!(round_to_page(u64::MAX), None);
}

#[test]
fn segment_at_lowest_address_goes_to_offset_zero() {
    let data: Vec<u8> = (0..=255u8).collect();
    let mut buf = vec![0xEEu8; 4096];
    let seg = load(0x1000, 0, 0x100, 0x100);
    assert_eq!(copy_segment(&mut buf, &data, &seg, 0x1000), Ok(()));
    assert_eq!(&buf[0..0x100], &data[..]);
    assert!(buf[0x100..].iter().all(|b| *b == 0xEE));
}

#[test]
fn copy_leaves_the_tail_of_the_segment_alone() {
    let data: Vec<u8> = vec![1, 2, 3, 4, 5, 6, 7, 8];
    let mut buf = vec![0x55u8; 32];
    let seg = load(0x2008, 2, 4, 16);
    assert_eq!(copy_segment(&mut buf, &data, &seg, 0x2000), Ok(()));
    let mut expected = vec![0x55u8; 32];
    expected[8..12].copy_from_slice(&[3, 4, 5, 6]);
    assert_eq!(buf, expected);
}

#[test]
fn copy_errors() {
    let data: Vec<u8> = vec![1, 2, 3, 4];
    let mut buf = vec![0u8; 8];
    assert_eq!(
        copy_segment(&mut buf, &data, &load(0xFFF, 0, 1, 1), 0x1000),
        Err(LoadError::BelowImage { vaddr: 0xFFF })
    );
    assert_eq!(
        copy_segment(&mut buf, &data, &load(0x1005, 0, 4, 4), 0x1000),
        Err(LoadError::ImageOverflow { vaddr: 0x1005 })
    );
    assert_eq!(
        copy_segment(&mut buf, &data, &load(0x1000, 1, 4, 4), 0x1000),
        Err(LoadError::FileTruncated { offset: 1 })
    );
    assert_eq!(
        copy_segment(&mut buf, &data, &load(0x1000, u64::MAX, 2, 2), 0x1000),
        Err(LoadError::FileTruncated { offset: u64::MAX })
    );
    assert_eq!(buf, vec![0u8; 8]);
    assert_eq!(copy_segment(&mut buf, &data, &load(0x1004, 0, 4, 4), 0x1000), Ok(()));
    assert_eq!(buf, vec![0, 0, 0, 0, 1, 2, 3, 4]);
    assert_eq!(copy_segment(&mut buf, &data, &load(0x1008, 4, 0, 0), 0x1000), Ok(()));
}

#[test]
fn load_copies_only_loadable_segments_in_order() {
    let data: Vec<u8> = vec![10, 11, 12, 13, 14, 15, 16, 17];
    let mut buf = vec![0u8; 12];
    let segs = vec![
        load(0x1000, 0, 4, 4),
        Segment { p_type: 4, flags: 4, offset: 4, vaddr: 0x1008, filesz: 4, memsz: 4 },
        load(0x1002, 4, 4, 8),
    ];
    assert_eq!(load_segments(&mut buf, &data, &segs, 0x1000), Ok(()));
    assert_eq!(buf, vec![10, 11, 14, 15, 16, 17, 0, 0, 0, 0, 0, 0]);
}

#[test]
fn load_stops_at_the_first_failure() {
    let data: Vec<u8> = vec![10, 11, 12, 13];
    let mut buf = vec![0u8; 8];
    let segs = vec![load(0x1000, 0, 2, 2), load(0x1007, 0, 2, 2), load(0x1004, 0, 2, 2)];
    assert_eq!(
        load_segments(&mut buf, &data, &segs, 0x1000),
        Err(LoadError::ImageOverflow { vaddr: 0x1007 })
    );
    assert_eq!(buf, vec![10, 11, 0, 0, 0, 0, 0, 0]);
}

#[test]
fn relocation_names() {
    assert_eq!(riscv_rel_name(0), "R_RISCV_NONE");
    assert_eq!(riscv_rel_name(11), "R_RISCV_TLS_TPREL64");
    assert_eq!(riscv_rel_name(12), "UNKNOWN");
    assert_eq!(riscv_rel_name(15), "UNKNOWN");
    assert_eq!(riscv_rel_name(18), "R_RISCV_CALL");
    assert_eq!(riscv_rel_name(19), "R_RISCV_CALL_PLT");
    assert_eq!(riscv_rel_name(26), "R_RISCV_HI20");
    assert_eq!(riscv_rel_name(27), "R_RISCV_LO12_I");
    assert_eq!(riscv_rel_name(41), "UNKNOWN");
    assert_eq!(riscv_rel_name(43), "R_RISCV_ALIGN");
    assert_eq!(riscv_rel_name(51), "R_RISCV_RELAX");
    assert_eq!(riscv_rel_name(58), "R_RISCV_IRELATIVE");
    assert_eq!(riscv_rel_name(59), "UNKNOWN");
    assert_eq!(riscv_rel_name(u32::MAX), "UNKNOWN");
}
