use sgx_types::{ByteOrder, Field, Flags, Tcs, TCS_ALIGN, TCS_FIELDS_END, TCS_SIZE};

const FIELDS: [Field; 11] = [
    Field::State,
    Field::Flags,
    Field::SsaOffset,
    Field::SsaIndex,
    Field::NrSsaFrames,
    Field::EntryOffset,
    Field::ExitAddr,
    Field::FsOffset,
    Field::GsOffset,
    Field::FsLimit,
    Field::GsLimit,
];

fn sample() -> Tcs {
    Tcs {
        state: 0x0102_0304_0506_0708,
        flags: Flags::dbgoptin(),
        ssa_offset: 0x1112_1314_1516_1718,
        ssa_index: 0x2122_2324,
        nr_ssa_frames: 0x3132_3334,
        entry_offset: 0x4142_4344_4546_4748,
        exit_addr: 0x5152_5354_5556_5758,
        fs_offset: 0x6162_6364_6566_6768,
        gs_offset: 0x7172_7374_7576_7778,
        fs_limit: 0x8182_8384,
        gs_limit: 0x9192_9394,
    }
}

fn value(t: &Tcs, f: Field) -> u64 {
    match f {
        Field::State => t.state,
        Field::Flags => t.flags.bits(),
        Field::SsaOffset => t.ssa_offset,
        Field::SsaIndex => u64::from(t.ssa_index),
        Field::NrSsaFrames => u64::from(t.nr_ssa_frames),
        Field::EntryOffset => t.entry_offset,
        Field::ExitAddr => t.exit_addr,
        Field::FsOffset => t.fs_offset,
        Field::GsOffset => t.gs_offset,
        Field::FsLimit => u64::from(t.fs_limit),
        Field::GsLimit => u64::from(t.gs_limit),
    }
}

fn u64_at(page: &[u8], at: usize) -> [u8; 8] {
    let mut b = [0u8; 8];
    b.copy_from_slice(&page[at..at + 8]);
    b
}

fn u32_at(page: &[u8], at: usize) -> [u8; 4] {
    let mut b = [0u8; 4];
    b.copy_from_slice(&page[at..at + 4]);
    b
}

fn read_native(page: &[u8], f: Field) -> u64 {
    if f.size() == 8 {
        u64::from_ne_bytes(u64_at(page, f.offset()))
    } else {
        u64::from(u32::from_ne_bytes(u32_at(page, f.offset())))
    }
}

fn read_little(page: &[u8], f: Field) -> u64 {
    if f.size() == 8 {
        u64::from_le_bytes(u64_at(page, f.offset()))
    } else {
        u64::from(u32::from_le_bytes(u32_at(page, f.offset())))
    }
}

fn read_big(page: &[u8], f: Field) -> u64 {
    if f.size() == 8 {
        u64::from_be_bytes(u64_at(page, f.offset()))
    } else {
        u64::from(u32::from_be_bytes(u32_at(page, f.offset())))
    }
}

#[test]
fn get_reads_each_field() {
    let t = sample();
    assert_eq!(t.get(Field::State), 0x0102_0304_0506_0708);
    assert_eq!(t.get(Field::Flags), 1);
    assert_eq!(t.get(Field::SsaOffset), 0x1112_1314_1516_1718);
    assert_eq!(t.get(Field::SsaIndex), 0x2122_2324);
    assert_eq!(t.get(Field::NrSsaFrames), 0x3132_3334);
    assert_eq!(t.get(Field::EntryOffset), 0x4142_4344_4546_4748);
    assert_eq!(t.get(Field::ExitAddr), 0x5152_5354_5556_5758);
    assert_eq!(t.get(Field::FsOffset), 0x6162_6364_6566_6768);
    assert_eq!(t.get(Field::GsOffset), 0x7172_7374_7576_7778);
    assert_eq!(t.get(Field::FsLimit), 0x8182_8384);
    assert_eq!(t.get(Field::GsLimit), 0x9192_9394);
    for f in FIELDS {
        assert_eq!(t.get(f), value(&t, f), "{:?}", f);
    }
}

#[test]
fn new_sets_the_three_inputs_and_zeroes_the_rest() {
    let t = Tcs::new(0x1000, 0x2000, 2);
    assert_eq!(t.state, 0);
    assert_eq!(t.flags, Flags::empty());
    assert_eq!(t.flags.bits(), 0);
    assert_eq!(t.ssa_offset, 0x2000);
    assert_eq!(t.ssa_index, 0);
    assert_eq!(t.nr_ssa_frames, 2);
    assert_eq!(t.entry_offset, 0x1000);
    assert_eq!(t.exit_addr, 0);
    assert_eq!(t.fs_offset, 0);
    assert_eq!(t.gs_offset, 0);
    assert_eq!(t.fs_limit, 0);
    assert_eq!(t.gs_limit, 0);
}

#[test]
fn new_takes_extreme_inputs_as_they_are() {
    let t = Tcs::new(u64::MAX, 0, u32::MAX);
    assert_eq!(t.entry_offset, u64::MAX);
    assert_eq!(t.ssa_offset, 0);
    assert_eq!(t.nr_ssa_frames, u32::MAX);
    let t = Tcs::new(0, u64::MAX, 0);
    assert_eq!(t.entry_offset, 0);
    assert_eq!(t.ssa_offset, u64::MAX);
    assert_eq!(t.nr_ssa_frames, 0);
    assert_eq!(t.state, 0);
    assert!(t.flags.is_empty());
}

#[test]
fn byte_view_is_one_page_long() {
    assert_eq!(Tcs::new(0x1000, 0x2000, 2).to_bytes().len(), 4096);
    assert_eq!(Tcs::new(0, 0, 0).to_bytes().len(), 4096);
    assert_eq!(sample().to_bytes().len(), 4096);
    assert_eq!(sample().to_bytes_in(ByteOrder::Little).len(), 4096);
    assert_eq!(sample().to_bytes_in(ByteOrder::Big).len(), 4096);
}

#[test]
fn page_size_and_alignment() {
    assert_eq!(TCS_SIZE, 4096);
    assert_eq!(TCS_ALIGN, 4096);
    assert_eq!(TCS_SIZE % TCS_ALIGN, 0);
    assert_eq!(TCS_FIELDS_END, 72);
    assert_eq!(std::mem::size_of_val(&sample().to_bytes()), 4096);
}

#[test]
fn scenario_entry_0x1000_ssa_0x2000_two_frames() {
    let page = Tcs::new(0x1000, 0x2000, 2).to_bytes();
    assert_eq!(u64::from_ne_bytes(u64_at(&page, 32)), 0x1000);
    assert_eq!(u64::from_ne_bytes(u64_at(&page, 16)), 0x2000);
    assert_eq!(u32::from_ne_bytes(u32_at(&page, 28)), 2);
    assert_eq!(u64::from_ne_bytes(u64_at(&page, 0)), 0);
    assert_eq!(u64::from_ne_bytes(u64_at(&page, 8)), 0);
}

#[test]
fn scenario_image_little_endian_bytes() {
    let page = Tcs::new(0x1000, 0x2000, 2).to_bytes_in(ByteOrder::Little);
    assert_eq!(page[0..16], [0u8; 16]);
    assert_eq!(page[16..24], [0x00, 0x20, 0, 0, 0, 0, 0, 0]);
    assert_eq!(page[24..28], [0, 0, 0, 0]);
    assert_eq!(page[28..32], [2, 0, 0, 0]);
    assert_eq!(page[32..40], [0x00, 0x10, 0, 0, 0, 0, 0, 0]);
    assert!(page[40..].iter().all(|b| *b == 0));
}

#[test]
fn scenario_image_big_endian_bytes() {
    let page = Tcs::new(0x1000, 0x2000, 2).to_bytes_in(ByteOrder::Big);
    assert_eq!(page[0..16], [0u8; 16]);
    assert_eq!(page[16..24], [0, 0, 0, 0, 0, 0, 0x20, 0x00]);
    assert_eq!(page[24..28], [0, 0, 0, 0]);
    assert_eq!(page[28..32], [0, 0, 0, 2]);
    assert_eq!(page[32..40], [0, 0, 0, 0, 0, 0, 0x10, 0x00]);
    assert!(page[40..].iter().all(|b| *b == 0));
}

#[test]
fn every_field_reads_back_from_the_native_image() {
    let t = sample();
    let page = t.to_bytes();
    for f in FIELDS {
        assert_eq!(read_native(&page, f), value(&t, f), "{:?}", f);
    }
}

#[test]
fn every_field_reads_back_in_either_order() {
    let t = sample();
    let little = t.to_bytes_in(ByteOrder::Little);
    let big = t.to_bytes_in(ByteOrder::Big);
    for f in FIELDS {
        assert_eq!(read_little(&little, f), value(&t, f), "{:?}", f);
        assert_eq!(read_big(&big, f), value(&t, f), "{:?}", f);
    }
}

#[test]
fn sample_image_bytes_are_exact() {
    let page = sample().to_bytes_in(ByteOrder::Big);
    let fields: [u8; 72] = [
        0x01, 0x02, 0x03, 0x04, 0x05, 0x06, 0x07, 0x08, 0, 0, 0, 0, 0, 0, 0, 1, 0x11, 0x12, 0x13,
        0x14, 0x15, 0x16, 0x17, 0x18, 0x21, 0x22, 0x23, 0x24, 0x31, 0x32, 0x33, 0x34, 0x41, 0x42,
        0x43, 0x44, 0x45, 0x46, 0x47, 0x48, 0x51, 0x52, 0x53, 0x54, 0x55, 0x56, 0x57, 0x58, 0x61,
        0x62, 0x63, 0x64, 0x65, 0x66, 0x67, 0x68, 0x71, 0x72, 0x73, 0x74, 0x75, 0x76, 0x77, 0x78,
        0x81, 0x82, 0x83, 0x84, 0x91, 0x92, 0x93, 0x94,
    ];
    assert_eq!(page[..72], fields);
    let page = sample().to_bytes_in(ByteOrder::Little);
    assert_eq!(page[0..8], [0x08, 0x07, 0x06, 0x05, 0x04, 0x03, 0x02, 0x01]);
    assert_eq!(page[8..16], [1, 0, 0, 0, 0, 0, 0, 0]);
    assert_eq!(page[24..28], [0x24, 0x23, 0x22, 0x21]);
    assert_eq!(page[68..72], [0x94, 0x93, 0x92, 0x91]);
}

#[test]
fn native_image_is_the_image_in_the_native_order() {
    let t = sample();
    assert_eq!(t.to_bytes(), t.to_bytes_in(ByteOrder::native()));
    let other = match ByteOrder::native() {
        ByteOrder::Little => ByteOrder::Big,
        ByteOrder::Big => ByteOrder::Little,
    };
    assert_ne!(t.to_bytes(), t.to_bytes_in(other));
}

#[test]
fn reserved_bytes_are_zero() {
    let all_ones = Tcs {
        state: u64::MAX,
        flags: Flags::all(),
        ssa_offset: u64::MAX,
        ssa_index: u32::MAX,
        nr_ssa_frames: u32::MAX,
        entry_offset: u64::MAX,
        exit_addr: u64::MAX,
        fs_offset: u64::MAX,
        gs_offset: u64::MAX,
        fs_limit: u32::MAX,
        gs_limit: u32::MAX,
    };
    for page in [all_ones.to_bytes(), sample().to_bytes(), Tcs::new(1, 2, 3).to_bytes()] {
        assert!(page[TCS_FIELDS_END..].iter().all(|b| *b == 0));
        assert_eq!(page[TCS_FIELDS_END..].len(), 4024);
    }
    let page = all_ones.to_bytes();
    assert!(page[..8].iter().all(|b| *b == 0xff));
    assert!(page[16..72].iter().all(|b| *b == 0xff));
}

#[test]
fn image_follows_a_changed_field() {
    let mut t = Tcs::new(0x1000, 0x2000, 2);
    t.exit_addr = 0xdead_beef;
    t.flags.insert(Flags::dbgoptin());
    let page = t.to_bytes();
    assert_eq!(u64::from_ne_bytes(u64_at(&page, 40)), 0xdead_beef);
    assert_eq!(u64::from_ne_bytes(u64_at(&page, 8)), 1);
    assert_eq!(u64::from_ne_bytes(u64_at(&page, 32)), 0x1000);
}
