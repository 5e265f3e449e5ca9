use lkbc_autosplitter::remote::{Fetch, MemoryImage, PointerSize, ReadRequest};

#[test]
fn pointer_sizes_in_bytes() {
    assert_eq!(PointerSize::Bit32.bytes(), 4);
    assert_eq!(PointerSize::Bit64.bytes(), 8);
}

#[test]
fn empty_image_asks_for_every_read() {
    let image = MemoryImage::new();
    assert_eq!(image.read(0x1000, 4), Fetch::Need(ReadRequest { address: 0x1000, len: 4 }));
    assert_eq!(
        image.read_pointer(0x1000, PointerSize::Bit64),
        Fetch::Need(ReadRequest { address: 0x1000, len: 8 })
    );
    assert_eq!(
        image.follow(0x1000, 0x10, PointerSize::Bit32),
        Fetch::Need(ReadRequest { address: 0x1010, len: 4 })
    );
}

#[test]
fn recorded_bytes_are_read_back() {
    let mut image = MemoryImage::new();
    image.record(ReadRequest { address: 0x1000, len: 3 }, Some(vec![1, 2, 3]));
    assert_eq!(image.read(0x1000, 3), Fetch::Ready(Some(&vec![1, 2, 3])));
}

#[test]
fn reads_are_told_apart_by_address_and_length() {
    let mut image = MemoryImage::new();
    image.record(ReadRequest { address: 0x1000, len: 3 }, Some(vec![1, 2, 3]));
    assert_eq!(image.read(0x1000, 2), Fetch::Need(ReadRequest { address: 0x1000, len: 2 }));
    assert_eq!(image.read(0x1001, 3), Fetch::Need(ReadRequest { address: 0x1001, len: 3 }));
}

#[test]
fn failed_read_is_remembered_as_failed() {
    let mut image = MemoryImage::new();
    image.record(ReadRequest { address: 0x1000, len: 3 }, None);
    assert_eq!(image.read(0x1000, 3), Fetch::Ready(None));
}

#[test]
fn answer_of_the_wrong_length_counts_as_failed() {
    let mut image = MemoryImage::new();
    image.record(ReadRequest { address: 0x1000, len: 4 }, Some(vec![1, 2, 3]));
    assert_eq!(image.read(0x1000, 4), Fetch::Ready(None));
    assert_eq!(image.read_pointer(0x1000, PointerSize::Bit32), Fetch::Ready(None));
}

#[test]
fn later_answer_replaces_the_earlier_one() {
    let mut image = MemoryImage::new();
    image.record(ReadRequest { address: 0x1000, len: 1 }, Some(vec![1]));
    image.record(ReadRequest { address: 0x2000, len: 1 }, Some(vec![9]));
    image.record(ReadRequest { address: 0x1000, len: 1 }, Some(vec![2]));
    assert_eq!(image.read(0x1000, 1), Fetch::Ready(Some(&vec![2])));
    assert_eq!(image.read(0x2000, 1), Fetch::Ready(Some(&vec![9])));
    image.record(ReadRequest { address: 0x1000, len: 1 }, None);
    assert_eq!(image.read(0x1000, 1), Fetch::Ready(None));
}

#[test]
fn pointers_are_read_by_width() {
    let mut image = MemoryImage::new();
    image.record(
        ReadRequest { address: 0x1000, len: 8 },
        Some(vec![0xEF, 0xCD, 0xAB, 0x89, 0x67, 0x45, 0x23, 0x01]),
    );
    image.record(ReadRequest { address: 0x1000, len: 4 }, Some(vec![0x78, 0x56, 0x34, 0x12]));
    assert_eq!(
        image.read_pointer(0x1000, PointerSize::Bit64),
        Fetch::Ready(Some(0x0123_4567_89AB_CDEF))
    );
    assert_eq!(image.read_pointer(0x1000, PointerSize::Bit32), Fetch::Ready(Some(0x1234_5678)));
}

#[test]
fn follow_adds_the_offset_and_rejects_null() {
    let mut image = MemoryImage::new();
    image.record(ReadRequest { address: 0x1010, len: 8 }, Some(0x2000u64.to_le_bytes().to_vec()));
    image.record(ReadRequest { address: 0x1018, len: 8 }, Some(vec![0; 8]));
    image.record(ReadRequest { address: 0x1020, len: 8 }, None);
    assert_eq!(image.follow(0x1000, 0x10, PointerSize::Bit64), Fetch::Ready(Some(0x2000)));
    assert_eq!(image.follow(0x1000, 0x18, PointerSize::Bit64), Fetch::Ready(None));
    assert_eq!(image.follow(0x1000, 0x20, PointerSize::Bit64), Fetch::Ready(None));
}

#[test]
fn follow_past_the_end_of_the_address_space_fails() {
    let image = MemoryImage::new();
    assert_eq!(image.follow(u64::MAX, 1, PointerSize::Bit64), Fetch::Ready(None));
    assert_eq!(
        image.follow(u64::MAX - 1, 1, PointerSize::Bit64),
        Fetch::Need(ReadRequest { address: u64::MAX, len: 8 })
    );
}
