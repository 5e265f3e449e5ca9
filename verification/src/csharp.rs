//! Reading the list objects of the managed runtime: a header with a pointer
//! to an array and a count, an array of pointers to the elements, and a
//! record of fixed size behind each pointer.

use vstd::prelude::*;
use vstd::slice::slice_to_vec;
use crate::bytes::{byte_strings, le_u32, u32_at, u64_at, window};
use crate::remote::{address_of, fetched_view, Fetch, MemoryImage, PointerSize};

verus! {

/// The most elements this library takes a list to have. A header that claims
/// more is taken to be garbage.
pub const MAX_LIST_LEN: u32 = 0x1_0000;

/// Where the parts of a list object lie. The offsets differ between builds
/// of the runtime.
#[derive(Clone, Copy, PartialEq, Eq, Structural, Debug)]
pub struct ListLayout {
    /// In the list object: the pointer to the array of elements.
    pub items_offset: u16,
    /// In the list object: the 32-bit number of elements.
    pub count_offset: u16,
    /// In the array: the first element's slot.
    pub first_slot_offset: u16,
    /// The width of the pointer in the list object and of each slot.
    pub pointer_size: PointerSize,
    /// The largest count that is believed.
    pub max_count: u32,
}

/// The header of a list object, as read in one tick.
#[derive(Clone, Copy, PartialEq, Eq, Structural, Debug)]
pub struct ListHeader {
    /// The address of the array of elements.
    pub items: u64,
    /// The number of elements.
    pub count: u32,
}

impl ListLayout {
    pub open spec fn spec_mono_64() -> ListLayout {
        ListLayout {
            items_offset: 0x10,
            count_offset: 0x18,
            first_slot_offset: 0x20,
            pointer_size: PointerSize::Bit64,
            max_count: MAX_LIST_LEN,
        }
    }

    /// The layout of lists in the 64-bit runtime.
    #[verifier::when_used_as_spec(spec_mono_64)]
    pub fn mono_64() -> (layout: ListLayout)
        ensures
            layout == Self::spec_mono_64(),
    {
        ListLayout {
            items_offset: 0x10,
            count_offset: 0x18,
            first_slot_offset: 0x20,
            pointer_size: PointerSize::Bit64,
            max_count: MAX_LIST_LEN,
        }
    }

    /// The number of bytes, from the start of the list object, that hold both
    /// the array pointer and the count.
    pub open spec fn spec_header_len(self) -> usize {
        if self.items_offset + self.pointer_size.spec_bytes() >= self.count_offset + 4 {
            (self.items_offset + self.pointer_size.spec_bytes()) as usize
        } else {
            (self.count_offset + 4) as usize
        }
    }

    #[verifier::when_used_as_spec(spec_header_len)]
    pub fn header_len(self) -> (len: usize)
        ensures
            len == self.spec_header_len(),
    {
        let items_end: usize = self.items_offset as usize + self.pointer_size.bytes();
        let count_end: usize = self.count_offset as usize + 4;
        if items_end >= count_end {
            items_end
        } else {
            count_end
        }
    }

    /// The header that the first bytes of a list object spell.
    pub open spec fn parse_header(self, bytes: Seq<u8>) -> ListHeader
        recommends
            bytes.len() == self.spec_header_len(),
    {
        ListHeader {
            items: self.pointer_size.decode(
                window(bytes, self.items_offset as int, self.pointer_size.spec_bytes() as int),
            ) as u64,
            count: le_u32(window(bytes, self.count_offset as int, 4)) as u32,
        }
    }

    /// Whether a header is worth following: it has elements, no more of them
    /// than are believed, an array pointer that is not null, and slots that
    /// lie inside the address space.
    pub open spec fn plausible(self, header: ListHeader) -> bool {
        &&& header.items != 0
        &&& header.count != 0
        &&& header.count <= self.max_count
        &&& header.items + self.first_slot_offset <= u64::MAX
        &&& header.count * self.pointer_size.spec_bytes() <= usize::MAX
    }

    /// The pointers that a table of slots holds, in order.
    pub open spec fn slots_of(self, table: Seq<u8>) -> Seq<u64> {
        Seq::new(
            table.len() / (self.pointer_size.spec_bytes() as nat),
            |i: int|
                self.pointer_size.decode(
                    window(
                        table,
                        i * self.pointer_size.spec_bytes(),
                        self.pointer_size.spec_bytes() as int,
                    ),
                ) as u64,
        )
    }
}

/// The records behind `slots`, in the order of the slots. A slot whose record
/// cannot be read contributes nothing. The first record that `image` knows
/// nothing of is asked for.
pub open spec fn records_behind(image: MemoryImage, slots: Seq<u64>, record_size: usize) -> Fetch<
    Seq<Seq<u8>>,
>
    decreases slots.len(),
{
    if slots.len() == 0 {
        Fetch::Ready(Seq::empty())
    } else {
        match records_behind(image, slots.drop_last(), record_size) {
            Fetch::Need(request) => Fetch::Need(request),
            Fetch::Ready(before) => match image.spec_read(slots.last(), record_size) {
                Fetch::Need(request) => Fetch::Need(request),
                Fetch::Ready(None) => Fetch::Ready(before),
                Fetch::Ready(Some(record)) => Fetch::Ready(before.push(record)),
            },
        }
    }
}

/// Fetched records as sequences of bytes.
pub open spec fn fetched_records(fetched: Fetch<Vec<Vec<u8>>>) -> Fetch<Seq<Seq<u8>>> {
    match fetched {
        Fetch::Need(request) => Fetch::Need(request),
        Fetch::Ready(records) => Fetch::Ready(byte_strings(records@)),
    }
}

/// There are never more records than slots, and each record has the size
/// that was asked for.
pub proof fn lemma_records_bounded(image: MemoryImage, slots: Seq<u64>, record_size: usize)
    ensures
        records_behind(image, slots, record_size) matches Fetch::Ready(records) ==> {
            &&& records.len() <= slots.len()
            &&& forall|i: int| 0 <= i < records.len() ==> (#[trigger] records[i]).len() == record_size
        },
    decreases slots.len(),
{
    if slots.len() > 0 {
        lemma_records_bounded(image, slots.drop_last(), record_size);
    }
}

/// Where every record can be read, there is one record for each slot, and
/// the record at each position is the one behind the slot at that position.
pub proof fn lemma_records_complete(image: MemoryImage, slots: Seq<u64>, record_size: usize)
    requires
        forall|i: int|
            0 <= i < slots.len() ==> image.spec_read(#[trigger] slots[i], record_size) matches Fetch::Ready(
                Some(_),
            ),
    ensures
        records_behind(image, slots, record_size) matches Fetch::Ready(records) && {
            &&& records.len() == slots.len()
            &&& forall|i: int|
                0 <= i < slots.len() ==> image.spec_read(slots[i], record_size) == Fetch::Ready(
                    Some(#[trigger] records[i]),
                )
        },
    decreases slots.len(),
{
    if slots.len() > 0 {
        let init = slots.drop_last();
        assert forall|i: int| 0 <= i < init.len() implies image.spec_read(
            #[trigger] init[i],
            record_size,
        ) matches Fetch::Ready(Some(_)) by {
            assert(init[i] == slots[i]);
        }
        lemma_records_complete(image, init, record_size);
        let before = records_behind(image, init, record_size)->Ready_0;
        let all = records_behind(image, slots, record_size)->Ready_0;
        assert forall|i: int| 0 <= i < slots.len() implies image.spec_read(
            slots[i],
            record_size,
        ) == Fetch::Ready(Some(#[trigger] all[i])) by {
            if i < init.len() {
                assert(init[i] == slots[i]);
                assert(all[i] == before[i]);
            }
        }
    }
}

/// Once a record is missing, the records behind a longer run of slots are
/// missing the same one.
proof fn lemma_need_persists(image: MemoryImage, slots: Seq<u64>, n: int, record_size: usize)
    requires
        0 <= n <= slots.len(),
        records_behind(image, slots.take(n), record_size) is Need,
    ensures
        records_behind(image, slots, record_size) == records_behind(
            image,
            slots.take(n),
            record_size,
        ),
    decreases slots.len(),
{
    if n == slots.len() {
        assert(slots.take(n) =~= slots);
    } else {
        assert(slots.drop_last().take(n) =~= slots.take(n));
        lemma_need_persists(image, slots.drop_last(), n, record_size);
    }
}

/// The empty list of records.
fn no_records() -> (records: Fetch<Vec<Vec<u8>>>)
    ensures
        fetched_records(records) == Fetch::Ready(Seq::<Seq<u8>>::empty()),
{
    let records: Vec<Vec<u8>> = Vec::new();
    assert(byte_strings(records@) =~= Seq::<Seq<u8>>::empty());
    Fetch::Ready(records)
}

/// A list object of the managed runtime, known by its address.
#[derive(Clone, Copy, PartialEq, Eq, Structural, Debug)]
pub struct CSharpList {
    pub address: u64,
}

impl CSharpList {
    /// The header of the list, as far as `image` can tell. There is none if
    /// the list object cannot be read.
    pub open spec fn spec_header(self, image: MemoryImage, layout: ListLayout) -> Fetch<
        Option<ListHeader>,
    > {
        match image.spec_read(self.address, layout.spec_header_len()) {
            Fetch::Need(request) => Fetch::Need(request),
            Fetch::Ready(None) => Fetch::Ready(None),
            Fetch::Ready(Some(bytes)) => Fetch::Ready(Some(layout.parse_header(bytes))),
        }
    }

    pub fn header(&self, image: &MemoryImage, layout: &ListLayout) -> (header: Fetch<
        Option<ListHeader>,
    >)
        ensures
            header == self.spec_header(*image, *layout),
            header matches Fetch::Need(request) ==> !image.knows(request),
    {
        match image.read(self.address, layout.header_len()) {
            Fetch::Need(request) => Fetch::Need(request),
            Fetch::Ready(None) => Fetch::Ready(None),
            Fetch::Ready(Some(bytes)) => {
                let items = match layout.pointer_size {
                    PointerSize::Bit32 => match u32_at(
                        bytes.as_slice(),
                        layout.items_offset as usize,
                    ) {
                        Some(items) => Some(items as u64),
                        None => None,
                    },
                    PointerSize::Bit64 => u64_at(bytes.as_slice(), layout.items_offset as usize),
                };
                let count = u32_at(bytes.as_slice(), layout.count_offset as usize);
                match (items, count) {
                    (Some(items), Some(count)) => Fetch::Ready(Some(ListHeader { items, count })),
                    _ => Fetch::Ready(None),
                }
            },
        }
    }

    /// The address of the slot that holds the pointer to element `index`, as
    /// far as `image` can tell. There is none if the list cannot be read, its
    /// header is not plausible, or it has no element of that index.
    pub open spec fn spec_slot_address(self, image: MemoryImage, layout: ListLayout, index: u32)
        -> Fetch<Option<u64>> {
        match self.spec_header(image, layout) {
            Fetch::Need(request) => Fetch::Need(request),
            Fetch::Ready(None) => Fetch::Ready(None),
            Fetch::Ready(Some(header)) => if layout.plausible(header) && index < header.count {
                Fetch::Ready(
                    address_of(
                        header.items + layout.first_slot_offset + index
                            * layout.pointer_size.spec_bytes(),
                    ),
                )
            } else {
                Fetch::Ready(None)
            },
        }
    }

    pub fn slot_address(&self, image: &MemoryImage, layout: &ListLayout, index: u32) -> (slot:
        Fetch<Option<u64>>)
        ensures
            slot == self.spec_slot_address(*image, *layout, index),
            slot matches Fetch::Need(request) ==> !image.knows(request),
    {
        match self.header(image, layout) {
            Fetch::Need(request) => Fetch::Need(request),
            Fetch::Ready(None) => Fetch::Ready(None),
            Fetch::Ready(Some(header)) => {
                if !Self::is_plausible(layout, header) || index >= header.count {
                    return Fetch::Ready(None);
                }
                let width: u64 = layout.pointer_size.bytes() as u64;
                assert(index * width <= 0xFFFF_FFFF * 8) by (nonlinear_arith)
                    requires
                        index <= 0xFFFF_FFFF,
                        width <= 8,
                ;
                let first: u64 = header.items + layout.first_slot_offset as u64;
                let within: u64 = index as u64 * width;
                if within > u64::MAX - first {
                    Fetch::Ready(None)
                } else {
                    Fetch::Ready(Some(first + within))
                }
            },
        }
    }

    /// The addresses of the list's elements, as far as `image` can tell. A
    /// list without a plausible header has none, and neither has one whose
    /// table of slots cannot be read.
    pub open spec fn spec_slots(self, image: MemoryImage, layout: ListLayout) -> Fetch<Seq<u64>> {
        match self.spec_header(image, layout) {
            Fetch::Need(request) => Fetch::Need(request),
            Fetch::Ready(None) => Fetch::Ready(Seq::empty()),
            Fetch::Ready(Some(header)) => if !layout.plausible(header) {
                Fetch::Ready(Seq::empty())
            } else {
                match image.spec_read(
                    (header.items + layout.first_slot_offset) as u64,
                    (header.count * layout.pointer_size.spec_bytes()) as usize,
                ) {
                    Fetch::Need(request) => Fetch::Need(request),
                    Fetch::Ready(None) => Fetch::Ready(Seq::empty()),
                    Fetch::Ready(Some(table)) => Fetch::Ready(layout.slots_of(table)),
                }
            },
        }
    }

    /// The records of the list's elements, in the order of the list, as far
    /// as `image` can tell.
    pub open spec fn spec_iter(self, image: MemoryImage, layout: ListLayout, record_size: usize)
        -> Fetch<Seq<Seq<u8>>> {
        match self.spec_slots(image, layout) {
            Fetch::Need(request) => Fetch::Need(request),
            Fetch::Ready(slots) => records_behind(image, slots, record_size),
        }
    }

    /// Reads the table of slots of a list whose header is plausible.
    fn slot_table<'a>(image: &'a MemoryImage, layout: &ListLayout, header: ListHeader) -> (table:
        Fetch<Option<&'a Vec<u8>>>)
        requires
            layout.plausible(header),
        ensures
            fetched_view(table) == image.spec_read(
                (header.items + layout.first_slot_offset) as u64,
                (header.count * layout.pointer_size.spec_bytes()) as usize,
            ),
    {
        let width: usize = layout.pointer_size.bytes();
        assert(header.count * width <= usize::MAX);
        assert(header.count * width == (header.count as usize) * width) by (nonlinear_arith)
            requires
                header.count * width <= usize::MAX,
        ;
        let len: usize = header.count as usize * width;
        image.read(header.items + layout.first_slot_offset as u64, len)
    }

    /// Whether the header is worth following.
    fn is_plausible(layout: &ListLayout, header: ListHeader) -> (plausible: bool)
        ensures
            plausible == layout.plausible(header),
    {
        if header.items == 0 || header.count == 0 || header.count > layout.max_count {
            return false;
        }
        if layout.first_slot_offset as u64 > u64::MAX - header.items {
            return false;
        }
        let width: u64 = layout.pointer_size.bytes() as u64;
        assert(header.count * width <= 0xFFFF_FFFF * 8) by (nonlinear_arith)
            requires
                header.count <= 0xFFFF_FFFF,
                width <= 8,
        ;
        header.count as u64 * width <= usize::MAX as u64
    }

    /// Reads the elements of the list: the header, then the slots, then the
    /// record of `record_size` bytes behind each slot. A list that cannot be
    /// read, or whose header is not plausible, has no elements; an element
    /// that cannot be read is left out.
    pub fn iter(&self, image: &MemoryImage, layout: &ListLayout, record_size: usize) -> (records:
        Fetch<Vec<Vec<u8>>>)
        ensures
            fetched_records(records) == self.spec_iter(*image, *layout, record_size),
            records matches Fetch::Need(request) ==> !image.knows(request),
    {
        let header = match self.header(image, layout) {
            Fetch::Need(request) => {
                return Fetch::Need(request);
            },
            Fetch::Ready(None) => {
                return no_records();
            },
            Fetch::Ready(Some(header)) => header,
        };
        if !Self::is_plausible(layout, header) {
            return no_records();
        }
        let table = match Self::slot_table(image, layout, header) {
            Fetch::Need(request) => {
                return Fetch::Need(request);
            },
            Fetch::Ready(None) => {
                return no_records();
            },
            Fetch::Ready(Some(table)) => table,
        };
        let width: usize = layout.pointer_size.bytes();
        let count: usize = table.len() / width;
        let ghost slots = layout.slots_of(table@);
        let mut records: Vec<Vec<u8>> = Vec::new();
        let mut i: usize = 0;
        assert(byte_strings(records@) =~= Seq::<Seq<u8>>::empty());
        assert(slots.take(0) =~= Seq::<u64>::empty());
        while i < count
            invariant
                i <= count,
                count == slots.len(),
                slots == layout.slots_of(table@),
                width == layout.pointer_size.spec_bytes(),
                count == table@.len() / (width as nat),
                table@.len() <= usize::MAX,
                self.spec_iter(*image, *layout, record_size) == records_behind(
                    *image,
                    slots,
                    record_size,
                ),
                Fetch::Ready(byte_strings(records@)) == records_behind(
                    *image,
                    slots.take(i as int),
                    record_size,
                ),
            decreases count - i,
        {
            assert(0 <= i * width && i * width + width <= table@.len()) by (nonlinear_arith)
                requires
                    0 <= i < count,
                    count == table@.len() / (width as nat),
                    width > 0,
            ;
            let slot = match layout.pointer_size {
                PointerSize::Bit32 => match u32_at(table.as_slice(), i * width) {
                    Some(slot) => slot as u64,
                    None => 0,
                },
                PointerSize::Bit64 => match u64_at(table.as_slice(), i * width) {
                    Some(slot) => slot,
                    None => 0,
                },
            };
            assert(slot == slots[i as int]);
            proof {
                assert(slots.take(i + 1).drop_last() =~= slots.take(i as int));
                assert(slots.take(i + 1).last() == slots[i as int]);
            }
            match image.read(slot, record_size) {
                Fetch::Need(request) => {
                    proof {
                        lemma_need_persists(*image, slots, i + 1, record_size);
                    }
                    return Fetch::Need(request);
                },
                Fetch::Ready(None) => {},
                Fetch::Ready(Some(record)) => {
                    let ghost before = records@;
                    records.push(slice_to_vec(record.as_slice()));
                    assert(byte_strings(records@) =~= byte_strings(before).push(record@));
                },
            }
            i += 1;
        }
        assert(slots.take(count as int) =~= slots);
        Fetch::Ready(records)
    }
}

} // verus!
