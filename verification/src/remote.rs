//! What is known of the watched process's memory.
//!
//! The library never reads the process. The host performs reads and records
//! each answer in a [`MemoryImage`]; the library's functions look their bytes
//! up there. A function that needs bytes the image does not hold returns
//! [`Fetch::Need`] with the read to perform, and is called again once the
//! answer is recorded.

use vstd::prelude::*;
use crate::bytes::{le_u32, le_u64, u32_at, u64_at, window};

verus! {

/// The width of a pointer in the watched process.
#[derive(Clone, Copy, PartialEq, Eq, Structural, Debug)]
pub enum PointerSize {
    Bit32,
    Bit64,
}

impl PointerSize {
    /// The number of bytes a pointer takes.
    pub open spec fn spec_bytes(self) -> usize {
        match self {
            PointerSize::Bit32 => 4,
            PointerSize::Bit64 => 8,
        }
    }

    #[verifier::when_used_as_spec(spec_bytes)]
    pub fn bytes(self) -> (n: usize)
        ensures
            n == self.spec_bytes(),
    {
        match self {
            PointerSize::Bit32 => 4,
            PointerSize::Bit64 => 8,
        }
    }

    /// The address that the bytes of one pointer spell.
    pub open spec fn decode(self, bytes: Seq<u8>) -> int
        recommends
            bytes.len() == self.spec_bytes(),
    {
        match self {
            PointerSize::Bit32 => le_u32(bytes),
            PointerSize::Bit64 => le_u64(bytes),
        }
    }
}

/// `value` as an address, if it is one.
pub open spec fn address_of(value: int) -> Option<u64> {
    if 0 <= value <= u64::MAX {
        Some(value as u64)
    } else {
        None
    }
}

/// A read of `len` bytes at `address`.
#[derive(Clone, Copy, PartialEq, Eq, Structural, Debug)]
pub struct ReadRequest {
    pub address: u64,
    pub len: usize,
}

/// The outcome of a computation over a [`MemoryImage`]: its result, or the
/// read whose answer the image lacks.
#[derive(Clone, Debug, PartialEq, Eq)]
pub enum Fetch<T> {
    Ready(T),
    Need(ReadRequest),
}

/// One read and how the process answered it: the bytes, or `None` where the
/// read failed.
pub struct Capture {
    pub request: ReadRequest,
    pub answer: Option<Vec<u8>>,
}

/// The answers to the reads performed so far. A later answer to the same read
/// replaces an earlier one.
pub struct MemoryImage {
    captures: Vec<Capture>,
}

/// What a list of captures says of each read that occurs in it.
pub open spec fn answers_of(captures: Seq<Capture>) -> Map<ReadRequest, Option<Seq<u8>>>
    decreases captures.len(),
{
    if captures.len() == 0 {
        Map::empty()
    } else {
        answers_of(captures.drop_last()).insert(
            captures.last().request,
            bytes_view(captures.last().answer),
        )
    }
}

/// An answer as a sequence of bytes.
pub open spec fn bytes_view(answer: Option<Vec<u8>>) -> Option<Seq<u8>> {
    match answer {
        Some(bytes) => Some(bytes@),
        None => None,
    }
}

/// A fetched byte string as a sequence of bytes.
pub open spec fn fetched_bytes(fetched: Fetch<Option<Vec<u8>>>) -> Fetch<Option<Seq<u8>>> {
    match fetched {
        Fetch::Need(request) => Fetch::Need(request),
        Fetch::Ready(None) => Fetch::Ready(None),
        Fetch::Ready(Some(bytes)) => Fetch::Ready(Some(bytes@)),
    }
}

/// A fetched answer as a sequence of bytes.
pub open spec fn fetched_view(fetched: Fetch<Option<&Vec<u8>>>) -> Fetch<Option<Seq<u8>>> {
    match fetched {
        Fetch::Need(request) => Fetch::Need(request),
        Fetch::Ready(None) => Fetch::Ready(None),
        Fetch::Ready(Some(bytes)) => Fetch::Ready(Some(bytes@)),
    }
}

proof fn lemma_answers_absent(captures: Seq<Capture>, request: ReadRequest)
    requires
        forall|k: int| 0 <= k < captures.len() ==> captures[k].request != request,
    ensures
        !answers_of(captures).contains_key(request),
    decreases captures.len(),
{
    if captures.len() > 0 {
        lemma_answers_absent(captures.drop_last(), request);
    }
}

proof fn lemma_answers_latest(captures: Seq<Capture>, request: ReadRequest, at: int)
    requires
        0 <= at < captures.len(),
        captures[at].request == request,
        forall|k: int| at < k < captures.len() ==> captures[k].request != request,
    ensures
        answers_of(captures).contains_key(request),
        answers_of(captures)[request] == bytes_view(captures[at].answer),
    decreases captures.len(),
{
    if at < captures.len() - 1 {
        lemma_answers_latest(captures.drop_last(), request, at);
    }
}

impl View for MemoryImage {
    type V = Map<ReadRequest, Option<Seq<u8>>>;

    /// The answer on record for each read that was performed.
    closed spec fn view(&self) -> Map<ReadRequest, Option<Seq<u8>>> {
        answers_of(self.captures@)
    }
}

impl MemoryImage {
    /// An image that knows nothing yet.
    pub fn new() -> (image: Self)
        ensures
            image@ == Map::<ReadRequest, Option<Seq<u8>>>::empty(),
    {
        MemoryImage { captures: Vec::new() }
    }

    /// Records how the process answered `request`.
    pub fn record(&mut self, request: ReadRequest, answer: Option<Vec<u8>>)
        ensures
            final(self)@ == old(self)@.insert(request, bytes_view(answer)),
    {
        let ghost before = self.captures@;
        self.captures.push(Capture { request, answer });
        assert(self.captures@.drop_last() =~= before);
    }

    /// Whether the image holds an answer to `request`.
    pub open spec fn knows(self, request: ReadRequest) -> bool {
        self@.contains_key(request)
    }

    /// The bytes at `address`, as far as the image can tell: `Need` if the
    /// read was never performed, `None` if it failed or brought another
    /// number of bytes than were asked for.
    pub open spec fn spec_read(self, address: u64, len: usize) -> Fetch<Option<Seq<u8>>> {
        let request = ReadRequest { address, len };
        if !self@.contains_key(request) {
            Fetch::Need(request)
        } else {
            match self@[request] {
                Some(bytes) if bytes.len() == len => Fetch::Ready(Some(bytes)),
                _ => Fetch::Ready(None),
            }
        }
    }

    pub fn read(&self, address: u64, len: usize) -> (fetched: Fetch<Option<&Vec<u8>>>)
        ensures
            fetched_view(fetched) == self.spec_read(address, len),
    {
        let request = ReadRequest { address, len };
        let mut i: usize = self.captures.len();
        while i > 0
            invariant
                i <= self.captures@.len(),
                request == (ReadRequest { address, len }),
                forall|k: int| i <= k < self.captures@.len() ==> self.captures@[k].request != request,
            decreases i,
        {
            i -= 1;
            let capture = &self.captures[i];
            if capture.request.address == address && capture.request.len == len {
                proof {
                    lemma_answers_latest(self.captures@, request, i as int);
                }
                return match &capture.answer {
                    Some(bytes) if bytes.len() == len => Fetch::Ready(Some(bytes)),
                    _ => Fetch::Ready(None),
                };
            }
        }
        proof {
            lemma_answers_absent(self.captures@, request);
        }
        Fetch::Need(request)
    }

    /// The pointer stored at `address`.
    pub open spec fn spec_read_pointer(self, address: u64, size: PointerSize) -> Fetch<
        Option<u64>,
    > {
        match self.spec_read(address, size.spec_bytes()) {
            Fetch::Need(request) => Fetch::Need(request),
            Fetch::Ready(None) => Fetch::Ready(None),
            Fetch::Ready(Some(bytes)) => Fetch::Ready(Some(size.decode(bytes) as u64)),
        }
    }

    pub fn read_pointer(&self, address: u64, size: PointerSize) -> (fetched: Fetch<Option<u64>>)
        ensures
            fetched == self.spec_read_pointer(address, size),
    {
        match self.read(address, size.bytes()) {
            Fetch::Need(request) => Fetch::Need(request),
            Fetch::Ready(None) => Fetch::Ready(None),
            Fetch::Ready(Some(bytes)) => {
                assert(window(bytes@, 0, size.spec_bytes() as int) =~= bytes@);
                match size {
                    PointerSize::Bit32 => {
                        match u32_at(bytes.as_slice(), 0) {
                            Some(value) => Fetch::Ready(Some(value as u64)),
                            None => Fetch::Ready(None),
                        }
                    },
                    PointerSize::Bit64 => {
                        match u64_at(bytes.as_slice(), 0) {
                            Some(value) => Fetch::Ready(Some(value)),
                            None => Fetch::Ready(None),
                        }
                    },
                }
            },
        }
    }

    /// The pointer stored `offset` bytes past `address`, where that place
    /// exists, can be read and holds a pointer that is not null.
    pub open spec fn spec_follow(self, address: u64, offset: u64, size: PointerSize) -> Fetch<
        Option<u64>,
    > {
        if address + offset > u64::MAX {
            Fetch::Ready(None)
        } else {
            match self.spec_read_pointer((address + offset) as u64, size) {
                Fetch::Need(request) => Fetch::Need(request),
                Fetch::Ready(None) => Fetch::Ready(None),
                Fetch::Ready(Some(target)) => if target == 0 {
                    Fetch::Ready(None)
                } else {
                    Fetch::Ready(Some(target))
                },
            }
        }
    }

    pub fn follow(&self, address: u64, offset: u64, size: PointerSize) -> (fetched: Fetch<
        Option<u64>,
    >)
        ensures
            fetched == self.spec_follow(address, offset, size),
            fetched matches Fetch::Ready(Some(target)) ==> target != 0,
            fetched matches Fetch::Need(request) ==> !self.knows(request),
    {
        if offset > u64::MAX - address {
            return Fetch::Ready(None);
        }
        match self.read_pointer(address + offset, size) {
            Fetch::Need(request) => Fetch::Need(request),
            Fetch::Ready(None) => Fetch::Ready(None),
            Fetch::Ready(Some(target)) => if target == 0 {
                Fetch::Ready(None)
            } else {
                Fetch::Ready(Some(target))
            },
        }
    }
}

/// Recording the answer to a read that was lacking settles that read and
/// leaves every read that was settled before as it was. So a computation that
/// is run again after each answer never loses what it had.
pub proof fn lemma_record_keeps_what_was_known(
    before: MemoryImage,
    after: MemoryImage,
    request: ReadRequest,
    answer: Option<Seq<u8>>,
    address: u64,
    len: usize,
)
    requires
        !before.knows(request),
        after@ == before@.insert(request, answer),
    ensures
        after.knows(request),
        before.spec_read(address, len) is Ready ==> after.spec_read(address, len)
            == before.spec_read(address, len),
        before.spec_read_pointer(address, PointerSize::Bit32) is Ready ==> after.spec_read_pointer(
            address,
            PointerSize::Bit32,
        ) == before.spec_read_pointer(address, PointerSize::Bit32),
        before.spec_read_pointer(address, PointerSize::Bit64) is Ready ==> after.spec_read_pointer(
            address,
            PointerSize::Bit64,
        ) == before.spec_read_pointer(address, PointerSize::Bit64),
{
}

} // verus!
