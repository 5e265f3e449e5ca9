//! The bytes of a module that the watched process has loaded, and what can
//! be found in them.

use vstd::prelude::*;
use crate::bytes::{in_bounds, le_u16, le_u32, u16_at, u32_at, window};
use crate::remote::PointerSize;
use crate::signature::{is_first_hit, nothing_occurs, scan_first, Hit, Signature};

verus! {

/// The machine marker of 64-bit x86 code in a module's header.
pub const MACHINE_X86_64: u16 = 0x8664;

/// The offset, in a module's header, of the field that says where the
/// machine marker's header starts.
pub const HEADER_POINTER_OFFSET: usize = 0x3C;

/// A loaded module: the address it was loaded at and the bytes read from
/// there. The last byte lies at an address that a `u64` can hold.
pub struct ModuleImage {
    base: u64,
    bytes: Vec<u8>,
}

/// Where a search of a module succeeded.
#[derive(Clone, Copy, PartialEq, Eq, Structural, Debug)]
pub struct Located {
    /// The index of the pattern that was found.
    pub pattern: usize,
    /// The offset of its lowest occurrence in the module's bytes.
    pub offset: usize,
    /// The address of that occurrence.
    pub address: u64,
}

/// The machine marker that a module's header carries, if the header reaches
/// that far: a 32-bit field at a fixed offset says where a second header
/// starts, and the marker is the 16-bit field four bytes into that one.
pub open spec fn machine_marker(bytes: Seq<u8>) -> Option<int> {
    if !in_bounds(bytes.len() as int, HEADER_POINTER_OFFSET as int, 4) {
        None
    } else {
        let header = le_u32(window(bytes, HEADER_POINTER_OFFSET as int, 4));
        if !in_bounds(bytes.len() as int, header + 4, 2) {
            None
        } else {
            Some(le_u16(window(bytes, header + 4, 2)))
        }
    }
}

/// The pointer width of code that carries `marker`: 64 bits for 64-bit x86,
/// 32 bits for everything else.
pub open spec fn pointer_size_of(marker: int) -> PointerSize {
    if marker == MACHINE_X86_64 {
        PointerSize::Bit64
    } else {
        PointerSize::Bit32
    }
}

impl ModuleImage {
    #[verifier::type_invariant]
    spec fn fits(self) -> bool {
        self.base + self.bytes@.len() <= u64::MAX
    }

    /// The address the module was loaded at.
    pub closed spec fn spec_base(&self) -> u64 {
        self.base
    }

    /// The module's bytes, the first of them at the base address.
    pub closed spec fn spec_bytes(&self) -> Seq<u8> {
        self.bytes@
    }

    /// Pairs a base address with the bytes read there. There is no image if
    /// the bytes would run past the end of the address space.
    pub fn new(base: u64, bytes: Vec<u8>) -> (image: Option<Self>)
        ensures
            base + bytes@.len() <= u64::MAX ==> image is Some && image->0.spec_base() == base
                && image->0.spec_bytes() == bytes@,
            base + bytes@.len() > u64::MAX ==> image is None,
    {
        if bytes.len() as u64 > u64::MAX - base {
            None
        } else {
            Some(ModuleImage { base, bytes })
        }
    }

    #[verifier::when_used_as_spec(spec_base)]
    pub fn base(&self) -> (base: u64)
        ensures
            base == self.spec_base(),
            base + self.spec_bytes().len() <= u64::MAX,
    {
        proof {
            use_type_invariant(self);
        }
        self.base
    }

    pub fn bytes(&self) -> (bytes: &[u8])
        ensures
            bytes@ == self.spec_bytes(),
    {
        self.bytes.as_slice()
    }

    /// The number of bytes the module takes.
    pub fn size(&self) -> (size: u64)
        ensures
            size == self.spec_bytes().len(),
    {
        self.bytes.len() as u64
    }

    /// The machine marker in the module's header.
    pub fn machine(&self) -> (marker: Option<u16>)
        ensures
            match marker {
                Some(m) => machine_marker(self.spec_bytes()) == Some(m as int),
                None => machine_marker(self.spec_bytes()) is None,
            },
    {
        match u32_at(self.bytes.as_slice(), HEADER_POINTER_OFFSET) {
            None => None,
            Some(header) => {
                if header as u64 + 4 > self.bytes.len() as u64 {
                    return None;
                }
                u16_at(self.bytes.as_slice(), header as usize + 4)
            },
        }
    }

    /// The pointer width of the module's code.
    pub fn pointer_size(&self) -> (size: Option<PointerSize>)
        ensures
            size == match machine_marker(self.spec_bytes()) {
                Some(marker) => Some(pointer_size_of(marker)),
                None => None,
            },
    {
        match self.machine() {
            None => None,
            Some(marker) => if marker == MACHINE_X86_64 {
                Some(PointerSize::Bit64)
            } else {
                Some(PointerSize::Bit32)
            },
        }
    }

    /// Searches the module for the patterns, in order, and reports the first
    /// pattern that occurs anywhere in it, at its lowest address.
    pub fn scan(&self, patterns: &[Signature]) -> (found: Option<Located>)
        ensures
            match found {
                Some(located) => {
                    &&& located.address == self.spec_base() + located.offset
                    &&& is_first_hit(
                        patterns@,
                        self.spec_bytes(),
                        Hit { pattern: located.pattern, offset: located.offset },
                    )
                },
                None => nothing_occurs(patterns@, self.spec_bytes()),
            },
    {
        proof {
            use_type_invariant(self);
        }
        match scan_first(patterns, self.bytes.as_slice()) {
            None => None,
            Some(hit) => {
                let address: u64 = self.base + hit.offset as u64;
                Some(Located { pattern: hit.pattern, offset: hit.offset, address })
            },
        }
    }
}

} // verus!
