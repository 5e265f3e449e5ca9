//! Byte patterns with wildcards, and the search for them in a module's bytes.

use vstd::prelude::*;

verus! {

/// One position of a pattern. A byte fits if it agrees with `value` on the
/// bits that are set in `mask`: mask `0xFF` asks for exactly `value`, mask
/// `0x00` takes any byte, and `0x0F` or `0xF0` fix one half of the byte only.
#[derive(Clone, Copy, PartialEq, Eq, Structural, Debug)]
pub struct PatternByte {
    pub value: u8,
    pub mask: u8,
}

impl PatternByte {
    pub open spec fn spec_accepts(self, byte: u8) -> bool {
        byte & self.mask == self.value & self.mask
    }

    #[verifier::when_used_as_spec(spec_accepts)]
    pub fn accepts(self, byte: u8) -> (fits: bool)
        ensures
            fits == self.spec_accepts(byte),
    {
        byte & self.mask == self.value & self.mask
    }

    /// The position that takes `value` and nothing else.
    pub fn literal(value: u8) -> (position: Self)
        ensures
            position == (PatternByte { value, mask: 0xFF }),
    {
        PatternByte { value, mask: 0xFF }
    }

    /// The position that takes every byte.
    pub fn any() -> (position: Self)
        ensures
            position == (PatternByte { value: 0, mask: 0 }),
    {
        PatternByte { value: 0, mask: 0 }
    }
}

/// A literal position takes its own byte only; an open position takes all.
pub proof fn lemma_literal_and_any(value: u8, byte: u8)
    ensures
        (PatternByte { value, mask: 0xFF }).spec_accepts(byte) <==> byte == value,
        (PatternByte { value: 0, mask: 0 }).spec_accepts(byte),
{
    assert(byte & 0xFF == byte) by (bit_vector);
    assert(value & 0xFF == value) by (bit_vector);
    assert(byte & 0 == 0) by (bit_vector);
    assert(0u8 & 0 == 0) by (bit_vector);
}

/// Whether `pattern` occurs in `haystack` at offset `at`. A pattern without
/// positions occurs nowhere.
pub open spec fn matches_at(pattern: Seq<PatternByte>, haystack: Seq<u8>, at: int) -> bool {
    &&& pattern.len() > 0
    &&& 0 <= at
    &&& at + pattern.len() <= haystack.len()
    &&& forall|k: int| 0 <= k < pattern.len() ==> (#[trigger] pattern[k]).spec_accepts(haystack[at + k])
}

/// Whether `pattern` occurs nowhere in `haystack`.
pub open spec fn occurs_nowhere(pattern: Seq<PatternByte>, haystack: Seq<u8>) -> bool {
    forall|at: int| !matches_at(pattern, haystack, at)
}

/// Whether `at` is the lowest offset at which `pattern` occurs in `haystack`.
pub open spec fn is_first_match(pattern: Seq<PatternByte>, haystack: Seq<u8>, at: int) -> bool {
    &&& matches_at(pattern, haystack, at)
    &&& forall|before: int| 0 <= before < at ==> !matches_at(pattern, haystack, before)
}

/// The lowest offset at which `pattern` occurs in `haystack`, if it occurs.
pub open spec fn first_match(pattern: Seq<PatternByte>, haystack: Seq<u8>) -> Option<int> {
    if occurs_nowhere(pattern, haystack) {
        None
    } else {
        Some(choose|at: int| is_first_match(pattern, haystack, at))
    }
}

/// The lowest occurrence is the one that `first_match` names.
pub proof fn lemma_first_match(pattern: Seq<PatternByte>, haystack: Seq<u8>, at: int)
    requires
        is_first_match(pattern, haystack, at),
    ensures
        first_match(pattern, haystack) == Some(at),
{
    let chosen = choose|c: int| is_first_match(pattern, haystack, c);
    assert(is_first_match(pattern, haystack, chosen));
    if chosen < at {
        assert(!matches_at(pattern, haystack, chosen));
    } else if at < chosen {
        assert(!matches_at(pattern, haystack, at));
    }
}

/// The pattern whose positions ask for `values` under `masks`.
pub open spec fn pattern_of(values: Seq<u8>, masks: Seq<u8>) -> Seq<PatternByte> {
    Seq::new(values.len(), |k: int| PatternByte { value: values[k], mask: masks[k] })
}

/// An ordered run of pattern positions.
#[derive(Clone, Debug, PartialEq, Eq)]
pub struct Signature {
    pub positions: Vec<PatternByte>,
}

impl View for Signature {
    type V = Seq<PatternByte>;

    open spec fn view(&self) -> Seq<PatternByte> {
        self.positions@
    }
}

impl Signature {
    /// Builds a pattern from the bytes it asks for and the mask of each. No
    /// pattern comes back if the two differ in length.
    pub fn new(values: &[u8], masks: &[u8]) -> (signature: Option<Self>)
        ensures
            values@.len() != masks@.len() ==> signature is None,
            values@.len() == masks@.len() ==> signature is Some && signature->0@ == pattern_of(
                values@,
                masks@,
            ),
    {
        if values.len() != masks.len() {
            return None;
        }
        let mut positions: Vec<PatternByte> = Vec::new();
        let mut k: usize = 0;
        while k < values.len()
            invariant
                k <= values@.len(),
                values@.len() == masks@.len(),
                positions@ == Seq::new(
                    k as nat,
                    |j: int| PatternByte { value: values@[j], mask: masks@[j] },
                ),
            decreases values@.len() - k,
        {
            positions.push(PatternByte { value: values[k], mask: masks[k] });
            k += 1;
            assert(positions@ =~= Seq::new(
                k as nat,
                |j: int| PatternByte { value: values@[j], mask: masks@[j] },
            ));
        }
        assert(positions@ =~= pattern_of(values@, masks@));
        Some(Signature { positions })
    }

    /// Whether the pattern occurs in `haystack` at offset `at`.
    pub fn matches(&self, haystack: &[u8], at: usize) -> (fits: bool)
        ensures
            fits == matches_at(self@, haystack@, at as int),
    {
        let n = self.positions.len();
        let total = haystack.len();
        if n == 0 || total < n || at > total - n {
            return false;
        }
        let mut k: usize = 0;
        while k < n
            invariant
                k <= n,
                n == self.positions@.len(),
                at + n <= total,
                total == haystack@.len(),
                forall|j: int| 0 <= j < k ==> (#[trigger] self.positions@[j]).spec_accepts(haystack@[at + j]),
            decreases n - k,
        {
            if !self.positions[k].accepts(haystack[at + k]) {
                return false;
            }
            k += 1;
        }
        true
    }

    /// Searches `haystack` from its start for the pattern and returns the
    /// lowest offset at which it occurs.
    pub fn scan(&self, haystack: &[u8]) -> (found: Option<usize>)
        ensures
            match found {
                Some(at) => is_first_match(self@, haystack@, at as int),
                None => occurs_nowhere(self@, haystack@),
            },
            match found {
                Some(at) => first_match(self@, haystack@) == Some(at as int),
                None => first_match(self@, haystack@) is None,
            },
    {
        let mut at: usize = 0;
        while at < haystack.len()
            invariant
                at <= haystack@.len(),
                forall|before: int| 0 <= before < at ==> !matches_at(self@, haystack@, before),
            decreases haystack@.len() - at,
        {
            if self.matches(haystack, at) {
                proof {
                    lemma_first_match(self@, haystack@, at as int);
                }
                return Some(at);
            }
            at += 1;
        }
        None
    }
}

/// Where a search over several patterns succeeded.
#[derive(Clone, Copy, PartialEq, Eq, Structural, Debug)]
pub struct Hit {
    /// The index of the pattern that was found.
    pub pattern: usize,
    /// The offset of its lowest occurrence.
    pub offset: usize,
}

/// Whether `hit` names the first pattern of `patterns` that occurs in
/// `haystack` at all, together with the lowest offset at which that pattern
/// occurs.
pub open spec fn is_first_hit(patterns: Seq<Signature>, haystack: Seq<u8>, hit: Hit) -> bool {
    &&& hit.pattern < patterns.len()
    &&& is_first_match(patterns[hit.pattern as int]@, haystack, hit.offset as int)
    &&& forall|earlier: int|
        0 <= earlier < hit.pattern ==> occurs_nowhere((#[trigger] patterns[earlier])@, haystack)
}

/// Whether none of `patterns` occurs in `haystack`.
pub open spec fn nothing_occurs(patterns: Seq<Signature>, haystack: Seq<u8>) -> bool {
    forall|k: int| 0 <= k < patterns.len() ==> occurs_nowhere((#[trigger] patterns[k])@, haystack)
}

/// Tries the patterns in order and reports the first that occurs anywhere in
/// `haystack`, at its lowest offset.
pub fn scan_first(patterns: &[Signature], haystack: &[u8]) -> (found: Option<Hit>)
    ensures
        match found {
            Some(hit) => is_first_hit(patterns@, haystack@, hit),
            None => nothing_occurs(patterns@, haystack@),
        },
{
    let mut k: usize = 0;
    while k < patterns.len()
        invariant
            k <= patterns@.len(),
            forall|earlier: int|
                0 <= earlier < k ==> occurs_nowhere((#[trigger] patterns@[earlier])@, haystack@),
        decreases patterns@.len() - k,
    {
        match patterns[k].scan(haystack) {
            Some(offset) => {
                return Some(Hit { pattern: k, offset });
            },
            None => {},
        }
        k += 1;
    }
    None
}

/// Two answers to the same search are the same answer.
pub proof fn lemma_first_hit_is_unique(
    patterns: Seq<Signature>,
    haystack: Seq<u8>,
    one: Hit,
    other: Hit,
)
    requires
        is_first_hit(patterns, haystack, one),
        is_first_hit(patterns, haystack, other),
    ensures
        one == other,
{
    if one.pattern < other.pattern {
        assert(occurs_nowhere(patterns[one.pattern as int]@, haystack));
    } else if other.pattern < one.pattern {
        assert(occurs_nowhere(patterns[other.pattern as int]@, haystack));
    }
}

/// A search finds something exactly when some pattern occurs somewhere.
pub proof fn lemma_hit_or_nothing(patterns: Seq<Signature>, haystack: Seq<u8>, hit: Hit)
    requires
        is_first_hit(patterns, haystack, hit),
    ensures
        !nothing_occurs(patterns, haystack),
{
    assert(matches_at(patterns[hit.pattern as int]@, haystack, hit.offset as int));
}

/// Nothing occurs in an empty haystack.
pub proof fn lemma_empty_haystack(patterns: Seq<Signature>)
    ensures
        nothing_occurs(patterns, Seq::<u8>::empty()),
{
}

} // verus!
