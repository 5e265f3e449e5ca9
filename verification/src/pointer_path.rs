//! Named paths through the object graph of the watched process.
//!
//! A path starts at a static slot of a class and goes on through fields and
//! list elements. Resolving a path turns its names into byte offsets, with the
//! help of the oracle; that is done once, since a class keeps its layout.
//! Walking a resolved path follows the pointers, and is done on every use,
//! since the objects themselves move.

use vstd::prelude::*;
use vstd::slice::slice_to_vec;
use vstd::string::StringSliceAdditionalSpecFns;
use crate::bytes::byte_strings;
use crate::csharp::{CSharpList, ListLayout};
use crate::oracle::{query_for, OracleQuery, OracleTable, QueryView};
use crate::remote::{address_of, Fetch, MemoryImage, ReadRequest};

verus! {

/// Why a path led to no value.
#[derive(Clone, Copy, PartialEq, Eq, Structural, Debug)]
pub enum PathError {
    /// The oracle does not know the root of the path or one of its fields.
    Unresolved,
    /// A link of the path is null, cannot be read, or lies outside its list.
    PathBroken,
}

/// One link of a resolved path.
#[derive(Clone, Copy, PartialEq, Eq, Structural, Debug)]
pub enum Step {
    /// The field at this byte offset in the current object.
    Field(u64),
    /// The element of this index in the list that the current object is.
    Index(u32),
}

/// The outcome of a computation over what is known of the oracle and of
/// memory: its result, the read whose answer is lacking, or the question that
/// the oracle was not yet asked.
#[derive(Clone, Debug, PartialEq, Eq)]
pub enum Progress<T, Q> {
    Done(T),
    Read(ReadRequest),
    Ask(Q),
}

/// A path as it is declared: the class it starts at, the static slot of that
/// class, and the segments that lead on from there. A segment made of decimal
/// digits is the index of a list element; any other is the name of a field.
#[derive(Clone, Debug, PartialEq, Eq)]
pub struct PointerPath {
    pub root_class: Vec<u8>,
    pub static_field_slot: u32,
    pub segments: Vec<Vec<u8>>,
}

/// A declared path, as plain sequences.
pub struct PathView {
    pub root_class: Seq<u8>,
    pub static_field_slot: u32,
    pub segments: Seq<Seq<u8>>,
}

impl View for PointerPath {
    type V = PathView;

    open spec fn view(&self) -> PathView {
        PathView {
            root_class: self.root_class@,
            static_field_slot: self.static_field_slot,
            segments: byte_strings(self.segments@),
        }
    }
}

/// What resolving a path yields: the address its root stands for and one
/// link for each segment.
#[derive(Clone, Debug, PartialEq, Eq)]
pub struct ResolvedPointerPath {
    pub base: u64,
    pub steps: Vec<Step>,
}

/// A resolved path, as plain sequences.
pub struct ChainView {
    pub base: u64,
    pub steps: Seq<Step>,
}

impl View for ResolvedPointerPath {
    type V = ChainView;

    open spec fn view(&self) -> ChainView {
        ChainView { base: self.base, steps: self.steps@ }
    }
}

pub open spec fn is_digit(byte: u8) -> bool {
    0x30 <= byte <= 0x39
}

pub open spec fn all_digits(text: Seq<u8>) -> bool {
    forall|i: int| 0 <= i < text.len() ==> is_digit(#[trigger] text[i])
}

/// The number that a run of decimal digits spells.
pub open spec fn digits_value(text: Seq<u8>) -> int
    decreases text.len(),
{
    if text.len() == 0 {
        0
    } else {
        10 * digits_value(text.drop_last()) + (text.last() - 0x30)
    }
}

/// The list index that a segment spells, if it spells one: it is a run of
/// one or more decimal digits whose value fits 32 bits.
pub open spec fn segment_index(text: Seq<u8>) -> Option<u32> {
    if text.len() > 0 && all_digits(text) && digits_value(text) <= u32::MAX {
        Some(digits_value(text) as u32)
    } else {
        None
    }
}

proof fn lemma_digits_grow(text: Seq<u8>, n: int)
    requires
        all_digits(text),
        0 <= n <= text.len(),
    ensures
        0 <= digits_value(text.take(n)) <= digits_value(text),
    decreases text.len() - n,
{
    if n == text.len() {
        assert(text.take(n) =~= text);
        lemma_digits_nonnegative(text);
    } else {
        lemma_digits_grow(text, n + 1);
        assert(text.take(n + 1).drop_last() =~= text.take(n));
        assert(is_digit(text[n]));
        lemma_digits_nonnegative(text.take(n));
    }
}

proof fn lemma_digits_nonnegative(text: Seq<u8>)
    requires
        all_digits(text),
    ensures
        0 <= digits_value(text),
    decreases text.len(),
{
    if text.len() > 0 {
        assert(is_digit(text.last()));
        assert forall|i: int| 0 <= i < text.drop_last().len() implies is_digit(
            #[trigger] text.drop_last()[i],
        ) by {
            assert(text.drop_last()[i] == text[i]);
        }
        lemma_digits_nonnegative(text.drop_last());
    }
}

/// Reads a segment as a list index.
pub fn parse_index(text: &[u8]) -> (index: Option<u32>)
    ensures
        index == segment_index(text@),
{
    if text.len() == 0 {
        return None;
    }
    let mut value: u64 = 0;
    let mut i: usize = 0;
    while i < text.len()
        invariant
            i <= text@.len(),
            forall|k: int| 0 <= k < i ==> is_digit(#[trigger] text@[k]),
            value == digits_value(text@.take(i as int)),
            value <= u32::MAX,
        decreases text@.len() - i,
    {
        let byte = text[i];
        if byte < 0x30 || byte > 0x39 {
            assert(!is_digit(text@[i as int]));
            return None;
        }
        assert(text@.take(i + 1).drop_last() =~= text@.take(i as int));
        let next: u64 = 10 * value + (byte - 0x30) as u64;
        if next > u32::MAX as u64 {
            proof {
                if all_digits(text@) {
                    lemma_digits_grow(text@, i + 1);
                }
            }
            return None;
        }
        value = next;
        i += 1;
    }
    assert(text@.take(i as int) =~= text@);
    Some(value as u32)
}

/// The question that asks for the field named by segment `n - 1` of `path`,
/// or, where `n` is 0, for the address that the root of `path` stands for.
pub open spec fn query_at(path: PathView, n: int) -> QueryView {
    QueryView {
        class: path.root_class,
        slot: path.static_field_slot,
        steps: path.segments.take(n),
    }
}

/// The links for the first `n` segments of `path`, as far as the oracle's
/// answers go: `None` once the oracle found a field missing, and the first
/// question without an answer where there is one.
pub open spec fn steps_of(path: PathView, oracle: Map<QueryView, Option<u64>>, n: nat)
    -> Progress<Option<Seq<Step>>, QueryView>
    decreases n,
{
    if n == 0 {
        Progress::Done(Some(Seq::empty()))
    } else {
        match steps_of(path, oracle, (n - 1) as nat) {
            Progress::Done(Some(before)) => match segment_index(path.segments[n - 1]) {
                Some(index) => Progress::Done(Some(before.push(Step::Index(index)))),
                None => {
                    let query = query_at(path, n as int);
                    if !oracle.contains_key(query) {
                        Progress::Ask(query)
                    } else {
                        match oracle[query] {
                            Some(offset) => Progress::Done(Some(before.push(Step::Field(offset)))),
                            None => Progress::Done(None),
                        }
                    }
                },
            },
            other => other,
        }
    }
}

/// What resolving `path` yields, as far as the oracle's answers go.
pub open spec fn spec_resolve(path: PathView, oracle: Map<QueryView, Option<u64>>) -> Progress<
    Option<ChainView>,
    QueryView,
> {
    let root = query_at(path, 0);
    if !oracle.contains_key(root) {
        Progress::Ask(root)
    } else {
        match oracle[root] {
            None => Progress::Done(None),
            Some(base) => match steps_of(path, oracle, path.segments.len()) {
                Progress::Done(Some(steps)) => Progress::Done(Some(ChainView { base, steps })),
                Progress::Done(None) => Progress::Done(None),
                Progress::Ask(query) => Progress::Ask(query),
                Progress::Read(request) => Progress::Read(request),
            },
        }
    }
}

/// The outcome of resolving, as plain sequences.
pub open spec fn resolved_view(outcome: Progress<Option<ResolvedPointerPath>, OracleQuery>)
    -> Progress<Option<ChainView>, QueryView> {
    match outcome {
        Progress::Done(Some(chain)) => Progress::Done(Some(chain@)),
        Progress::Done(None) => Progress::Done(None),
        Progress::Read(request) => Progress::Read(request),
        Progress::Ask(query) => Progress::Ask(query@),
    }
}

/// Resolving needs the oracle only: it never asks for a read. A chain has
/// one link for each segment of its path.
pub proof fn lemma_resolve_reads_nothing(path: PathView, oracle: Map<QueryView, Option<u64>>)
    ensures
        !(spec_resolve(path, oracle) is Read),
        spec_resolve(path, oracle) matches Progress::Done(Some(chain)) ==> chain.steps.len()
            == path.segments.len(),
{
    lemma_steps_never_read(path, oracle, path.segments.len());
}

proof fn lemma_steps_never_read(path: PathView, oracle: Map<QueryView, Option<u64>>, n: nat)
    ensures
        !(steps_of(path, oracle, n) is Read),
        steps_of(path, oracle, n) matches Progress::Done(Some(steps)) ==> steps.len() == n,
    decreases n,
{
    if n > 0 {
        lemma_steps_never_read(path, oracle, (n - 1) as nat);
    }
}

/// Turns the names of `path` into links, with the answers that `oracle`
/// holds. Nothing is resolved in part: the outcome is a whole chain, the
/// failure of the path, or the next question to put to the oracle.
pub fn resolve(path: &PointerPath, oracle: &OracleTable) -> (outcome: Progress<
    Option<ResolvedPointerPath>,
    OracleQuery,
>)
    ensures
        resolved_view(outcome) == spec_resolve(path@, oracle@),
        outcome matches Progress::Ask(query) ==> !oracle@.contains_key(query@),
{
    let class = path.root_class.as_slice();
    let slot = path.static_field_slot;
    let segments = path.segments.as_slice();
    assert(byte_strings(segments@.take(0)) =~= path@.segments.take(0));
    let base = match oracle.answer(class, slot, segments, 0) {
        None => {
            return Progress::Ask(query_for(class, slot, segments, 0));
        },
        Some(None) => {
            return Progress::Done(None);
        },
        Some(Some(base)) => base,
    };
    let mut steps: Vec<Step> = Vec::new();
    let mut i: usize = 0;
    while i < segments.len()
        invariant
            i <= segments@.len(),
            class@ == path@.root_class,
            slot == path@.static_field_slot,
            byte_strings(segments@) == path@.segments,
            oracle@.contains_key(query_at(path@, 0)),
            oracle@[query_at(path@, 0)] == Some(base),
            steps_of(path@, oracle@, i as nat) == Progress::<Option<Seq<Step>>, QueryView>::Done(
                Some(steps@),
            ),
        decreases segments@.len() - i,
    {
        assert(path@.segments[i as int] == segments@[i as int]@);
        assert(byte_strings(segments@.take(i + 1)) =~= path@.segments.take(i + 1));
        match parse_index(segments[i].as_slice()) {
            Some(index) => {
                steps.push(Step::Index(index));
            },
            None => match oracle.answer(class, slot, segments, i + 1) {
                None => {
                    proof {
                        lemma_ask_persists(path@, oracle@, (i + 1) as nat, segments@.len() as nat);
                    }
                    return Progress::Ask(query_for(class, slot, segments, i + 1));
                },
                Some(None) => {
                    proof {
                        lemma_ask_persists(path@, oracle@, (i + 1) as nat, segments@.len() as nat);
                    }
                    return Progress::Done(None);
                },
                Some(Some(offset)) => {
                    steps.push(Step::Field(offset));
                },
            },
        }
        i += 1;
    }
    Progress::Done(Some(ResolvedPointerPath { base, steps }))
}

/// Once the links of a prefix are not to be had, neither are those of a
/// longer one, for the same reason.
proof fn lemma_ask_persists(path: PathView, oracle: Map<QueryView, Option<u64>>, n: nat, m: nat)
    requires
        n <= m,
        !(steps_of(path, oracle, n) matches Progress::Done(Some(_))),
    ensures
        steps_of(path, oracle, m) == steps_of(path, oracle, n),
    decreases m,
{
    if n < m {
        lemma_ask_persists(path, oracle, n, (m - 1) as nat);
    }
}

/// Where one link that is not the last leads from `current`: through a field
/// to the object that the field points to, or through a list to the element
/// of the given index. A null pointer leads nowhere.
pub open spec fn spec_advance(image: MemoryImage, layout: ListLayout, current: u64, step: Step)
    -> Fetch<Option<u64>> {
    match step {
        Step::Field(offset) => image.spec_follow(current, offset, layout.pointer_size),
        Step::Index(index) => match (CSharpList { address: current }).spec_slot_address(
            image,
            layout,
            index,
        ) {
            Fetch::Need(request) => Fetch::Need(request),
            Fetch::Ready(None) => Fetch::Ready(None),
            Fetch::Ready(Some(slot)) => image.spec_follow(slot, 0, layout.pointer_size),
        },
    }
}

/// The address that the last link names, seen from `current`: that of the
/// field itself, or that of the slot of the element.
pub open spec fn spec_target(image: MemoryImage, layout: ListLayout, current: u64, step: Step)
    -> Fetch<Option<u64>> {
    match step {
        Step::Field(offset) => Fetch::Ready(address_of(current + offset)),
        Step::Index(index) => (CSharpList { address: current }).spec_slot_address(
            image,
            layout,
            index,
        ),
    }
}

/// The address that `steps` lead to from `current`, as far as `image` can
/// tell: every link but the last is followed, and the last names the place.
pub open spec fn spec_walk(image: MemoryImage, layout: ListLayout, current: u64, steps: Seq<Step>)
    -> Fetch<Option<u64>>
    decreases steps.len(),
{
    if steps.len() == 0 {
        Fetch::Ready(Some(current))
    } else if steps.len() == 1 {
        spec_target(image, layout, current, steps[0])
    } else {
        match spec_advance(image, layout, current, steps[0]) {
            Fetch::Need(request) => Fetch::Need(request),
            Fetch::Ready(None) => Fetch::Ready(None),
            Fetch::Ready(Some(next)) => spec_walk(image, layout, next, steps.drop_first()),
        }
    }
}

/// The bytes at the end of a resolved path, as far as `image` can tell.
pub open spec fn spec_read_at(image: MemoryImage, layout: ListLayout, chain: ChainView, len: usize)
    -> Fetch<Result<Seq<u8>, PathError>> {
    match spec_walk(image, layout, chain.base, chain.steps) {
        Fetch::Need(request) => Fetch::Need(request),
        Fetch::Ready(None) => Fetch::Ready(Err(PathError::PathBroken)),
        Fetch::Ready(Some(target)) => match image.spec_read(target, len) {
            Fetch::Need(request) => Fetch::Need(request),
            Fetch::Ready(None) => Fetch::Ready(Err(PathError::PathBroken)),
            Fetch::Ready(Some(bytes)) => Fetch::Ready(Ok(bytes)),
        },
    }
}

/// The object that is reached from `current` once the first `count` of
/// `steps` have been followed.
pub open spec fn spec_reached(
    image: MemoryImage,
    layout: ListLayout,
    current: u64,
    steps: Seq<Step>,
    count: nat,
) -> Fetch<Option<u64>>
    decreases count,
{
    if count == 0 || steps.len() == 0 {
        Fetch::Ready(Some(current))
    } else {
        match spec_advance(image, layout, current, steps[0]) {
            Fetch::Need(request) => Fetch::Need(request),
            Fetch::Ready(None) => Fetch::Ready(None),
            Fetch::Ready(Some(next)) => spec_reached(
                image,
                layout,
                next,
                steps.drop_first(),
                (count - 1) as nat,
            ),
        }
    }
}

/// A path is broken wherever one of its links, other than the last, leads
/// nowhere from the object that the links before it reach.
pub proof fn lemma_dead_link_breaks(
    image: MemoryImage,
    layout: ListLayout,
    current: u64,
    steps: Seq<Step>,
    at: nat,
)
    requires
        at + 1 < steps.len(),
        spec_reached(image, layout, current, steps, at) matches Fetch::Ready(Some(object))
            && spec_advance(image, layout, object, steps[at as int]) == Fetch::Ready(
            None::<u64>,
        ),
    ensures
        spec_walk(image, layout, current, steps) == Fetch::Ready(None::<u64>),
    decreases at,
{
    if at > 0 {
        let next = spec_advance(image, layout, current, steps[0])->Ready_0->0;
        assert(steps.drop_first()[at - 1] == steps[at as int]);
        lemma_dead_link_breaks(image, layout, next, steps.drop_first(), (at - 1) as nat);
    }
}

/// A path is broken wherever a field on the way, other than the last, holds
/// a null pointer.
pub proof fn lemma_null_link_breaks(
    image: MemoryImage,
    layout: ListLayout,
    chain: ChainView,
    at: nat,
    len: usize,
)
    requires
        at + 1 < chain.steps.len(),
        spec_reached(image, layout, chain.base, chain.steps, at) matches Fetch::Ready(Some(object))
            && chain.steps[at as int] matches Step::Field(offset) && object + offset <= u64::MAX
            && image.spec_read_pointer((object + offset) as u64, layout.pointer_size)
            == Fetch::Ready(Some(0u64)),
    ensures
        spec_read_at(image, layout, chain, len) == Fetch::<Result<Seq<u8>, PathError>>::Ready(
            Err(PathError::PathBroken),
        ),
{
    lemma_dead_link_breaks(image, layout, chain.base, chain.steps, at);
}

impl ResolvedPointerPath {
    fn advance(image: &MemoryImage, layout: &ListLayout, current: u64, step: Step) -> (next: Fetch<
        Option<u64>,
    >)
        ensures
            next == spec_advance(*image, *layout, current, step),
            next matches Fetch::Need(request) ==> !image.knows(request),
    {
        match step {
            Step::Field(offset) => image.follow(current, offset, layout.pointer_size),
            Step::Index(index) => match (CSharpList { address: current }).slot_address(
                image,
                layout,
                index,
            ) {
                Fetch::Need(request) => Fetch::Need(request),
                Fetch::Ready(None) => Fetch::Ready(None),
                Fetch::Ready(Some(slot)) => image.follow(slot, 0, layout.pointer_size),
            },
        }
    }

    fn target(image: &MemoryImage, layout: &ListLayout, current: u64, step: Step) -> (target: Fetch<
        Option<u64>,
    >)
        ensures
            target == spec_target(*image, *layout, current, step),
            target matches Fetch::Need(request) ==> !image.knows(request),
    {
        match step {
            Step::Field(offset) => if offset > u64::MAX - current {
                Fetch::Ready(None)
            } else {
                Fetch::Ready(Some(current + offset))
            },
            Step::Index(index) => (CSharpList { address: current }).slot_address(
                image,
                layout,
                index,
            ),
        }
    }

    /// Follows the path through the memory that `image` knows and returns
    /// the address it ends at.
    pub fn walk(&self, image: &MemoryImage, layout: &ListLayout) -> (target: Fetch<Option<u64>>)
        ensures
            target == spec_walk(*image, *layout, self.base, self.steps@),
            target matches Fetch::Need(request) ==> !image.knows(request),
    {
        let mut current: u64 = self.base;
        let mut i: usize = 0;
        let n = self.steps.len();
        if n == 0 {
            return Fetch::Ready(Some(current));
        }
        assert(self.steps@.skip(0) =~= self.steps@);
        while i < n - 1
            invariant
                n == self.steps@.len(),
                n > 0,
                i <= n - 1,
                spec_walk(*image, *layout, self.base, self.steps@) == spec_walk(
                    *image,
                    *layout,
                    current,
                    self.steps@.skip(i as int),
                ),
            decreases n - i,
        {
            let ghost rest = self.steps@.skip(i as int);
            assert(rest.len() >= 2);
            assert(rest[0] == self.steps@[i as int]);
            assert(rest.drop_first() =~= self.steps@.skip(i + 1));
            match Self::advance(image, layout, current, self.steps[i]) {
                Fetch::Need(request) => {
                    return Fetch::Need(request);
                },
                Fetch::Ready(None) => {
                    return Fetch::Ready(None);
                },
                Fetch::Ready(Some(next)) => {
                    current = next;
                },
            }
            i += 1;
        }
        let ghost rest = self.steps@.skip(i as int);
        assert(rest.len() == 1);
        assert(rest[0] == self.steps@[i as int]);
        Self::target(image, layout, current, self.steps[i])
    }

    /// Reads `len` bytes at the end of the path.
    pub fn read(&self, image: &MemoryImage, layout: &ListLayout, len: usize) -> (bytes: Fetch<
        Result<Vec<u8>, PathError>,
    >)
        ensures
            read_view(bytes) == spec_read_at(*image, *layout, self@, len),
            bytes matches Fetch::Need(request) ==> !image.knows(request),
    {
        match self.walk(image, layout) {
            Fetch::Need(request) => Fetch::Need(request),
            Fetch::Ready(None) => Fetch::Ready(Err(PathError::PathBroken)),
            Fetch::Ready(Some(target)) => match image.read(target, len) {
                Fetch::Need(request) => Fetch::Need(request),
                Fetch::Ready(None) => Fetch::Ready(Err(PathError::PathBroken)),
                Fetch::Ready(Some(bytes)) => Fetch::Ready(Ok(slice_to_vec(bytes.as_slice()))),
            },
        }
    }
}

/// The outcome of a read, as plain sequences.
pub open spec fn read_view(outcome: Fetch<Result<Vec<u8>, PathError>>) -> Fetch<
    Result<Seq<u8>, PathError>,
> {
    match outcome {
        Fetch::Need(request) => Fetch::Need(request),
        Fetch::Ready(Ok(bytes)) => Fetch::Ready(Ok(bytes@)),
        Fetch::Ready(Err(error)) => Fetch::Ready(Err(error)),
    }
}

/// A cached chain as plain sequences.
pub open spec fn cached_view(resolved: Option<ResolvedPointerPath>) -> Option<ChainView> {
    match resolved {
        Some(chain) => Some(chain@),
        None => None,
    }
}

/// The outcome of a dereference, as plain sequences.
pub open spec fn deref_view(outcome: Progress<Result<Vec<u8>, PathError>, OracleQuery>)
    -> Progress<Result<Seq<u8>, PathError>, QueryView> {
    match outcome {
        Progress::Done(Ok(bytes)) => Progress::Done(Ok(bytes@)),
        Progress::Done(Err(error)) => Progress::Done(Err(error)),
        Progress::Read(request) => Progress::Read(request),
        Progress::Ask(query) => Progress::Ask(query@),
    }
}

/// A declared path together with the chain it resolved to, once it has.
#[derive(Clone, Debug, PartialEq, Eq)]
pub struct UnityPointer {
    pub path: PointerPath,
    pub resolved: Option<ResolvedPointerPath>,
}

impl UnityPointer {
    /// Declares a path. Nothing is resolved yet.
    pub fn new(class: &str, static_field_slot: u32, fields: &[&str]) -> (pointer: Self)
        ensures
            pointer.path@ == (PathView {
                root_class: class.spec_bytes(),
                static_field_slot,
                segments: Seq::new(fields@.len(), |i: int| fields@[i].spec_bytes()),
            }),
            pointer.resolved is None,
    {
        let mut segments: Vec<Vec<u8>> = Vec::new();
        let mut i: usize = 0;
        while i < fields.len()
            invariant
                i <= fields@.len(),
                segments@.len() == i,
                forall|k: int| 0 <= k < i ==> segments@[k]@ == fields@[k].spec_bytes(),
            decreases fields@.len() - i,
        {
            segments.push(slice_to_vec(fields[i].as_bytes()));
            i += 1;
        }
        assert(byte_strings(segments@) =~= Seq::new(
            fields@.len(),
            |i: int| fields@[i].spec_bytes(),
        ));
        UnityPointer {
            path: PointerPath { root_class: slice_to_vec(class.as_bytes()), static_field_slot, segments },
            resolved: None,
        }
    }

    /// The chain of the path: the cached one, or else what resolving yields.
    pub open spec fn spec_chain(self, oracle: Map<QueryView, Option<u64>>) -> Progress<
        Option<ChainView>,
        QueryView,
    > {
        match self.resolved {
            Some(chain) => Progress::Done(Some(chain@)),
            None => spec_resolve(self.path@, oracle),
        }
    }

    /// The chain that is cached after a dereference: the one that was cached
    /// before, or the one that resolving yielded, if it yielded one.
    pub open spec fn spec_cache_after(self, oracle: Map<QueryView, Option<u64>>) -> Option<
        ChainView,
    > {
        match self.spec_chain(oracle) {
            Progress::Done(Some(chain)) => Some(chain),
            _ => None,
        }
    }

    /// The bytes at the end of the path, as far as the oracle's answers and
    /// `image` go.
    pub open spec fn spec_deref(
        self,
        oracle: Map<QueryView, Option<u64>>,
        image: MemoryImage,
        layout: ListLayout,
        len: usize,
    ) -> Progress<Result<Seq<u8>, PathError>, QueryView> {
        match self.spec_chain(oracle) {
            Progress::Ask(query) => Progress::Ask(query),
            Progress::Read(request) => Progress::Read(request),
            Progress::Done(None) => Progress::Done(Err(PathError::Unresolved)),
            Progress::Done(Some(chain)) => match spec_read_at(image, layout, chain, len) {
                Fetch::Need(request) => Progress::Read(request),
                Fetch::Ready(outcome) => Progress::Done(outcome),
            },
        }
    }

    /// Reads `len` bytes at the end of the path. On first use the path is
    /// resolved, and the chain is kept once the whole of it is known; from
    /// then on the oracle is not consulted. The pointers are followed anew on
    /// every call.
    pub fn deref(
        &mut self,
        oracle: &OracleTable,
        image: &MemoryImage,
        layout: &ListLayout,
        len: usize,
    ) -> (outcome: Progress<Result<Vec<u8>, PathError>, OracleQuery>)
        ensures
            deref_view(outcome) == old(self).spec_deref(oracle@, *image, *layout, len),
            final(self).path == old(self).path,
            cached_view(final(self).resolved) == old(self).spec_cache_after(oracle@),
            outcome matches Progress::Read(request) ==> !image.knows(request),
            outcome matches Progress::Ask(query) ==> !oracle@.contains_key(query@),
    {
        if self.resolved.is_none() {
            match resolve(&self.path, oracle) {
                Progress::Ask(query) => {
                    return Progress::Ask(query);
                },
                Progress::Read(request) => {
                    proof {
                        lemma_resolve_reads_nothing(self.path@, oracle@);
                    }
                    return Progress::Read(request);
                },
                Progress::Done(None) => {
                    return Progress::Done(Err(PathError::Unresolved));
                },
                Progress::Done(Some(chain)) => {
                    self.resolved = Some(chain);
                },
            }
        }
        match &self.resolved {
            None => Progress::Done(Err(PathError::Unresolved)),
            Some(chain) => match chain.read(image, layout, len) {
                Fetch::Need(request) => Progress::Read(request),
                Fetch::Ready(Ok(bytes)) => Progress::Done(Ok(bytes)),
                Fetch::Ready(Err(error)) => Progress::Done(Err(error)),
            },
        }
    }
}

} // verus!
