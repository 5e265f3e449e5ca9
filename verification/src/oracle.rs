//! What the reflection oracle has said so far.
//!
//! The managed runtime knows where each class keeps its fields. The library
//! does not ask the runtime; the host does, and records each answer in an
//! [`OracleTable`]. A question is a class, a static slot of that class, and a
//! run of steps from there: with no steps it asks for the address the slot
//! stands for, with steps it asks for the byte offset of the field that the
//! last step names, inside the class that the steps before it lead to.

use vstd::prelude::*;
use vstd::slice::slice_to_vec;
use crate::bytes::{byte_strings, copy_prefix, same_bytes, same_prefix};

verus! {

/// A question to the oracle.
#[derive(Clone, Debug, PartialEq, Eq)]
pub struct OracleQuery {
    pub class: Vec<u8>,
    pub slot: u32,
    pub steps: Vec<Vec<u8>>,
}

/// A question to the oracle, as plain sequences.
pub struct QueryView {
    pub class: Seq<u8>,
    pub slot: u32,
    pub steps: Seq<Seq<u8>>,
}

impl View for OracleQuery {
    type V = QueryView;

    open spec fn view(&self) -> QueryView {
        QueryView { class: self.class@, slot: self.slot, steps: byte_strings(self.steps@) }
    }
}

/// One question and the oracle's answer: a number, or `None` where the oracle
/// found nothing.
pub struct OracleEntry {
    pub query: OracleQuery,
    pub answer: Option<u64>,
}

/// The answers the oracle has given. A later answer to the same question
/// replaces an earlier one.
pub struct OracleTable {
    entries: Vec<OracleEntry>,
}

/// What a list of entries says of each question that occurs in it.
pub open spec fn answers_of(entries: Seq<OracleEntry>) -> Map<QueryView, Option<u64>>
    decreases entries.len(),
{
    if entries.len() == 0 {
        Map::empty()
    } else {
        answers_of(entries.drop_last()).insert(entries.last().query@, entries.last().answer)
    }
}

proof fn lemma_answers_absent(entries: Seq<OracleEntry>, query: QueryView)
    requires
        forall|k: int| 0 <= k < entries.len() ==> entries[k].query@ != query,
    ensures
        !answers_of(entries).contains_key(query),
    decreases entries.len(),
{
    if entries.len() > 0 {
        lemma_answers_absent(entries.drop_last(), query);
    }
}

proof fn lemma_answers_latest(entries: Seq<OracleEntry>, query: QueryView, at: int)
    requires
        0 <= at < entries.len(),
        entries[at].query@ == query,
        forall|k: int| at < k < entries.len() ==> entries[k].query@ != query,
    ensures
        answers_of(entries).contains_key(query),
        answers_of(entries)[query] == entries[at].answer,
    decreases entries.len(),
{
    if at < entries.len() - 1 {
        lemma_answers_latest(entries.drop_last(), query, at);
    }
}

impl View for OracleTable {
    type V = Map<QueryView, Option<u64>>;

    /// The answer on record for each question that was asked.
    closed spec fn view(&self) -> Map<QueryView, Option<u64>> {
        answers_of(self.entries@)
    }
}

impl OracleTable {
    /// A table without answers.
    pub fn new() -> (table: Self)
        ensures
            table@ == Map::<QueryView, Option<u64>>::empty(),
    {
        OracleTable { entries: Vec::new() }
    }

    /// Records the oracle's answer to `query`.
    pub fn record(&mut self, query: OracleQuery, answer: Option<u64>)
        ensures
            final(self)@ == old(self)@.insert(query@, answer),
    {
        let ghost before = self.entries@;
        self.entries.push(OracleEntry { query, answer });
        assert(self.entries@.drop_last() =~= before);
    }

    /// Looks up the answer to `query`. The outer `None` says that the question
    /// was never asked.
    pub fn lookup(&self, query: &OracleQuery) -> (answer: Option<Option<u64>>)
        ensures
            answer == if self@.contains_key(query@) {
                Some(self@[query@])
            } else {
                None
            },
    {
        assert(query.steps@.take(query.steps@.len() as int) =~= query.steps@);
        self.answer(
            query.class.as_slice(),
            query.slot,
            query.steps.as_slice(),
            query.steps.len(),
        )
    }

    /// Looks up the answer to the question that `class`, `slot` and the first
    /// `n` of `steps` make. The outer `None` says that it was never asked.
    pub(crate) fn answer(&self, class: &[u8], slot: u32, steps: &[Vec<u8>], n: usize) -> (answer: Option<
        Option<u64>,
    >)
        requires
            n <= steps@.len(),
        ensures
            ({
                let query = QueryView {
                    class: class@,
                    slot,
                    steps: byte_strings(steps@.take(n as int)),
                };
                answer == if self@.contains_key(query) {
                    Some(self@[query])
                } else {
                    None
                }
            }),
    {
        let ghost query = QueryView {
            class: class@,
            slot,
            steps: byte_strings(steps@.take(n as int)),
        };
        let mut i: usize = self.entries.len();
        while i > 0
            invariant
                i <= self.entries@.len(),
                n <= steps@.len(),
                query == (QueryView {
                    class: class@,
                    slot,
                    steps: byte_strings(steps@.take(n as int)),
                }),
                forall|k: int| i <= k < self.entries@.len() ==> self.entries@[k].query@ != query,
            decreases i,
        {
            i -= 1;
            let entry = &self.entries[i];
            if entry.query.slot == slot && same_bytes(entry.query.class.as_slice(), class)
                && same_prefix(steps, n, entry.query.steps.as_slice()) {
                proof {
                    lemma_answers_latest(self.entries@, query, i as int);
                }
                return Some(entry.answer);
            }
        }
        proof {
            lemma_answers_absent(self.entries@, query);
        }
        None
    }
}

/// Writes out the question that `class`, `slot` and the first `n` of `steps`
/// make.
pub(crate) fn query_for(class: &[u8], slot: u32, steps: &[Vec<u8>], n: usize) -> (query: OracleQuery)
    requires
        n <= steps@.len(),
    ensures
        query@ == (QueryView { class: class@, slot, steps: byte_strings(steps@.take(n as int)) }),
{
    OracleQuery { class: slice_to_vec(class), slot, steps: copy_prefix(steps, n) }
}

} // verus!
