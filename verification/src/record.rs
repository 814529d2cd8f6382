//! One tokenized record of a filing: its fields as text, and where it stood.

use vstd::prelude::*;

verus! {

/// A record as the tokenizer hands it over.
#[derive(Debug)]
pub struct Record {
    /// The fields, decoded as text.
    pub fields: Vec<String>,
    /// The number of bytes that the fields took in the source.
    pub size: usize,
    /// The line of the source on which the record starts, where the
    /// tokenizer tells it.
    pub line: Option<u64>,
    /// The byte offset in the source at which the record starts, where the
    /// tokenizer tells it.
    pub byte: Option<u64>,
}

/// The field at index `i`, where there is one.
pub open spec fn field_at(fields: Seq<Seq<char>>, i: int) -> Option<Seq<char>> {
    if 0 <= i < fields.len() {
        Some(fields[i])
    } else {
        None
    }
}

/// The first index at or after `from` whose element satisfies `wanted`.
pub open spec fn position_from<A>(s: Seq<A>, wanted: spec_fn(A) -> bool, from: int) -> Option<int>
    decreases s.len() - from,
{
    if from < 0 || from >= s.len() {
        None
    } else if wanted(s[from]) {
        Some(from)
    } else {
        position_from(s, wanted, from + 1)
    }
}

/// The index of the first element that satisfies `wanted`.
pub open spec fn position<A>(s: Seq<A>, wanted: spec_fn(A) -> bool) -> Option<int> {
    position_from(s, wanted, 0)
}

/// `position_from` finds an element that satisfies `wanted`, none before it
/// does, and it finds none only where there is none.
pub proof fn lemma_position_from<A>(s: Seq<A>, wanted: spec_fn(A) -> bool, from: int)
    requires
        0 <= from,
    ensures
        match position_from(s, wanted, from) {
            Some(i) => {
                &&& from <= i < s.len()
                &&& wanted(s[i])
                &&& forall|j: int| from <= j < i ==> !wanted(#[trigger] s[j])
            },
            None => forall|j: int| from <= j < s.len() ==> !wanted(#[trigger] s[j]),
        },
    decreases s.len() - from,
{
    if from < s.len() && !wanted(s[from]) {
        lemma_position_from(s, wanted, from + 1);
    }
}

impl Record {
    /// The fields as sequences of characters.
    pub open spec fn texts(&self) -> Seq<Seq<char>> {
        self.fields.deep_view()
    }

    /// The field at index `i`, where there is one.
    pub fn get(&self, i: usize) -> (r: Option<&String>)
        ensures
            match r {
                Some(field) => field_at(self.texts(), i as int) == Some(field@),
                None => field_at(self.texts(), i as int) is None,
            },
    {
        if i < self.fields.len() {
            Some(&self.fields[i])
        } else {
            None
        }
    }

    /// The number of fields.
    pub fn len(&self) -> (n: usize)
        ensures
            n == self.texts().len(),
    {
        self.fields.len()
    }
}

} // verus!
