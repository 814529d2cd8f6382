//! How many rows of each type a filing holds, and how many bytes they take.

use crate::text::str_eq;
use vstd::prelude::*;

verus! {

/// The rows of one type: how many there are, and their bytes together. Both
/// numbers stop at `usize::MAX`.
#[derive(Debug)]
pub struct FilingFormMetadata {
    pub row_type: String,
    pub count: usize,
    pub bytes: usize,
}

/// What is known of the rows of one type.
pub struct FormTotals {
    pub row_type: Seq<char>,
    pub count: nat,
    pub bytes: nat,
}

impl View for FilingFormMetadata {
    type V = FormTotals;

    open spec fn view(&self) -> FormTotals {
        FormTotals { row_type: self.row_type@, count: self.count as nat, bytes: self.bytes as nat }
    }
}

/// The views of `status`, one for each entry.
pub open spec fn totals(status: Seq<FilingFormMetadata>) -> Seq<FormTotals> {
    Seq::new(status.len(), |i: int| status[i]@)
}

/// The index of the entry for `row_type`, where there is one.
pub open spec fn entry_of(status: Seq<FormTotals>, row_type: Seq<char>) -> Option<int> {
    crate::record::position(status, |entry: FormTotals| entry.row_type == row_type)
}

/// No two entries are for the same row type.
pub open spec fn distinct(status: Seq<FormTotals>) -> bool {
    forall|i: int, j: int|
        0 <= i < j < status.len() ==> (#[trigger] status[i]).row_type != (
        #[trigger] status[j]).row_type
}

/// `a + b`, but no more than `usize::MAX`.
pub open spec fn capped(a: nat, b: nat) -> nat {
    if a + b > usize::MAX {
        usize::MAX as nat
    } else {
        a + b
    }
}

/// `status` with one more row of the type `row_type`, which takes `size`
/// bytes: counted under its entry, or under a new entry at the end.
pub open spec fn counted(status: Seq<FormTotals>, row_type: Seq<char>, size: nat) -> Seq<
    FormTotals,
> {
    match entry_of(status, row_type) {
        Some(i) => status.update(
            i,
            FormTotals {
                row_type,
                count: capped(status[i].count, 1),
                bytes: capped(status[i].bytes, size),
            },
        ),
        None => status.push(FormTotals { row_type, count: 1, bytes: size }),
    }
}

/// Counting a row keeps the entries distinct.
pub proof fn lemma_counted_distinct(status: Seq<FormTotals>, row_type: Seq<char>, size: nat)
    requires
        distinct(status),
    ensures
        distinct(counted(status, row_type, size)),
{
    let wanted = |entry: FormTotals| entry.row_type == row_type;
    crate::record::lemma_position_from(status, wanted, 0);
    let after = counted(status, row_type, size);
    match entry_of(status, row_type) {
        Some(k) => {
            assert forall|i: int, j: int| 0 <= i < j < after.len() implies (
            #[trigger] after[i]).row_type != (#[trigger] after[j]).row_type by {
                assert(status[i].row_type != status[j].row_type);
            }
        },
        None => {
            assert forall|i: int, j: int| 0 <= i < j < after.len() implies (
            #[trigger] after[i]).row_type != (#[trigger] after[j]).row_type by {
                if j < status.len() {
                    assert(status[i].row_type != status[j].row_type);
                } else {
                    assert(!wanted(status[i]));
                }
            }
        },
    }
}

/// `a + b`, but no more than `usize::MAX`.
fn add_capped(a: usize, b: usize) -> (sum: usize)
    ensures
        sum == capped(a as nat, b as nat),
{
    if a > usize::MAX - b {
        usize::MAX
    } else {
        a + b
    }
}

/// Counts one more row of the type `row_type`, which takes `size` bytes.
pub fn tally(status: &mut Vec<FilingFormMetadata>, row_type: &str, size: usize)
    ensures
        totals(final(status)@) == counted(totals(old(status)@), row_type@, size as nat),
{
    let ghost before = totals(status@);
    let ghost wanted = |entry: FormTotals| entry.row_type == row_type@;
    let n: usize = status.len();
    let mut i: usize = 0;
    while i < n
        invariant
            i <= n,
            n == status.len(),
            *status == *old(status),
            before == totals(status@),
            wanted == (|entry: FormTotals| entry.row_type == row_type@),
            crate::record::position_from(before, wanted, 0) == crate::record::position_from(
                before,
                wanted,
                i as int,
            ),
        decreases n - i,
    {
        assert(before[i as int] == status[i as int]@);
        if str_eq(status[i].row_type.as_str(), row_type) {
            let count: usize = add_capped(status[i].count, 1);
            let bytes: usize = add_capped(status[i].bytes, size);
            let entry = FilingFormMetadata { row_type: row_type.to_owned(), count, bytes };
            status.set(i, entry);
            proof {
                assert(totals(status@) =~= counted(before, row_type@, size as nat));
            }
            return ;
        }
        i = i + 1;
    }
    status.push(FilingFormMetadata { row_type: row_type.to_owned(), count: 1, bytes: size });
    proof {
        assert(totals(status@) =~= counted(before, row_type@, size as nat));
    }
}

} // verus!
