//! The row stream: which records of a filing are rows, and how the free-text
//! blocks between `[BEGINTEXT]` and `[ENDTEXT]` are passed over.
//!
//! The stream is a state machine that is fed what the tokenizer hands over,
//! one record at a time. It is `Ready` between rows and `InTextBlock` inside a
//! block. When a block has closed it is `TextEnded` for one record, the row
//! that the block annotates, and then `Ready` again. It is `Exhausted` once
//! the tokenizer has reported the end.

use crate::record::{field_at, Record};
use crate::text::{remove_char, str_eq, without};
use vstd::prelude::*;
use vstd::string::*;

verus! {

/// `csv::Error`, carried as an opaque value.
#[verifier::external_type_specification]
#[verifier::external_body]
pub struct ExCsvError(csv::Error);

/// One row of a filing.
#[derive(Debug)]
pub struct FilingRow {
    /// The first field of the record, without any `/`.
    pub row_type: String,
    /// The record that the row was read from.
    pub record: Record,
    /// The number of bytes that the record took in the source.
    pub original_size: usize,
}

/// Why no row could be read.
#[derive(Debug)]
pub enum FilingRowReadError {
    /// The tokenizer failed where a row was expected.
    CsvError(csv::Error),
    /// The record on this line has no first field, or an empty one.
    EmptyRecord(u64),
    /// The tokenizer failed inside a free-text block.
    TextRecordError(csv::Error),
    /// The source ended inside a free-text block.
    UnterminatedTextBlock,
}

/// Where the row stream stands.
#[derive(Debug, Clone, Copy, PartialEq, Eq, Structural)]
pub enum RowState {
    /// The next record is a row, or opens a free-text block.
    Ready,
    /// Inside a free-text block.
    InTextBlock,
    /// A free-text block has closed; the next record is the row it annotates.
    TextEnded,
    /// The source has ended.
    Exhausted,
}

/// What the tokenizer hands over: a record, a failure, or nothing at the end
/// of the source.
pub type Pulled = Option<Result<Record, csv::Error>>;

/// What the row stream makes of one thing that it was fed.
#[derive(Debug)]
pub enum Step {
    /// The record is a row.
    Row(FilingRow),
    /// The record belongs to a free-text block; more is needed for a row.
    More,
    /// No row could be read.
    Failed(FilingRowReadError),
    /// There are no more rows.
    Finished,
}

/// What the row stream decides on one thing that it was fed.
pub enum Verdict {
    /// The record is handed on as a row.
    Emit(Record),
    /// The record is passed over.
    Skip,
    /// Reading fails.
    Fail(FilingRowReadError),
    /// The stream is at its end.
    Finish,
}

/// The record opens a free-text block.
pub open spec fn begins_text(fields: Seq<Seq<char>>) -> bool {
    field_at(fields, 0) == Some("[BEGINTEXT]"@)
}

/// The record closes a free-text block.
pub open spec fn ends_text(fields: Seq<Seq<char>>) -> bool {
    field_at(fields, 0) == Some("[ENDTEXT]"@)
}

/// The record has a first field, and it is not empty.
pub open spec fn has_row_type(fields: Seq<Seq<char>>) -> bool {
    fields.len() > 0 && fields[0].len() > 0
}

/// The row type of a record: its first field without any `/`.
pub open spec fn row_type_of(fields: Seq<Seq<char>>) -> Seq<char> {
    without(fields[0], '/')
}

/// `row` is the row that `record` gives.
pub open spec fn is_row_of(row: FilingRow, record: Record) -> bool {
    &&& row.record == record
    &&& row.original_size == record.size
    &&& row.row_type@ == row_type_of(record.texts())
}

/// The line on which a record starts, or 0 where the tokenizer did not tell
/// it.
pub open spec fn line_of(record: Record) -> u64 {
    match record.line {
        Some(line) => line,
        None => 0,
    }
}

/// What a record gives where a row is expected.
pub open spec fn row_or_fault(record: Record) -> Verdict {
    if has_row_type(record.texts()) {
        Verdict::Emit(record)
    } else {
        Verdict::Fail(FilingRowReadError::EmptyRecord(line_of(record)))
    }
}

/// What the row stream decides in `state` on `pulled`.
pub open spec fn verdict(state: RowState, pulled: Pulled) -> Verdict {
    match state {
        RowState::Exhausted => Verdict::Finish,
        RowState::Ready => match pulled {
            None => Verdict::Finish,
            Some(Err(e)) => Verdict::Fail(FilingRowReadError::CsvError(e)),
            Some(Ok(record)) => if begins_text(record.texts()) {
                Verdict::Skip
            } else {
                row_or_fault(record)
            },
        },
        RowState::InTextBlock => match pulled {
            None => Verdict::Fail(FilingRowReadError::UnterminatedTextBlock),
            Some(Err(e)) => Verdict::Fail(FilingRowReadError::TextRecordError(e)),
            Some(Ok(_)) => Verdict::Skip,
        },
        RowState::TextEnded => match pulled {
            None => Verdict::Finish,
            Some(Err(e)) => Verdict::Fail(FilingRowReadError::CsvError(e)),
            Some(Ok(record)) => row_or_fault(record),
        },
    }
}

/// Where the row stream stands after it was fed `pulled` in `state`.
pub open spec fn next_state(state: RowState, pulled: Pulled) -> RowState {
    match state {
        RowState::Exhausted => RowState::Exhausted,
        RowState::Ready => match pulled {
            None => RowState::Exhausted,
            Some(Err(_)) => RowState::Ready,
            Some(Ok(record)) => if begins_text(record.texts()) {
                RowState::InTextBlock
            } else {
                RowState::Ready
            },
        },
        RowState::InTextBlock => match pulled {
            None => RowState::Exhausted,
            Some(Err(_)) => RowState::InTextBlock,
            Some(Ok(record)) => if ends_text(record.texts()) {
                RowState::TextEnded
            } else {
                RowState::InTextBlock
            },
        },
        RowState::TextEnded => match pulled {
            None => RowState::Exhausted,
            Some(_) => RowState::Ready,
        },
    }
}

/// The fields of a record, one after the other.
pub open spec fn joined(fields: Seq<Seq<char>>) -> Seq<char>
    decreases fields.len(),
{
    if fields.len() == 0 {
        Seq::empty()
    } else {
        joined(fields.drop_last()) + fields.last()
    }
}

/// The free text that the row stream holds after it was fed `pulled` in
/// `state`: emptied where a block opens, longer by one line for each record
/// inside a block, and else as it was.
pub open spec fn next_text(text: Seq<char>, state: RowState, pulled: Pulled) -> Seq<char> {
    match (state, pulled) {
        (RowState::Ready, Some(Ok(record))) => if begins_text(record.texts()) {
            Seq::empty()
        } else {
            text
        },
        (RowState::InTextBlock, Some(Ok(record))) => if ends_text(record.texts()) {
            text
        } else {
            text + joined(record.texts()) + seq!['\n']
        },
        _ => text,
    }
}

/// Where the row stream stands after it was fed `pulls`, one after the
/// other, from `state` on.
pub open spec fn state_after(state: RowState, pulls: Seq<Pulled>) -> RowState
    decreases pulls.len(),
{
    if pulls.len() == 0 {
        state
    } else {
        state_after(next_state(state, pulls[0]), pulls.drop_first())
    }
}

/// The records that the row stream hands on as rows when it is fed `pulls`,
/// one after the other, from `state` on.
pub open spec fn rows_from(state: RowState, pulls: Seq<Pulled>) -> Seq<Record>
    decreases pulls.len(),
{
    if pulls.len() == 0 {
        Seq::empty()
    } else {
        let rest = rows_from(next_state(state, pulls[0]), pulls.drop_first());
        match verdict(state, pulls[0]) {
            Verdict::Emit(record) => seq![record] + rest,
            _ => rest,
        }
    }
}

/// Feeding one thing more comes to one more step from where the row stream
/// stood.
pub proof fn lemma_state_after_push(state: RowState, pulls: Seq<Pulled>, last: Pulled)
    ensures
        state_after(state, pulls.push(last)) == next_state(state_after(state, pulls), last),
    decreases pulls.len(),
{
    let all = pulls.push(last);
    if pulls.len() == 0 {
        assert(all[0] == last);
        assert(all.drop_first().len() == 0);
        assert(state_after(state, all) == state_after(next_state(state, last), all.drop_first()));
    } else {
        assert(all[0] == pulls[0]);
        assert(all.drop_first() == pulls.drop_first().push(last));
        lemma_state_after_push(next_state(state, pulls[0]), pulls.drop_first(), last);
    }
}

/// All of `pulls` but the last are passed over, in the states that the row
/// stream goes through from `state` on.
pub open spec fn passes_over(state: RowState, pulls: Seq<Pulled>) -> bool {
    forall|i: int|
        0 <= i < pulls.len() - 1 ==> verdict(
            #[trigger] state_after(state, pulls.take(i)),
            pulls[i],
        ) is Skip
}

/// All of `pulls` are passed over, in the states that the row stream goes
/// through from `state` on.
pub open spec fn all_passed_over(state: RowState, pulls: Seq<Pulled>) -> bool {
    forall|i: int|
        0 <= i < pulls.len() ==> verdict(#[trigger] state_after(state, pulls.take(i)), pulls[i])
            is Skip
}

/// What the row stream decides on the last of `pulls`.
pub open spec fn last_verdict(state: RowState, pulls: Seq<Pulled>) -> Verdict {
    verdict(state_after(state, pulls.drop_last()), pulls.last())
}

/// `result` is what comes of reading one row from `state` on, where the
/// tokenizer hands over `pulls`: all but the last are passed over, and the
/// last gives the row, the failure or the end.
pub open spec fn reads_row(
    state: RowState,
    pulls: Seq<Pulled>,
    result: Option<Result<FilingRow, FilingRowReadError>>,
) -> bool {
    &&& pulls.len() > 0
    &&& passes_over(state, pulls)
    &&& match last_verdict(state, pulls) {
        Verdict::Emit(record) => result matches Some(Ok(row)) && is_row_of(row, record),
        Verdict::Fail(e) => result == Some::<Result<FilingRow, FilingRowReadError>>(Err(e)),
        Verdict::Finish => result is None,
        Verdict::Skip => false,
    }
}

/// `records` as the tokenizer hands them over.
pub open spec fn pulled(records: Seq<Record>) -> Seq<Pulled> {
    Seq::new(records.len(), |i: int| Some(Ok(records[i])))
}

/// The records inside a free-text block are passed over: none of them is
/// handed on, and the row stream stays inside the block.
pub proof fn lemma_inside_text_block(lines: Seq<Record>, rest: Seq<Pulled>)
    requires
        forall|i: int| 0 <= i < lines.len() ==> !ends_text(#[trigger] lines[i].texts()),
    ensures
        rows_from(RowState::InTextBlock, pulled(lines) + rest) == rows_from(
            RowState::InTextBlock,
            rest,
        ),
        state_after(RowState::InTextBlock, pulled(lines) + rest) == state_after(
            RowState::InTextBlock,
            rest,
        ),
    decreases lines.len(),
{
    if lines.len() == 0 {
        assert(pulled(lines) + rest == rest);
    } else {
        let all = pulled(lines) + rest;
        assert(all[0] == Some::<Result<Record, csv::Error>>(Ok(lines[0])));
        assert(all.drop_first() == pulled(lines.drop_first()) + rest);
        assert(!ends_text(lines[0].texts()));
        lemma_inside_text_block(lines.drop_first(), rest);
    }
}

/// A free-text block gives no row of its own. Fed the record that opens a
/// block, any records that do not close it, the record that closes it and
/// then a record with a row type, the row stream hands on that last record
/// and nothing else, and is ready for the next row.
pub proof fn lemma_text_block_gives_no_row(
    begin: Record,
    lines: Seq<Record>,
    end: Record,
    row: Record,
)
    requires
        begins_text(begin.texts()),
        forall|i: int| 0 <= i < lines.len() ==> !ends_text(#[trigger] lines[i].texts()),
        ends_text(end.texts()),
        has_row_type(row.texts()),
    ensures
        rows_from(
            RowState::Ready,
            pulled(seq![begin]) + pulled(lines) + pulled(seq![end, row]),
        ) == seq![row],
        state_after(
            RowState::Ready,
            pulled(seq![begin]) + pulled(lines) + pulled(seq![end, row]),
        ) == RowState::Ready,
{
    let tail = pulled(seq![end, row]);
    let all = pulled(seq![begin]) + pulled(lines) + tail;
    assert(all[0] == Some::<Result<Record, csv::Error>>(Ok(begin)));
    assert(all.drop_first() == pulled(lines) + tail);
    lemma_inside_text_block(lines, tail);
    assert(tail[0] == Some::<Result<Record, csv::Error>>(Ok(end)));
    let last = tail.drop_first();
    assert(last[0] == Some::<Result<Record, csv::Error>>(Ok(row)));
    assert(last.drop_first().len() == 0);
    assert(rows_from(RowState::TextEnded, last) == seq![row] + rows_from(
        RowState::Ready,
        last.drop_first(),
    ));
    assert(rows_from(RowState::TextEnded, last) == seq![row]);
    assert(rows_from(RowState::InTextBlock, tail) == rows_from(RowState::TextEnded, last));
    assert(state_after(RowState::TextEnded, last) == state_after(
        RowState::Ready,
        last.drop_first(),
    ));
    assert(state_after(RowState::InTextBlock, tail) == state_after(RowState::TextEnded, last));
}

/// The row type of a row holds no `/`.
pub proof fn lemma_row_type_has_no_slash(fields: Seq<Seq<char>>)
    ensures
        !row_type_of(fields).contains('/'),
{
    crate::text::lemma_without(fields[0], '/');
}

/// The state of the row stream, and the free text of the block that it read
/// last.
#[derive(Debug)]
pub struct RowCursor {
    pub state: RowState,
    pub text: String,
}

/// Tells whether the first field of `record` is `tag`.
fn first_field_is(record: &Record, tag: &str) -> (b: bool)
    ensures
        b == (field_at(record.texts(), 0) == Some(tag@)),
{
    match record.get(0) {
        Some(field) => str_eq(field.as_str(), tag),
        None => false,
    }
}

/// The row that `record` gives, or the fault of a record without a row type.
fn row_from(record: Record) -> (step: Step)
    ensures
        match row_or_fault(record) {
            Verdict::Emit(r) => step matches Step::Row(row) && is_row_of(row, r),
            Verdict::Fail(e) => step == Step::Failed(e),
            _ => false,
        },
{
    let line: u64 = match record.line {
        Some(line) => line,
        None => 0,
    };
    let row_type = match record.get(0) {
        Some(field) => {
            if field.as_str().is_empty() {
                return Step::Failed(FilingRowReadError::EmptyRecord(line));
            }
            remove_char(field.as_str(), '/')
        },
        None => {
            return Step::Failed(FilingRowReadError::EmptyRecord(line));
        },
    };
    let original_size: usize = record.size;
    Step::Row(FilingRow { row_type, record, original_size })
}

impl RowCursor {
    /// A row stream at its start.
    pub fn new() -> (cursor: RowCursor)
        ensures
            cursor.state == RowState::Ready,
            cursor.text@.len() == 0,
    {
        RowCursor { state: RowState::Ready, text: String::new() }
    }

    /// Adds the fields of `record` and a line break to the free text.
    fn keep_line(&mut self, record: &Record)
        ensures
            final(self).state == old(self).state,
            final(self).text@ == old(self).text@ + joined(record.texts()) + seq!['\n'],
    {
        let ghost before = self.text@;
        let n: usize = record.fields.len();
        let mut i: usize = 0;
        while i < n
            invariant
                i <= n,
                n == record.fields.len(),
                self.state == old(self).state,
                self.text@ == before + joined(record.texts().take(i as int)),
            decreases n - i,
        {
            proof {
                let next = record.texts().take(i + 1);
                assert(next.drop_last() == record.texts().take(i as int));
                assert(next.last() == record.fields[i as int]@);
            }
            self.text.append(record.fields[i].as_str());
            i = i + 1;
        }
        proof {
            assert(record.texts().take(n as int) == record.texts());
            reveal_strlit("\n");
            assert("\n"@ =~= seq!['\n']);
        }
        self.text.append("\n");
    }

    /// Feeds the row stream one thing that the tokenizer handed over.
    pub fn feed(&mut self, pulled: Pulled) -> (step: Step)
        ensures
            final(self).state == next_state(old(self).state, pulled),
            final(self).text@ == next_text(old(self).text@, old(self).state, pulled),
            match verdict(old(self).state, pulled) {
                Verdict::Emit(record) => step matches Step::Row(row) && is_row_of(row, record),
                Verdict::Skip => step is More,
                Verdict::Fail(e) => step == Step::Failed(e),
                Verdict::Finish => step is Finished,
            },
    {
        match self.state {
            RowState::Exhausted => Step::Finished,
            RowState::Ready => match pulled {
                None => {
                    self.state = RowState::Exhausted;
                    Step::Finished
                },
                Some(Err(e)) => Step::Failed(FilingRowReadError::CsvError(e)),
                Some(Ok(record)) => {
                    if first_field_is(&record, "[BEGINTEXT]") {
                        self.state = RowState::InTextBlock;
                        self.text = String::new();
                        Step::More
                    } else {
                        row_from(record)
                    }
                },
            },
            RowState::InTextBlock => match pulled {
                None => {
                    self.state = RowState::Exhausted;
                    Step::Failed(FilingRowReadError::UnterminatedTextBlock)
                },
                Some(Err(e)) => Step::Failed(FilingRowReadError::TextRecordError(e)),
                Some(Ok(record)) => {
                    if first_field_is(&record, "[ENDTEXT]") {
                        self.state = RowState::TextEnded;
                    } else {
                        self.keep_line(&record);
                    }
                    Step::More
                },
            },
            RowState::TextEnded => match pulled {
                None => {
                    self.state = RowState::Exhausted;
                    Step::Finished
                },
                Some(Err(e)) => {
                    self.state = RowState::Ready;
                    Step::Failed(FilingRowReadError::CsvError(e))
                },
                Some(Ok(record)) => {
                    self.state = RowState::Ready;
                    row_from(record)
                },
            },
        }
    }
}

} // verus!
