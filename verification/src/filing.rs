//! A filing that is being read: its header, its cover, and the rows that
//! follow them in the source.

use crate::cover::{parse_cover, CoverView, FilingCover, FilingCoverError};
use crate::header::{
    parse_header, supported_version, FilingHeader, FilingHeaderError, HeaderFault, HeaderView,
};
use crate::mappings::SchemaCatalog;
use crate::record::{field_at, Record};
use crate::rows::{
    all_passed_over, is_row_of, lemma_state_after_push, reads_row, state_after, FilingRow,
    FilingRowReadError, Pulled, RowCursor, RowState, Step,
};
use crate::text::{str_eq, trimmed};
use std::io::Read;
use vstd::prelude::*;

verus! {

/// The byte that separates the fields of a record.
pub const FIELD_DELIMITER: u8 = 0x1c;

/// `csv::ByteRecordsIntoIter`, carried as an opaque value.
#[verifier::external_type_specification]
#[verifier::external_body]
#[verifier::reject_recursive_types(R)]
pub struct ExByteRecordsIntoIter<R>(csv::ByteRecordsIntoIter<R>);

/// `csv::ReaderBuilder` with `delimiter`, `flexible`, `has_headers` and
/// `from_reader`, then `csv::Reader::into_byte_records`. Trusted: nothing but
/// that the tokenizer over `rdr` comes back.
#[verifier::external_body]
fn open_records<R: Read>(rdr: R, delimiter: u8, flexible: bool, has_headers: bool) -> (records:
    csv::ByteRecordsIntoIter<R>) {
    csv::ReaderBuilder::new().delimiter(delimiter).flexible(flexible).has_headers(
        has_headers,
    ).from_reader(rdr).into_byte_records()
}

/// `next` of `csv::ByteRecordsIntoIter`, the record turned into text with
/// `csv::StringRecord::from_byte_record_lossy`. Trusted: nothing of what was
/// read, which depends on the source.
#[verifier::external_body]
fn read_record<R: Read>(records: &mut csv::ByteRecordsIntoIter<R>) -> (pulled: Pulled) {
    match records.next() {
        None => None,
        Some(Err(e)) => Some(Err(e)),
        Some(Ok(bytes)) => {
            let size = bytes.as_slice().len();
            let line = bytes.position().map(|p| p.line());
            let byte = bytes.position().map(|p| p.byte());
            let text = csv::StringRecord::from_byte_record_lossy(bytes);
            let fields = text.iter().map(|field| field.to_owned()).collect();
            Some(Ok(Record { fields, size, line, byte }))
        },
    }
}

/// Why a filing could not be opened.
#[derive(Debug)]
pub enum FilingReaderError {
    /// The tokenizer failed on the header or on the cover.
    CsvRead(csv::Error),
    /// The source holds no record, or its first record has no field.
    MissingHeader,
    /// The first field of the first record is not `HDR` but this.
    IncorrectHeader(String),
    /// The first record is no header.
    HeaderRead(FilingHeaderError),
    /// The source ends after the header.
    MissingCover,
    /// The second record is no cover.
    CoverRead(FilingCoverError),
}

/// What a `FilingReaderError` says.
pub enum ReaderFault {
    CsvRead(csv::Error),
    MissingHeader,
    IncorrectHeader(Seq<char>),
    HeaderRead(HeaderFault),
    MissingCover,
    CoverRead(FilingCoverError),
}

impl View for FilingReaderError {
    type V = ReaderFault;

    open spec fn view(&self) -> ReaderFault {
        match self {
            FilingReaderError::CsvRead(e) => ReaderFault::CsvRead(*e),
            FilingReaderError::MissingHeader => ReaderFault::MissingHeader,
            FilingReaderError::IncorrectHeader(tag) => ReaderFault::IncorrectHeader(tag@),
            FilingReaderError::HeaderRead(e) => ReaderFault::HeaderRead(e@),
            FilingReaderError::MissingCover => ReaderFault::MissingCover,
            FilingReaderError::CoverRead(e) => ReaderFault::CoverRead(*e),
        }
    }
}

/// The header that the first thing pulled from the tokenizer gives, or why it
/// gives none: there must be a record, its first field must be `HDR`, and it
/// must hold a header.
pub open spec fn open_header(pulled: Pulled) -> Result<HeaderView, ReaderFault> {
    match pulled {
        None => Err(ReaderFault::MissingHeader),
        Some(Err(e)) => Err(ReaderFault::CsvRead(e)),
        Some(Ok(record)) => match field_at(record.texts(), 0) {
            None => Err(ReaderFault::MissingHeader),
            Some(tag) => if tag != "HDR"@ {
                Err(ReaderFault::IncorrectHeader(tag))
            } else {
                match parse_header(record.texts()) {
                    Ok(header) => Ok(header),
                    Err(e) => Err(ReaderFault::HeaderRead(e)),
                }
            },
        },
    }
}

/// The cover that the second thing pulled from the tokenizer gives in a
/// filing of version `fec_version`, or why it gives none.
pub open spec fn open_cover(
    catalog: crate::mappings::CatalogView,
    fec_version: Seq<char>,
    pulled: Pulled,
) -> Result<CoverView, ReaderFault> {
    match pulled {
        None => Err(ReaderFault::MissingCover),
        Some(Err(e)) => Err(ReaderFault::CsvRead(e)),
        Some(Ok(record)) => match parse_cover(catalog, fec_version, record.texts()) {
            Ok(cover) => Ok(cover),
            Err(e) => Err(ReaderFault::CoverRead(e)),
        },
    }
}

/// What a `Filing` holds of its header and its cover, or why it did not open.
pub open spec fn opening<R>(r: Result<Filing<R>, FilingReaderError>) -> Result<
    (HeaderView, CoverView),
    ReaderFault,
> {
    match r {
        Ok(filing) => Ok((filing.header@, filing.cover@)),
        Err(e) => Err(e@),
    }
}

/// The header and the cover that the first two things pulled from the
/// tokenizer give, or why they give none. The header is judged first, and the
/// cover by the version that the header declares.
pub open spec fn open_filing(
    catalog: crate::mappings::CatalogView,
    first: Pulled,
    second: Pulled,
) -> Result<(HeaderView, CoverView), ReaderFault> {
    match open_header(first) {
        Err(e) => Err(e),
        Ok(header) => match open_cover(catalog, header.fec_version, second) {
            Err(e) => Err(e),
            Ok(cover) => Ok((header, cover)),
        },
    }
}

/// No filing opens whose header declares a version that this parser does not
/// read. Where the first record is tagged `HDR` and holds a version field,
/// and the version is not one of those, opening fails for the version,
/// whatever the catalog holds and whatever follows the header.
pub proof fn lemma_unsupported_version_opens_nothing(
    catalog: crate::mappings::CatalogView,
    record: Record,
    second: Pulled,
)
    requires
        record.texts().len() >= 3,
        record.texts()[0] == "HDR"@,
        !supported_version(trimmed(record.texts()[2])),
    ensures
        open_header(Some(Ok(record))) == Err::<HeaderView, ReaderFault>(
            ReaderFault::HeaderRead(HeaderFault::UnsupportedVersion(trimmed(record.texts()[2]))),
        ),
        open_filing(catalog, Some(Ok(record)), second) == Err::<
            (HeaderView, CoverView),
            ReaderFault,
        >(ReaderFault::HeaderRead(HeaderFault::UnsupportedVersion(trimmed(record.texts()[2])))),
{
}

/// A filing that opens declares a version that this parser reads, and its
/// first record is tagged `HDR`.
pub proof fn lemma_open_filing_is_supported(
    catalog: crate::mappings::CatalogView,
    first: Pulled,
    second: Pulled,
)
    ensures
        open_filing(catalog, first, second) matches Ok(opened) ==> {
            &&& supported_version(opened.0.fec_version)
            &&& opened.0.record_type == "HDR"@
        },
{
}

/// Reads the header from the first thing that the tokenizer handed over.
pub fn read_header(pulled: Pulled) -> (r: Result<FilingHeader, FilingReaderError>)
    ensures
        match r {
            Ok(header) => open_header(pulled) matches Ok(v) && v == header@,
            Err(e) => open_header(pulled) matches Err(f) && f == e@,
        },
{
    let record = match pulled {
        None => {
            return Err(FilingReaderError::MissingHeader);
        },
        Some(Err(e)) => {
            return Err(FilingReaderError::CsvRead(e));
        },
        Some(Ok(record)) => record,
    };
    match record.get(0) {
        None => {
            return Err(FilingReaderError::MissingHeader);
        },
        Some(tag) => {
            if !str_eq(tag.as_str(), "HDR") {
                return Err(FilingReaderError::IncorrectHeader(tag.clone()));
            }
        },
    }
    match FilingHeader::from_record(record) {
        Ok(header) => Ok(header),
        Err(e) => Err(FilingReaderError::HeaderRead(e)),
    }
}

/// Reads the cover from the second thing that the tokenizer handed over.
pub fn read_cover(catalog: &SchemaCatalog, fec_version: &str, pulled: Pulled) -> (r: Result<
    FilingCover,
    FilingReaderError,
>)
    ensures
        match r {
            Ok(cover) => open_cover(catalog@, fec_version@, pulled) matches Ok(v) && v == cover@,
            Err(e) => open_cover(catalog@, fec_version@, pulled) matches Err(f) && f == e@,
        },
{
    let record = match pulled {
        None => {
            return Err(FilingReaderError::MissingCover);
        },
        Some(Err(e)) => {
            return Err(FilingReaderError::CsvRead(e));
        },
        Some(Ok(record)) => record,
    };
    match FilingCover::from_record(catalog, fec_version, record) {
        Ok(cover) => Ok(cover),
        Err(e) => Err(FilingReaderError::CoverRead(e)),
    }
}

/// A filing whose header and cover have been read, and whose rows are read
/// one at a time.
#[verifier::reject_recursive_types(R)]
pub struct Filing<R> {
    pub filing_id: String,
    pub header: FilingHeader,
    pub cover: FilingCover,
    /// The tokenizer over the source, which stands behind the cover.
    pub records_iter: csv::ByteRecordsIntoIter<R>,
    /// The length of the source in bytes, where it is known.
    pub source_length: Option<usize>,
    /// Where the row stream stands.
    pub cursor: RowCursor,
}

impl<R: Read> Filing<R> {
    /// Opens the filing that `rdr` holds: reads its header and its cover, and
    /// leaves the source at the first row.
    ///
    /// What is read depends on the source. Whatever it holds, the outcome is
    /// what the first two things that the tokenizer handed over give, and the
    /// row stream of a filing that opens is ready.
    pub fn from_reader(
        catalog: &SchemaCatalog,
        rdr: R,
        filing_id: String,
        source_length: Option<usize>,
    ) -> (r: Result<Filing<R>, FilingReaderError>)
        ensures
            exists|first: Pulled, second: Pulled| #[trigger]
                open_filing(catalog@, first, second) == opening(r),
            r matches Ok(filing) ==> {
                &&& filing.filing_id == filing_id
                &&& filing.source_length == source_length
                &&& filing.cursor.state == RowState::Ready
                &&& filing.header@.fields.len() > 0
                &&& filing.header@.fields[0] == "HDR"@
                &&& parse_header(filing.header@.fields) == Ok::<HeaderView, HeaderFault>(
                    filing.header@,
                )
                &&& parse_cover(catalog@, filing.header@.fec_version, filing.cover@.fields) == Ok::<
                    CoverView,
                    FilingCoverError,
                >(filing.cover@)
            },
    {
        let mut records_iter = open_records(rdr, FIELD_DELIMITER, true, false);
        let first = read_record(&mut records_iter);
        let header = match read_header(first) {
            Ok(header) => header,
            Err(e) => {
                let r: Result<Filing<R>, FilingReaderError> = Err(e);
                proof {
                    assert(open_filing(catalog@, first, None) == opening(r));
                }
                return r;
            },
        };
        let second = read_record(&mut records_iter);
        let cover = match read_cover(catalog, header.fec_version.as_str(), second) {
            Ok(cover) => cover,
            Err(e) => {
                let r: Result<Filing<R>, FilingReaderError> = Err(e);
                proof {
                    assert(open_filing(catalog@, first, second) == opening(r));
                }
                return r;
            },
        };
        let r: Result<Filing<R>, FilingReaderError> = Ok(
            Filing { filing_id, header, cover, records_iter, source_length, cursor: RowCursor::new() },
        );
        proof {
            assert(open_filing(catalog@, first, second) == opening(r));
        }
        r
    }

    /// Reads the next row, passing over any free-text block before it.
    ///
    /// What is read depends on the source. Whatever it holds: a filing whose
    /// source has ended reads nothing more. Otherwise the outcome is what the
    /// row stream makes of the things that the tokenizer handed over, of
    /// which all but the last were passed over; or, where `u64::MAX` things
    /// were passed over without a row, the free-text block that they belong
    /// to is given up as unterminated and the filing as ended.
    pub fn next_row(&mut self) -> (r: Option<Result<FilingRow, FilingRowReadError>>)
        ensures
            final(self).filing_id == old(self).filing_id,
            final(self).header == old(self).header,
            final(self).cover == old(self).cover,
            final(self).source_length == old(self).source_length,
            old(self).cursor.state == RowState::Exhausted ==> r is None && *final(self) == *old(
                self,
            ),
            old(self).cursor.state != RowState::Exhausted ==> {
                ||| exists|pulls: Seq<Pulled>| #[trigger]
                    reads_row(old(self).cursor.state, pulls, r) && final(self).cursor.state
                        == state_after(old(self).cursor.state, pulls)
                ||| {
                    &&& exists|pulls: Seq<Pulled>|
                        pulls.len() == u64::MAX && #[trigger] all_passed_over(
                            old(self).cursor.state,
                            pulls,
                        )
                    &&& r == Some::<Result<FilingRow, FilingRowReadError>>(
                        Err(FilingRowReadError::UnterminatedTextBlock),
                    )
                    &&& final(self).cursor.state == RowState::Exhausted
                }
            },
            match r {
                None => final(self).cursor.state == RowState::Exhausted,
                Some(Ok(row)) => {
                    &&& final(self).cursor.state == RowState::Ready
                    &&& crate::rows::has_row_type(row.record.texts())
                    &&& is_row_of(row, row.record)
                },
                Some(Err(FilingRowReadError::UnterminatedTextBlock)) => final(self).cursor.state
                    == RowState::Exhausted,
                Some(Err(FilingRowReadError::TextRecordError(_))) => final(self).cursor.state
                    == RowState::InTextBlock,
                Some(Err(_)) => final(self).cursor.state == RowState::Ready,
            },
    {
        if self.cursor.state == RowState::Exhausted {
            return None;
        }
        let ghost start = self.cursor.state;
        let ghost mut pulls: Seq<Pulled> = Seq::empty();
        let mut budget: u64 = u64::MAX;
        while budget > 0
            invariant
                self.filing_id == old(self).filing_id,
                self.header == old(self).header,
                self.cover == old(self).cover,
                self.source_length == old(self).source_length,
                start == old(self).cursor.state,
                start != RowState::Exhausted,
                self.cursor.state == state_after(start, pulls),
                self.cursor.state != RowState::Exhausted,
                pulls.len() > 0 ==> self.cursor.state == RowState::InTextBlock || self.cursor.state
                    == RowState::TextEnded,
                pulls.len() == u64::MAX - budget,
                all_passed_over(start, pulls),
            decreases budget,
        {
            let pulled = read_record(&mut self.records_iter);
            let ghost before = pulls;
            proof {
                pulls = before.push(pulled);
                lemma_state_after_push(start, before, pulled);
                assert(pulls.drop_last() == before);
                assert(pulls.last() == pulled);
                assert forall|i: int| 0 <= i < before.len() implies pulls.take(i) == before.take(
                    i,
                ) && pulls[i] == before[i] by {}
                assert(pulls.take(before.len() as int) == before);
            }
            let step = self.cursor.feed(pulled);
            match step {
                Step::Row(row) => {
                    let r = Some(Ok(row));
                    proof {
                        assert(reads_row(start, pulls, r));
                    }
                    return r;
                },
                Step::Failed(e) => {
                    let r = Some(Err(e));
                    proof {
                        assert(reads_row(start, pulls, r));
                    }
                    return r;
                },
                Step::Finished => {
                    proof {
                        assert(reads_row(start, pulls, None));
                    }
                    return None;
                },
                Step::More => {},
            }
            budget = budget - 1;
        }
        proof {
            assert(pulls.len() == u64::MAX && all_passed_over(start, pulls));
        }
        self.cursor.state = RowState::Exhausted;
        Some(Err(FilingRowReadError::UnterminatedTextBlock))
    }
}

} // verus!
