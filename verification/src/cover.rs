//! The cover of a filing: its second record, read by the column names that
//! the catalog gives for its form type.

use crate::header::text_of;
use crate::mappings::{resolve, CatalogView, ResolutionError, SchemaCatalog};
use crate::record::{field_at, position, position_from, Record};
use crate::text::str_eq;
use vstd::prelude::*;

verus! {

/// Why a record is no cover.
#[derive(Debug, Clone, Copy, PartialEq, Eq, Structural)]
pub enum FilingCoverError {
    /// The record has no field, and so no form type.
    EmptyRecord,
    /// The catalog has no columns for the form type and the version.
    Schema(ResolutionError),
    /// The columns of the form type name no filer id, or no filer name.
    MissingColumn,
    /// The record is too short to hold the filer id or the filer name.
    MissingValue,
}

/// The cover of a filing.
#[derive(Debug)]
pub struct FilingCover {
    /// The record that the cover was read from.
    pub cover_record: Record,
    pub form_type: String,
    pub filer_id: String,
    pub filer_name: String,
    pub report_code: Option<String>,
    pub coverage_from_date: Option<String>,
    pub coverage_through_date: Option<String>,
}

/// What a `FilingCover` holds.
pub struct CoverView {
    pub fields: Seq<Seq<char>>,
    pub form_type: Seq<char>,
    pub filer_id: Seq<char>,
    pub filer_name: Seq<char>,
    pub report_code: Option<Seq<char>>,
    pub coverage_from_date: Option<Seq<char>>,
    pub coverage_through_date: Option<Seq<char>>,
}

impl View for FilingCover {
    type V = CoverView;

    open spec fn view(&self) -> CoverView {
        CoverView {
            fields: self.cover_record.texts(),
            form_type: self.form_type@,
            filer_id: self.filer_id@,
            filer_name: self.filer_name@,
            report_code: text_of(self.report_code),
            coverage_from_date: text_of(self.coverage_from_date),
            coverage_through_date: text_of(self.coverage_through_date),
        }
    }
}

/// The index of the first column that is called `a` or `b`.
pub open spec fn column_index(columns: Seq<Seq<char>>, a: Seq<char>, b: Seq<char>) -> Option<int> {
    position(columns, |name: Seq<char>| name == a || name == b)
}

/// The column that holds the filer's id.
pub open spec fn filer_id_column(columns: Seq<Seq<char>>) -> Option<int> {
    column_index(columns, "filer_committee_id_number"@, "candidate_id_number"@)
}

/// The column that holds the filer's name.
pub open spec fn filer_name_column(columns: Seq<Seq<char>>) -> Option<int> {
    column_index(columns, "committee_name"@, "organization_name"@)
}

/// The field that stands under the first column called `name`, where the
/// columns have one and the record is long enough.
pub open spec fn named_field(columns: Seq<Seq<char>>, fields: Seq<Seq<char>>, name: Seq<char>) -> Option<
    Seq<char>,
> {
    match column_index(columns, name, name) {
        Some(i) => field_at(fields, i),
        None => None,
    }
}

/// The cover that a record with these fields gives in a filing of version
/// `fec_version`, or why it gives none.
pub open spec fn parse_cover(catalog: CatalogView, fec_version: Seq<char>, fields: Seq<Seq<char>>) -> Result<
    CoverView,
    FilingCoverError,
> {
    if fields.len() == 0 {
        Err(FilingCoverError::EmptyRecord)
    } else {
        match resolve(catalog, fields[0], fec_version) {
            Err(e) => Err(FilingCoverError::Schema(e)),
            Ok(columns) => match (filer_id_column(columns), filer_name_column(columns)) {
                (Some(id), Some(name)) => match (field_at(fields, id), field_at(fields, name)) {
                    (Some(filer_id), Some(filer_name)) => Ok(
                        CoverView {
                            fields,
                            form_type: fields[0],
                            filer_id,
                            filer_name,
                            report_code: named_field(columns, fields, "report_code"@),
                            coverage_from_date: named_field(
                                columns,
                                fields,
                                "coverage_from_date"@,
                            ),
                            coverage_through_date: named_field(
                                columns,
                                fields,
                                "coverage_through_date"@,
                            ),
                        },
                    ),
                    _ => Err(FilingCoverError::MissingValue),
                },
                _ => Err(FilingCoverError::MissingColumn),
            },
        }
    }
}

/// The index of the first of `columns` that is called `a` or `b`.
pub fn find_column(columns: &Vec<String>, a: &str, b: &str) -> (r: Option<usize>)
    ensures
        match r {
            Some(i) => column_index(columns.deep_view(), a@, b@) == Some(i as int) && i
                < columns.len(),
            None => column_index(columns.deep_view(), a@, b@) is None,
        },
{
    let ghost names = columns.deep_view();
    let ghost wanted = |name: Seq<char>| name == a@ || name == b@;
    let n: usize = columns.len();
    let mut i: usize = 0;
    while i < n
        invariant
            i <= n,
            n == columns.len(),
            names == columns.deep_view(),
            wanted == (|name: Seq<char>| name == a@ || name == b@),
            position_from(names, wanted, 0) == position_from(names, wanted, i as int),
        decreases n - i,
    {
        let name = columns[i].as_str();
        assert(names[i as int] == name@);
        if str_eq(name, a) || str_eq(name, b) {
            return Some(i);
        }
        i = i + 1;
    }
    None
}

/// The field of `record` under the first of `columns` that is called `name`.
fn field_named(columns: &Vec<String>, record: &Record, name: &str) -> (r: Option<String>)
    ensures
        text_of(r) == named_field(columns.deep_view(), record.texts(), name@),
{
    match find_column(columns, name, name) {
        Some(i) => match record.get(i) {
            Some(value) => Some(value.clone()),
            None => None,
        },
        None => None,
    }
}

impl FilingCover {
    /// Reads the cover from the second record of a filing that declares the
    /// version `fec_version`.
    pub fn from_record(catalog: &SchemaCatalog, fec_version: &str, cover_record: Record) -> (r:
        Result<FilingCover, FilingCoverError>)
        ensures
            match r {
                Ok(cover) => parse_cover(catalog@, fec_version@, cover_record.texts()) matches Ok(v)
                    && v == cover@ && cover.cover_record == cover_record,
                Err(e) => parse_cover(catalog@, fec_version@, cover_record.texts()) == Err::<
                    CoverView,
                    FilingCoverError,
                >(e),
            },
    {
        let form_type = match cover_record.get(0) {
            Some(value) => value.clone(),
            None => {
                return Err(FilingCoverError::EmptyRecord);
            },
        };
        let columns = match catalog.resolve(form_type.as_str(), fec_version) {
            Ok(columns) => columns,
            Err(e) => {
                return Err(FilingCoverError::Schema(e));
            },
        };
        let id_idx: usize = match find_column(
            columns,
            "filer_committee_id_number",
            "candidate_id_number",
        ) {
            Some(i) => i,
            None => {
                return Err(FilingCoverError::MissingColumn);
            },
        };
        let name_idx: usize = match find_column(columns, "committee_name", "organization_name") {
            Some(i) => i,
            None => {
                return Err(FilingCoverError::MissingColumn);
            },
        };
        let filer_id = match cover_record.get(id_idx) {
            Some(value) => value.clone(),
            None => {
                return Err(FilingCoverError::MissingValue);
            },
        };
        let filer_name = match cover_record.get(name_idx) {
            Some(value) => value.clone(),
            None => {
                return Err(FilingCoverError::MissingValue);
            },
        };
        let report_code = field_named(columns, &cover_record, "report_code");
        let coverage_from_date = field_named(columns, &cover_record, "coverage_from_date");
        let coverage_through_date = field_named(columns, &cover_record, "coverage_through_date");
        Ok(
            FilingCover {
                cover_record,
                form_type,
                filer_id,
                filer_name,
                report_code,
                coverage_from_date,
                coverage_through_date,
            },
        )
    }
}

} // verus!
