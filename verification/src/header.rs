//! The header of a filing: its first record.

use crate::record::{field_at, Record};
use crate::text::{str_eq, trim, trimmed};
use vstd::prelude::*;

verus! {

/// Why a record is no header.
#[derive(Debug)]
pub enum FilingHeaderError {
    /// The record is too short to hold the field `name`, which stands at
    /// index `idx`.
    MissingField { name: String, idx: usize },
    /// The version that the filing declares, trimmed, is none that this
    /// parser reads.
    UnsupportedVersion(String),
}

/// What a `FilingHeaderError` says.
pub enum HeaderFault {
    MissingField { name: Seq<char>, idx: int },
    UnsupportedVersion(Seq<char>),
}

impl View for FilingHeaderError {
    type V = HeaderFault;

    open spec fn view(&self) -> HeaderFault {
        match self {
            FilingHeaderError::MissingField { name, idx } => HeaderFault::MissingField {
                name: name@,
                idx: *idx as int,
            },
            FilingHeaderError::UnsupportedVersion(version) => HeaderFault::UnsupportedVersion(
                version@,
            ),
        }
    }
}

/// The header of a filing.
#[derive(Debug)]
pub struct FilingHeader {
    /// The record that the header was read from.
    pub header_record: Record,
    pub record_type: String,
    pub ef_type: String,
    /// The format version that the filing declares, trimmed.
    pub fec_version: String,
    pub soft_name: String,
    pub soft_ver: String,
    pub report_id: Option<String>,
    pub report_number: Option<String>,
    pub comment: Option<String>,
}

/// What a `FilingHeader` holds.
pub struct HeaderView {
    pub fields: Seq<Seq<char>>,
    pub record_type: Seq<char>,
    pub ef_type: Seq<char>,
    pub fec_version: Seq<char>,
    pub soft_name: Seq<char>,
    pub soft_ver: Seq<char>,
    pub report_id: Option<Seq<char>>,
    pub report_number: Option<Seq<char>>,
    pub comment: Option<Seq<char>>,
}

/// The text of an optional string.
pub open spec fn text_of(value: Option<String>) -> Option<Seq<char>> {
    match value {
        Some(s) => Some(s@),
        None => None,
    }
}

impl View for FilingHeader {
    type V = HeaderView;

    open spec fn view(&self) -> HeaderView {
        HeaderView {
            fields: self.header_record.texts(),
            record_type: self.record_type@,
            ef_type: self.ef_type@,
            fec_version: self.fec_version@,
            soft_name: self.soft_name@,
            soft_ver: self.soft_ver@,
            report_id: text_of(self.report_id),
            report_number: text_of(self.report_number),
            comment: text_of(self.comment),
        }
    }
}

/// The format versions that this parser reads.
pub open spec fn supported_version(version: Seq<char>) -> bool {
    version == "8.3"@ || version == "8.4"@
}

/// The optional field at index `i`: its trimmed text, unless the record is
/// too short or nothing is left of the field after trimming.
pub open spec fn optional_field(fields: Seq<Seq<char>>, i: int) -> Option<Seq<char>> {
    match field_at(fields, i) {
        Some(value) => if trimmed(value).len() > 0 {
            Some(trimmed(value))
        } else {
            None
        },
        None => None,
    }
}

/// The header that a record with these fields gives, or why it gives none.
/// The fields are looked at in their order, and the version is judged as soon
/// as it has been found.
pub open spec fn parse_header(fields: Seq<Seq<char>>) -> Result<HeaderView, HeaderFault> {
    if fields.len() < 1 {
        Err(HeaderFault::MissingField { name: "record_type"@, idx: 0 })
    } else if fields.len() < 2 {
        Err(HeaderFault::MissingField { name: "ef_type"@, idx: 1 })
    } else if fields.len() < 3 {
        Err(HeaderFault::MissingField { name: "fec_version"@, idx: 2 })
    } else if !supported_version(trimmed(fields[2])) {
        Err(HeaderFault::UnsupportedVersion(trimmed(fields[2])))
    } else if fields.len() < 4 {
        Err(HeaderFault::MissingField { name: "soft_name"@, idx: 3 })
    } else if fields.len() < 5 {
        Err(HeaderFault::MissingField { name: "soft_ver"@, idx: 4 })
    } else {
        Ok(
            HeaderView {
                fields,
                record_type: fields[0],
                ef_type: fields[1],
                fec_version: trimmed(fields[2]),
                soft_name: fields[3],
                soft_ver: fields[4],
                report_id: optional_field(fields, 5),
                report_number: optional_field(fields, 6),
                comment: optional_field(fields, 7),
            },
        )
    }
}

/// A record that holds a version field with a version that this parser does
/// not read gives no header: it is refused for its version.
pub proof fn lemma_unsupported_version_refused(fields: Seq<Seq<char>>)
    requires
        fields.len() >= 3,
        !supported_version(trimmed(fields[2])),
    ensures
        parse_header(fields) == Err::<HeaderView, HeaderFault>(
            HeaderFault::UnsupportedVersion(trimmed(fields[2])),
        ),
{
}

/// A header that was read declares a version that this parser reads.
pub proof fn lemma_header_version_supported(fields: Seq<Seq<char>>)
    ensures
        parse_header(fields) matches Ok(header) ==> supported_version(header.fec_version),
{
}

/// Tells whether `version` is one that this parser reads.
pub fn is_supported_version(version: &str) -> (b: bool)
    ensures
        b == supported_version(version@),
{
    str_eq(version, "8.3") || str_eq(version, "8.4")
}

/// The required field at index `idx`, which goes by the name `name`.
fn required_field(hdr: &Record, idx: usize, name: &str) -> (r: Result<String, FilingHeaderError>)
    ensures
        match r {
            Ok(value) => field_at(hdr.texts(), idx as int) == Some(value@),
            Err(e) => field_at(hdr.texts(), idx as int) is None && e@ == (HeaderFault::MissingField {
                name: name@,
                idx: idx as int,
            }),
        },
{
    match hdr.get(idx) {
        Some(value) => Ok(value.clone()),
        None => Err(FilingHeaderError::MissingField { name: name.to_owned(), idx }),
    }
}

/// The optional field at index `idx`.
fn optional(hdr: &Record, idx: usize) -> (r: Option<String>)
    ensures
        text_of(r) == optional_field(hdr.texts(), idx as int),
{
    match hdr.get(idx) {
        Some(value) => {
            let short = trim(value.as_str());
            if short.is_empty() {
                None
            } else {
                Some(short.to_owned())
            }
        },
        None => None,
    }
}

impl FilingHeader {
    /// Reads the header from the first record of a filing.
    pub fn from_record(hdr: Record) -> (r: Result<FilingHeader, FilingHeaderError>)
        ensures
            match r {
                Ok(header) => parse_header(hdr.texts()) matches Ok(v) && v == header@
                    && header.header_record == hdr,
                Err(e) => parse_header(hdr.texts()) matches Err(f) && f == e@,
            },
    {
        let record_type = match required_field(&hdr, 0, "record_type") {
            Ok(value) => value,
            Err(e) => {
                return Err(e);
            },
        };
        let ef_type = match required_field(&hdr, 1, "ef_type") {
            Ok(value) => value,
            Err(e) => {
                return Err(e);
            },
        };
        let declared = match required_field(&hdr, 2, "fec_version") {
            Ok(value) => value,
            Err(e) => {
                return Err(e);
            },
        };
        let fec_version = trim(declared.as_str()).to_owned();
        if !is_supported_version(fec_version.as_str()) {
            return Err(FilingHeaderError::UnsupportedVersion(fec_version));
        }
        let soft_name = match required_field(&hdr, 3, "soft_name") {
            Ok(value) => value,
            Err(e) => {
                return Err(e);
            },
        };
        let soft_ver = match required_field(&hdr, 4, "soft_ver") {
            Ok(value) => value,
            Err(e) => {
                return Err(e);
            },
        };
        let report_id = optional(&hdr, 5);
        let report_number = optional(&hdr, 6);
        let comment = optional(&hdr, 7);
        Ok(
            FilingHeader {
                header_record: hdr,
                record_type,
                ef_type,
                fec_version,
                soft_name,
                soft_ver,
                report_id,
                report_number,
                comment,
            },
        )
    }
}

} // verus!
