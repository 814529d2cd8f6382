use std::io::{self, Read};

use fec_parser::cover::{find_column, FilingCover, FilingCoverError};
use fec_parser::dates::{is_fec_date, try_format_fec_date};
use fec_parser::export::{
    coerce_field, column_format, column_formats, reconcile, CmdExportTarget, FieldFormat,
    FieldValue,
};
use fec_parser::feed::{feed_items, FeedError, FeedEvent};
use fec_parser::filing::{read_cover, read_header, Filing, FilingReaderError};
use fec_parser::header::{is_supported_version, FilingHeader, FilingHeaderError};
use fec_parser::labels::report_code_label;
use fec_parser::mappings::{
    column_names_for_field, field_idx, CatalogError, ResolutionError, SchemaCatalog,
};
use fec_parser::number::is_float;
use fec_parser::record::Record;
use fec_parser::rows::{FilingRow, FilingRowReadError, RowCursor, RowState, Step};
use fec_parser::sourcer::{filing_id_of, filing_ids, posted_url, FilingSourcer};
use fec_parser::stats::{tally, FilingFormMetadata};
use fec_parser::text::{chars_of, remove_char, starts_with};

const SA_V3: &str = "form_type,filer_committee_id_number,entity_type,contributor_name,contributor_street_1,contributor_street_2,contributor_city,contributor_state,contributor_zip_code,election_code,election_other_description,contributor_employer,contributor_occupation,contribution_aggregate,contribution_date,contribution_amount,contribution_purpose_code,contribution_purpose_descrip,donor_committee_fec_id,donor_candidate_fec_id,donor_candidate_name,donor_candidate_office,donor_candidate_state,donor_candidate_district,conduit_name,conduit_street1,conduit_street2,conduit_city,conduit_state,conduit_zip_code,memo_code,memo_text_description,amended_cd,transaction_id,back_reference_tran_id_number,back_reference_sched_name,reference_code";

const SA_V8: &str = "form_type,filer_committee_id_number,transaction_id,back_reference_tran_id_number,back_reference_sched_name,entity_type,contributor_organization_name,contributor_last_name,contributor_first_name,contributor_middle_name,contributor_prefix,contributor_suffix,contributor_street_1,contributor_street_2,contributor_city,contributor_state,contributor_zip_code,election_code,election_other_description,contribution_date,contribution_amount,contribution_aggregate,contribution_purpose_descrip,contributor_employer,contributor_occupation,donor_committee_fec_id,donor_committee_name,donor_candidate_fec_id,donor_candidate_last_name,donor_candidate_first_name,donor_candidate_middle_name,donor_candidate_prefix,donor_candidate_suffix,donor_candidate_office,donor_candidate_state,donor_candidate_district,conduit_name,conduit_street1,conduit_street2,conduit_city,conduit_state,conduit_zip_code,memo_code,memo_text_description,reference_code";

const F3_V8: &str = "form_type,filer_committee_id_number,committee_name,change_of_address,street_1,street_2,city,state,zip_code,election_state,election_district,report_code,election_code,election_date,state_of_election,coverage_from_date,coverage_through_date,treasurer_last_name,treasurer_first_name,date_signed";

const F2_V8: &str = "form_type,candidate_id_number,candidate_last_name,candidate_first_name,organization_name,report_code";

const SHORT: &str = "form_type,filer_committee_id_number,transaction_id";

fn split(columns: &str) -> Vec<String> {
    columns.split(',').map(|c| c.to_owned()).collect()
}

fn words(items: &[&str]) -> Vec<String> {
    items.iter().map(|c| c.to_string()).collect()
}

/// The families of the test catalog: a pattern, and for each version pattern
/// its columns.
fn families() -> Vec<(&'static str, Vec<(&'static str, &'static str)>)> {
    let modern: Vec<(&'static str, &'static str)> = vec![("^8", SHORT), ("^[567]", SHORT)];
    let mut all: Vec<(&'static str, Vec<(&'static str, &'static str)>)> = Vec::new();
    for pattern in [
        "^f1$", "^f1[an]", "^f10", "^f105", "^f11", "^f12", "^f13[an]", "^f132", "^f133", "^f1m",
        "^f1s", "^f24", "^f3l", "^f3p$", "^f3p[an]", "^f3p31", "^f3ps", "^f3s", "^f3x", "^f3z",
        "^f4", "^f5", "^f56", "^f57", "^f6", "^f65", "^f7", "^f76", "^f8", "^f82", "^f83", "^f9",
        "^f91", "^f92", "^f93", "^f94", "^f99", "^h1", "^h2", "^h3", "^h4",
    ] {
        all.push((pattern, modern.clone()));
    }
    all.push(("^f2", vec![("^8.4|8.3", F2_V8)]));
    all.push(("^f3[ant]?$", vec![("^8.4|8.3|8.2|8.1|8.0", F3_V8), ("^[567]", SHORT)]));
    all.push(("^hdr$", vec![("^[678]", "record_type,ef_type,fec_version,soft_name,soft_ver,report_id,report_number,comment")]));
    all.push((
        "^sa",
        vec![
            ("^8.4", SA_V8),
            ("^8.3", SA_V8),
            ("^8.2", SA_V8),
            ("^8.1", SA_V8),
            ("^8.0", SA_V8),
            ("^7.0", SA_V8),
            ("^6.4", SA_V8),
            ("^6.3", SA_V8),
            ("^6.2", SA_V8),
            ("^6.1", SA_V8),
            ("^5.3|5.2|5.1|5.0", SA_V3),
            ("^3", SA_V3),
            ("3$", SHORT),
            ("^[12]", SHORT),
        ],
    ));
    all.push(("^s[ab]", vec![("^8", SHORT)]));
    all.push(("^sb", modern.clone()));
    all.push(("^sc[^12]", modern.clone()));
    all.push(("^sc1", modern.clone()));
    all.push(("^text", vec![("^8", "rec_type,filer_committee_id_number,transaction_id_number,back_reference_tran_id_number,back_reference_sched_form_name,text")]));
    all
}

fn build(
    families: Vec<(&'static str, Vec<(&'static str, &'static str)>)>,
) -> Result<SchemaCatalog, CatalogError> {
    let mut form_types = Vec::new();
    let mut version_patterns = Vec::new();
    let mut column_names = Vec::new();
    for (pattern, versions) in families {
        form_types.push(pattern.to_owned());
        version_patterns.push(versions.iter().map(|v| v.0.to_owned()).collect());
        column_names.push(versions.iter().map(|v| split(v.1)).collect());
    }
    SchemaCatalog::new(
        form_types,
        version_patterns,
        column_names,
        words(&["contribution_date", "coverage_from_date", "coverage_through_date", "date_signed"]),
        words(&["contribution_amount", "contribution_aggregate", "date_signed"]),
    )
}

fn catalog() -> SchemaCatalog {
    build(families()).unwrap()
}

fn record(fields: &[&str]) -> Record {
    Record {
        fields: words(fields),
        size: fields.iter().map(|f| f.len()).sum(),
        line: Some(7),
        byte: Some(120),
    }
}

fn row(fields: &[&str]) -> FilingRow {
    let record = record(fields);
    let original_size = record.size;
    FilingRow { row_type: fields[0].replace('/', ""), record, original_size }
}

/// A filing as bytes: one line for each record, the fields of a record
/// separated by the field delimiter.
fn source(records: &[&[&str]]) -> Vec<u8> {
    let mut bytes = Vec::new();
    for fields in records {
        bytes.extend_from_slice(fields.join("\x1c").as_bytes());
        bytes.push(b'\n');
    }
    bytes
}

const HEADER: &[&str] = &["HDR", "FEC", "8.4", "FECFile", "8", "", "", "", ""];
const COVER: &[&str] = &[
    "F3", "C00101766", "CONTINENTAL AIRLINES INC EMPLOYEE FUND", "", "1600 Smith Street", "",
    "Houston", "TX", "77002", "", "", "Q2", "", "", "", "20000401", "20000630",
];

fn open(bytes: Vec<u8>) -> Result<Filing<io::Cursor<Vec<u8>>>, FilingReaderError> {
    Filing::from_reader(&catalog(), io::Cursor::new(bytes), "13360".to_owned(), None)
}

fn rows_of(records: &[&[&str]]) -> Vec<Result<FilingRow, FilingRowReadError>> {
    let mut all: Vec<&[&str]> = vec![HEADER, COVER];
    all.extend_from_slice(records);
    let mut filing = open(source(&all)).unwrap();
    let mut rows = Vec::new();
    while let Some(row) = filing.next_row() {
        rows.push(row);
    }
    assert_eq!(filing.cursor.state, RowState::Exhausted);
    assert!(filing.next_row().is_none());
    rows
}

/// A source that yields some bytes and then fails.
struct Broken {
    good: io::Cursor<Vec<u8>>,
}

impl Read for Broken {
    fn read(&mut self, buf: &mut [u8]) -> io::Result<usize> {
        match self.good.read(buf) {
            Ok(0) => Err(io::Error::new(io::ErrorKind::Other, "the source broke")),
            other => other,
        }
    }
}

fn broken(records: &[&[&str]]) -> Broken {
    Broken { good: io::Cursor::new(source(records)) }
}

fn text(value: &FieldValue) -> &str {
    match value {
        FieldValue::Text(s) => s,
        other => panic!("expected text, found {:?}", other),
    }
}

#[test]
fn it_works() {
    let catalog = catalog();
    assert_eq!(catalog.form_types().len(), catalog.version_patterns().len());
    assert_eq!(catalog.version_patterns().len(), catalog.column_names().len());

    let fec_13360_19 = "SA11A1";
    assert_eq!(field_idx(&catalog, fec_13360_19), Some(44));
    assert_eq!(catalog.form_types()[44], "^sa");
    assert_eq!(catalog.version_idx(44, "3"), Some(11));

    assert_eq!(
        catalog.column_names().get(44).unwrap().get(11).unwrap().join(","),
        "form_type,filer_committee_id_number,entity_type,contributor_name,contributor_street_1,contributor_street_2,contributor_city,contributor_state,contributor_zip_code,election_code,election_other_description,contributor_employer,contributor_occupation,contribution_aggregate,contribution_date,contribution_amount,contribution_purpose_code,contribution_purpose_descrip,donor_committee_fec_id,donor_candidate_fec_id,donor_candidate_name,donor_candidate_office,donor_candidate_state,donor_candidate_district,conduit_name,conduit_street1,conduit_street2,conduit_city,conduit_state,conduit_zip_code,memo_code,memo_text_description,amended_cd,transaction_id,back_reference_tran_id_number,back_reference_sched_name,reference_code"
    );
}

#[test]
fn first_matching_family_wins() {
    let catalog = catalog();
    // "^sa" and "^s[ab]" both match; the earlier one is taken.
    assert_eq!(field_idx(&catalog, "SA17"), Some(44));
    assert_eq!(field_idx(&catalog, "SB21"), Some(45));
    assert_eq!(catalog.family_idx("SB21"), Some(45));
    assert_eq!(field_idx(&catalog, "F3N"), Some(42));
    assert_eq!(field_idx(&catalog, "F3X"), Some(18));
}

#[test]
fn first_matching_version_wins() {
    let catalog = catalog();
    // "^3" and "3$" both match "3".
    assert_eq!(catalog.version_idx(44, "3"), Some(11));
    assert_eq!(catalog.version_idx(44, "P3"), Some(12));
    assert_eq!(catalog.version_idx(44, "8.3"), Some(1));
    assert_eq!(catalog.version_idx(44, "5.1"), Some(10));
    assert_eq!(catalog.version_idx(44, "9.9"), None);
    assert_eq!(catalog.version_idx(1000, "8.4"), None);
}

#[test]
fn patterns_match_without_regard_to_case() {
    let catalog = catalog();
    assert_eq!(field_idx(&catalog, "sa11a1"), Some(44));
    assert_eq!(field_idx(&catalog, "Sa11"), Some(44));
    assert_eq!(field_idx(&catalog, "hdr"), Some(43));
    assert_eq!(field_idx(&catalog, "HDR"), Some(43));
}

#[test]
fn unknown_form_type_is_reported() {
    let catalog = catalog();
    assert_eq!(field_idx(&catalog, "ZZ"), None);
    assert_eq!(field_idx(&catalog, ""), None);
    assert_eq!(
        column_names_for_field(&catalog, "ZZ", "8.4"),
        Err(ResolutionError::UnknownFormType)
    );
    assert_eq!(catalog.resolve("XSA", "8.4"), Err(ResolutionError::UnknownFormType));
}

#[test]
fn unknown_version_is_reported() {
    let catalog = catalog();
    assert_eq!(
        column_names_for_field(&catalog, "SA11A1", "9.9"),
        Err(ResolutionError::UnknownVersion)
    );
    assert_eq!(catalog.resolve("F2", "7.0"), Err(ResolutionError::UnknownVersion));
}

#[test]
fn resolve_gives_the_columns_of_the_pair() {
    let catalog = catalog();
    assert_eq!(column_names_for_field(&catalog, "SA11A1", "8.4"), Ok(&split(SA_V8)));
    assert_eq!(column_names_for_field(&catalog, "SA11A1", "3"), Ok(&split(SA_V3)));
    assert_eq!(column_names_for_field(&catalog, "F3", "8.3"), Ok(&split(F3_V8)));
    assert_eq!(catalog.resolve("F3A", "6.4"), Ok(&split(SHORT)));
}

#[test]
fn every_pair_of_the_catalog_resolves_to_columns() {
    let catalog = catalog();
    let samples = [
        ("F1", "8.4"), ("F1A", "8.4"), ("F2", "8.3"), ("F3", "8.4"), ("F3N", "5.3"),
        ("F3X", "7.0"), ("F99", "8.4"), ("H4", "6.1"), ("HDR", "8.4"), ("SA11A1", "8.4"),
        ("SA11A1", "5.0"), ("SA11A1", "3"), ("SA15", "2.02"), ("SB23", "8.4"), ("SC/10", "8.4"),
        ("SC1", "6.4"), ("TEXT", "8.4"),
    ];
    for (form_type, fec_version) in samples {
        let once = catalog.resolve(form_type, fec_version).unwrap().clone();
        let again = catalog.resolve(form_type, fec_version).unwrap().clone();
        assert!(!once.is_empty(), "{form_type} {fec_version}");
        assert_eq!(once, again);
    }
}

#[test]
fn catalog_keeps_its_tables() {
    let catalog = catalog();
    assert_eq!(catalog.form_types().len(), 50);
    assert_eq!(catalog.version_patterns()[44].len(), 14);
    assert_eq!(catalog.version_patterns()[44][11], "^3");
    assert_eq!(catalog.column_names()[43][0].len(), 8);
    assert_eq!(catalog.date_columns().len(), 4);
    assert_eq!(catalog.float_columns(), &words(&["contribution_amount", "contribution_aggregate", "date_signed"]));
}

#[test]
fn catalog_refuses_tables_of_different_shapes() {
    let built = SchemaCatalog::new(
        words(&["^sa", "^sb"]),
        vec![words(&["^8"])],
        vec![vec![split(SHORT)]],
        Vec::new(),
        Vec::new(),
    );
    assert!(matches!(built, Err(CatalogError::Mismatched)));
    let built = SchemaCatalog::new(
        words(&["^sa"]),
        vec![words(&["^8", "^7"])],
        vec![vec![split(SHORT)]],
        Vec::new(),
        Vec::new(),
    );
    assert!(matches!(built, Err(CatalogError::Mismatched)));
    let built = SchemaCatalog::new(
        words(&["^sa"]),
        vec![words(&["^8"])],
        Vec::new(),
        Vec::new(),
        Vec::new(),
    );
    assert!(matches!(built, Err(CatalogError::Mismatched)));
}

#[test]
fn catalog_refuses_a_version_without_columns() {
    let built = SchemaCatalog::new(
        words(&["^sa"]),
        vec![words(&["^8", "^7"])],
        vec![vec![split(SHORT), Vec::new()]],
        Vec::new(),
        Vec::new(),
    );
    assert!(matches!(built, Err(CatalogError::EmptyColumns)));
    // The shape is judged before the columns.
    let built = SchemaCatalog::new(
        words(&["^sa"]),
        vec![words(&["^8", "^7"])],
        vec![vec![Vec::new()]],
        Vec::new(),
        Vec::new(),
    );
    assert!(matches!(built, Err(CatalogError::Mismatched)));
}

#[test]
fn catalog_refuses_a_pattern_that_does_not_compile() {
    let built = build(vec![("^sa(", vec![("^8", SHORT)])]);
    assert!(matches!(built, Err(CatalogError::Pattern(_))));
    let built = build(vec![("^sa", vec![("^8", SHORT), ("[", SHORT)])]);
    assert!(matches!(built, Err(CatalogError::Pattern(_))));
    // The columns are judged before the patterns.
    let built = SchemaCatalog::new(
        words(&["^sa("]),
        vec![words(&["^8"])],
        vec![vec![Vec::new()]],
        Vec::new(),
        Vec::new(),
    );
    assert!(matches!(built, Err(CatalogError::EmptyColumns)));
}

#[test]
fn an_empty_catalog_knows_no_form_type() {
    let catalog =
        SchemaCatalog::new(Vec::new(), Vec::new(), Vec::new(), Vec::new(), Vec::new()).unwrap();
    assert_eq!(field_idx(&catalog, "SA11A1"), None);
    assert_eq!(catalog.resolve("SA11A1", "8.4"), Err(ResolutionError::UnknownFormType));
    assert_eq!(column_format(&catalog, "contribution_date"), FieldFormat::Text);
}

#[test]
fn compact_dates_are_rewritten() {
    assert_eq!(try_format_fec_date("20000510"), "2000-05-10");
    assert_eq!(try_format_fec_date("19991231"), "1999-12-31");
    assert_eq!(try_format_fec_date("00000000"), "0000-00-00");
    assert!(is_fec_date("20000510"));
}

#[test]
fn other_values_are_no_dates() {
    for value in ["", "2000", "2000-05-10", "200005100", "2000051", "ABCDEFGH", "2000051O", " 2000051", "２０００", "２０００0510", "+2000510"] {
        assert!(!is_fec_date(value), "{value}");
        assert_eq!(try_format_fec_date(value), value);
    }
}

#[test]
fn formatting_a_date_twice_changes_nothing_more() {
    for value in ["20000510", "2000-05-10", "ABCDEFGH", "", "12345678"] {
        let once = try_format_fec_date(value);
        assert_eq!(try_format_fec_date(&once), once);
    }
}

#[test]
fn report_codes_have_their_labels() {
    assert_eq!(report_code_label("10D"), "Pre-Election");
    assert_eq!(report_code_label("12G"), "Pre-General");
    assert_eq!(report_code_label("30S"), "Post-Special");
    assert_eq!(report_code_label("M1"), "January Monthly");
    assert_eq!(report_code_label("M10"), "October Monthly");
    assert_eq!(report_code_label("Q2"), "July Quarterly");
    assert_eq!(report_code_label("Q2S"), "July Quarterly/Semi-Annual");
    assert_eq!(report_code_label("TER"), "Termination Report");
    assert_eq!(report_code_label("YE"), "Year-End");
    assert_eq!(report_code_label("48"), "48 Hour Notification");
    assert_eq!(report_code_label("24"), "24 Hour Notification");
    assert_eq!(report_code_label("QMS"), "Quarterly Mid-Year/ Semi-Annual");
    assert_eq!(report_code_label("MSY"), "Monthly Semi-Annual (YE)");
}

#[test]
fn unknown_report_codes_have_one_label() {
    for code in ["", "q2", "Q4", "M13", " Q1", "Q1 ", "10d", "XYZ"] {
        assert_eq!(report_code_label(code), "[Unknown report code]");
    }
}

#[test]
fn remove_char_drops_every_occurrence() {
    assert_eq!(remove_char("SC/12", '/'), "SC12");
    assert_eq!(remove_char("/S/C//1/", '/'), "SC1");
    assert_eq!(remove_char("SA11A1", '/'), "SA11A1");
    assert_eq!(remove_char("///", '/'), "");
    assert_eq!(remove_char("", '/'), "");
    assert_eq!(remove_char("é/ü", '/'), "éü");
    assert_eq!(chars_of("é/ü"), vec!['é', '/', 'ü']);
}

#[test]
fn number_text_is_told_as_the_standard_parser_tells_it() {
    let samples = [
        "5000.00", "N/A", "", "0", "-0", "+1", "1.", ".5", ".", "-.5", "+.", "1e5", "1E5", "1e+5",
        "1e-5", "1e", "1e+", "e5", "1.5e10", "1.e10", ".5e-3", ".e3", "inf", "INF", "Infinity",
        "-inf", "+infinity", "nan", "NaN", "-nan", "infinit", "infinityy", "na", "1,000", " 1",
        "1 ", "1_000", "0x10", "１２", "12a", "--1", "+-1", "1..2", "1.2.3", "1e5.0", "1e5e5",
        "00012", "123456789012345678901234567890", "1e400", "-", "+", "i", "in", "n", "++inf",
        "1f", "1.0f32", "5000.00 ", "$5", "1/2", "२३", "Nan", "iNf", "InFiNiTy", "1e٣",
    ];
    for value in samples {
        assert_eq!(is_float(value), value.parse::<f64>().is_ok(), "{value:?}");
    }
}

#[test]
fn header_fields_are_read_by_position() {
    let header = FilingHeader::from_record(record(&[
        "HDR", "FEC", " 8.4 ", "FECFile", "8", " R1 ", "  ", "a comment", "more",
    ]))
    .unwrap();
    assert_eq!(header.record_type, "HDR");
    assert_eq!(header.ef_type, "FEC");
    assert_eq!(header.fec_version, "8.4");
    assert_eq!(header.soft_name, "FECFile");
    assert_eq!(header.soft_ver, "8");
    assert_eq!(header.report_id.as_deref(), Some("R1"));
    assert_eq!(header.report_number, None);
    assert_eq!(header.comment.as_deref(), Some("a comment"));
    assert_eq!(header.header_record.fields.len(), 9);
}

#[test]
fn header_without_optional_fields() {
    let header = FilingHeader::from_record(record(&["HDR", "FEC", "8.3", "NGP", "8"])).unwrap();
    assert_eq!(header.fec_version, "8.3");
    assert_eq!(header.report_id, None);
    assert_eq!(header.report_number, None);
    assert_eq!(header.comment, None);
}

#[test]
fn header_trims_every_kind_of_whitespace() {
    let header = FilingHeader::from_record(record(&[
        "HDR", "FEC", "\u{a0}\t8.4\u{3000}\r\n", "FECFile", "8", "\u{2003}id\u{85}", "\u{200b}",
    ]))
    .unwrap();
    assert_eq!(header.fec_version, "8.4");
    assert_eq!(header.report_id.as_deref(), Some("id"));
    // A zero-width space is no whitespace.
    assert_eq!(header.report_number.as_deref(), Some("\u{200b}"));
}

#[test]
fn header_reports_the_first_missing_field() {
    let cases: [(&[&str], &str, usize); 5] = [
        (&[], "record_type", 0),
        (&["HDR"], "ef_type", 1),
        (&["HDR", "FEC"], "fec_version", 2),
        (&["HDR", "FEC", "8.4"], "soft_name", 3),
        (&["HDR", "FEC", "8.4", "FECFile"], "soft_ver", 4),
    ];
    for (fields, wanted_name, wanted_idx) in cases {
        match FilingHeader::from_record(record(fields)) {
            Err(FilingHeaderError::MissingField { name, idx }) => {
                assert_eq!(name, wanted_name);
                assert_eq!(idx, wanted_idx);
            }
            other => panic!("{:?}", other),
        }
    }
}

#[test]
fn header_refuses_other_versions() {
    for version in ["8.5", "8.2", "7.0", "", "8", "8.40", "P3.4", "8.3.1", "v8.4", "８.４"] {
        assert!(!is_supported_version(version));
        match FilingHeader::from_record(record(&["HDR", "FEC", version, "FECFile", "8"])) {
            Err(FilingHeaderError::UnsupportedVersion(found)) => assert_eq!(found, version.trim()),
            other => panic!("{:?}", other),
        }
    }
    // The version is judged before the fields behind it are missed.
    match FilingHeader::from_record(record(&["HDR", "FEC", " 5.3 "])) {
        Err(FilingHeaderError::UnsupportedVersion(found)) => assert_eq!(found, "5.3"),
        other => panic!("{:?}", other),
    }
    assert!(is_supported_version("8.3"));
    assert!(is_supported_version("8.4"));
}

#[test]
fn opening_refuses_other_versions() {
    for version in ["8.5", "8.2", "7.0", "3", "", "P3.4", "8.41"] {
        let header: &[&str] = &["HDR", "FEC", version, "FECFile", "8", "", "", "", ""];
        match open(source(&[header, COVER])) {
            Err(FilingReaderError::HeaderRead(FilingHeaderError::UnsupportedVersion(found))) => {
                assert_eq!(found, version)
            }
            other => panic!("{:?}", other.err()),
        }
        // The same without any cover: the version is judged first.
        assert!(matches!(
            open(source(&[header])),
            Err(FilingReaderError::HeaderRead(FilingHeaderError::UnsupportedVersion(_)))
        ));
    }
}

#[test]
fn opening_reads_header_and_cover() {
    let filing = open(source(&[HEADER, COVER])).unwrap();
    assert_eq!(filing.filing_id, "13360");
    assert_eq!(filing.source_length, None);
    assert_eq!(filing.header.record_type, "HDR");
    assert_eq!(filing.header.fec_version, "8.4");
    assert_eq!(filing.header.soft_name, "FECFile");
    assert_eq!(filing.header.soft_ver, "8");
    assert_eq!(filing.header.report_id, None);
    assert_eq!(filing.header.comment, None);
    assert_eq!(filing.cover.form_type, "F3");
    assert_eq!(filing.cover.filer_id, "C00101766");
    assert_eq!(filing.cover.filer_name, "CONTINENTAL AIRLINES INC EMPLOYEE FUND");
    assert_eq!(filing.cover.report_code.as_deref(), Some("Q2"));
    assert_eq!(filing.cover.coverage_from_date.as_deref(), Some("20000401"));
    assert_eq!(filing.cover.coverage_through_date.as_deref(), Some("20000630"));
    assert_eq!(filing.cursor.state, RowState::Ready);
}

#[test]
fn the_filer_is_found_by_column_name() {
    let catalog = catalog();
    let columns = catalog.resolve("F3", "8.4").unwrap();
    assert_eq!(find_column(columns, "filer_committee_id_number", "candidate_id_number"), Some(1));
    assert_eq!(find_column(columns, "committee_name", "organization_name"), Some(2));
    assert_eq!(find_column(columns, "report_code", "report_code"), Some(11));
    assert_eq!(find_column(columns, "no_such_column", "nor_this"), None);
    // A candidate's form names the filer otherwise.
    let cover = FilingCover::from_record(
        &catalog,
        "8.4",
        record(&["F2N", "H0TX00001", "Doe", "Jane", "Friends of Jane Doe", "Q1"]),
    )
    .unwrap();
    assert_eq!(cover.form_type, "F2N");
    assert_eq!(cover.filer_id, "H0TX00001");
    assert_eq!(cover.filer_name, "Friends of Jane Doe");
    assert_eq!(cover.report_code.as_deref(), Some("Q1"));
    assert_eq!(cover.coverage_from_date, None);
    assert_eq!(cover.coverage_through_date, None);
}

#[test]
fn a_short_cover_has_no_dates() {
    let cover =
        FilingCover::from_record(&catalog(), "8.4", record(&["F3", "C00101766", "The Fund"]))
            .unwrap();
    assert_eq!(cover.filer_id, "C00101766");
    assert_eq!(cover.filer_name, "The Fund");
    assert_eq!(cover.report_code, None);
    assert_eq!(cover.coverage_from_date, None);
    assert_eq!(cover.coverage_through_date, None);
}

#[test]
fn cover_errors() {
    let catalog = catalog();
    let refused = |version: &str, fields: &[&str]| {
        FilingCover::from_record(&catalog, version, record(fields)).unwrap_err()
    };
    assert_eq!(refused("8.4", &[]), FilingCoverError::EmptyRecord);
    assert_eq!(
        refused("8.4", &["ZZ", "C1", "Name"]),
        FilingCoverError::Schema(ResolutionError::UnknownFormType)
    );
    assert_eq!(
        refused("2.0", &["F3", "C1", "Name"]),
        FilingCoverError::Schema(ResolutionError::UnknownVersion)
    );
    // The columns of this form name a filer's id, but no filer's name.
    assert_eq!(refused("8.4", &["F99", "C1", "Name"]), FilingCoverError::MissingColumn);
    // Neither an id nor a name.
    assert_eq!(refused("8.4", &["HDR", "FEC", "8.4"]), FilingCoverError::MissingColumn);
    assert_eq!(refused("8.4", &["F3", "C1"]), FilingCoverError::MissingValue);
    assert_eq!(refused("8.4", &["F3"]), FilingCoverError::MissingValue);
}

#[test]
fn opening_errors() {
    assert!(matches!(open(Vec::new()), Err(FilingReaderError::MissingHeader)));
    assert!(matches!(open(b"\n\n".to_vec()), Err(FilingReaderError::MissingHeader)));
    match open(source(&[COVER, HEADER])) {
        Err(FilingReaderError::IncorrectHeader(tag)) => assert_eq!(tag, "F3"),
        other => panic!("{:?}", other.err()),
    }
    match open(source(&[&["hdr", "FEC", "8.4", "FECFile", "8"], COVER])) {
        Err(FilingReaderError::IncorrectHeader(tag)) => assert_eq!(tag, "hdr"),
        other => panic!("{:?}", other.err()),
    }
    match open(source(&[&["HDR", "FEC"], COVER])) {
        Err(FilingReaderError::HeaderRead(FilingHeaderError::MissingField { name, idx })) => {
            assert_eq!(name, "fec_version");
            assert_eq!(idx, 2);
        }
        other => panic!("{:?}", other.err()),
    }
    assert!(matches!(open(source(&[HEADER])), Err(FilingReaderError::MissingCover)));
    assert!(matches!(
        open(source(&[HEADER, &["ZZ", "C1", "Name"]])),
        Err(FilingReaderError::CoverRead(FilingCoverError::Schema(
            ResolutionError::UnknownFormType
        )))
    ));
    assert!(matches!(
        open(source(&[HEADER, &["F3", "C1"]])),
        Err(FilingReaderError::CoverRead(FilingCoverError::MissingValue))
    ));
}

#[test]
fn opening_reports_a_source_that_breaks() {
    let catalog = catalog();
    let opened = Filing::from_reader(&catalog, broken(&[]), "1".to_owned(), None);
    assert!(matches!(opened, Err(FilingReaderError::CsvRead(_))));
    assert!(matches!(read_header(None), Err(FilingReaderError::MissingHeader)));
    assert!(matches!(read_cover(&catalog, "8.4", None), Err(FilingReaderError::MissingCover)));
    assert!(read_header(Some(Ok(record(HEADER)))).is_ok());
    assert!(read_cover(&catalog, "8.4", Some(Ok(record(COVER)))).is_ok());
}

#[test]
fn rows_come_in_the_order_of_the_source() {
    let rows = rows_of(&[
        &["SA11A1", "C00101766", "IND", "Kellner^Lawrence"],
        &["SB23", "C00101766"],
        &["SA11A1", "C00101766", "IND", "Bethune^Gordon"],
    ]);
    let types: Vec<&str> = rows.iter().map(|r| r.as_ref().unwrap().row_type.as_str()).collect();
    assert_eq!(types, ["SA11A1", "SB23", "SA11A1"]);
    let third = rows[2].as_ref().unwrap();
    assert_eq!(third.record.fields, ["SA11A1", "C00101766", "IND", "Bethune^Gordon"]);
    assert_eq!(third.original_size, "SA11A1C00101766INDBethune^Gordon".len());
    assert_eq!(third.record.size, third.original_size);
    assert_eq!(third.record.line, Some(5));
    assert!(third.record.byte.unwrap() > 0);
}

#[test]
fn a_filing_without_rows_is_exhausted_at_once() {
    assert!(rows_of(&[]).is_empty());
}

#[test]
fn slashes_leave_the_row_type() {
    let rows = rows_of(&[&["SC/12", "C00101766"], &["SC/", "x"], &["S/C/1/0", "y"]]);
    let first = rows[0].as_ref().unwrap();
    assert_eq!(first.row_type, "SC12");
    // The record keeps the field as it was read.
    assert_eq!(first.record.fields[0], "SC/12");
    assert_eq!(rows[1].as_ref().unwrap().row_type, "SC");
    assert_eq!(rows[2].as_ref().unwrap().row_type, "SC10");
}

#[test]
fn a_text_block_gives_no_row_of_its_own() {
    let rows = rows_of(&[
        &["[BEGINTEXT]"],
        &["first line of text"],
        &["second line", "of text"],
        &["[ENDTEXT]"],
        &["SA11A1", "C00101766"],
    ]);
    assert_eq!(rows.len(), 1);
    let row = rows[0].as_ref().unwrap();
    assert_eq!(row.row_type, "SA11A1");
    assert_eq!(row.record.fields, ["SA11A1", "C00101766"]);
}

#[test]
fn rows_around_text_blocks() {
    let rows = rows_of(&[
        &["SA11A1", "before"],
        &["[BEGINTEXT]"],
        &["[ENDTEXT]"],
        &["SA/17", "annotated"],
        &["[BEGINTEXT]", "with", "more", "fields"],
        &["SB23", "inside the block"],
        &["[BEGINTEXT]"],
        &["[ENDTEXT]", "x"],
        &["SB23", "annotated too"],
        &["SC1", "after"],
    ]);
    let seen: Vec<(&str, &str)> = rows
        .iter()
        .map(|r| r.as_ref().unwrap())
        .map(|r| (r.row_type.as_str(), r.record.fields[1].as_str()))
        .collect();
    assert_eq!(
        seen,
        [("SA11A1", "before"), ("SA17", "annotated"), ("SB23", "annotated too"), ("SC1", "after")]
    );
}

#[test]
fn the_source_may_end_behind_a_text_block() {
    assert!(rows_of(&[&["[BEGINTEXT]"], &["text"], &["[ENDTEXT]"]]).is_empty());
}

#[test]
fn an_open_text_block_is_reported() {
    let rows = rows_of(&[&["SA11A1", "x"], &["[BEGINTEXT]"], &["text"], &["more text"]]);
    assert_eq!(rows.len(), 2);
    assert!(rows[0].is_ok());
    assert!(matches!(rows[1], Err(FilingRowReadError::UnterminatedTextBlock)));
    let rows = rows_of(&[&["[BEGINTEXT]"]]);
    assert!(matches!(rows[..], [Err(FilingRowReadError::UnterminatedTextBlock)]));
}

#[test]
fn a_record_without_a_row_type_is_reported() {
    let rows = rows_of(&[&["SA11A1", "x"], &["", "C00101766"], &["SB23", "y"]]);
    assert_eq!(rows.len(), 3);
    assert!(matches!(rows[1], Err(FilingRowReadError::EmptyRecord(4))));
    assert_eq!(rows[2].as_ref().unwrap().row_type, "SB23");
    // Behind a text block too.
    let rows = rows_of(&[&["[BEGINTEXT]"], &["[ENDTEXT]"], &["", "x"], &["SB23", "y"]]);
    assert_eq!(rows.len(), 2);
    assert!(matches!(rows[0], Err(FilingRowReadError::EmptyRecord(5))));
    assert!(rows[1].is_ok());
}

#[test]
fn a_row_type_of_slashes_only_is_kept() {
    let rows = rows_of(&[&["//", "x"]]);
    assert_eq!(rows[0].as_ref().unwrap().row_type, "");
}

#[test]
fn a_source_that_breaks_is_reported() {
    let catalog = catalog();
    let mut filing = Filing::from_reader(
        &catalog,
        broken(&[HEADER, COVER, &["SA11A1", "x"]]),
        "1".to_owned(),
        Some(4096),
    )
    .unwrap();
    assert_eq!(filing.source_length, Some(4096));
    assert_eq!(filing.next_row().unwrap().unwrap().row_type, "SA11A1");
    assert!(matches!(filing.next_row(), Some(Err(FilingRowReadError::CsvError(_)))));
    assert_eq!(filing.cursor.state, RowState::Ready);

    let mut filing = Filing::from_reader(
        &catalog,
        broken(&[HEADER, COVER, &["[BEGINTEXT]"], &["text"]]),
        "1".to_owned(),
        None,
    )
    .unwrap();
    assert!(matches!(filing.next_row(), Some(Err(FilingRowReadError::TextRecordError(_)))));
    assert_eq!(filing.cursor.state, RowState::InTextBlock);
}

#[test]
fn bytes_that_are_no_text_are_replaced() {
    let mut bytes = source(&[HEADER, COVER]);
    bytes.extend_from_slice(b"SA11A1\x1cfoo\xffbar\x1c\"quoted\x1cfield\"\n");
    let mut filing = open(bytes).unwrap();
    let row = filing.next_row().unwrap().unwrap();
    assert_eq!(row.record.fields, ["SA11A1", "foo\u{fffd}bar", "quoted\u{1c}field"]);
    assert_eq!(row.original_size, "SA11A1".len() + 7 + 12);
    assert!(filing.next_row().is_none());
}

#[test]
fn the_row_stream_step_by_step() {
    let mut cursor = RowCursor::new();
    assert_eq!(cursor.state, RowState::Ready);
    assert!(matches!(cursor.feed(Some(Ok(record(&["SA11A1"])))), Step::Row(_)));
    assert_eq!(cursor.state, RowState::Ready);
    assert!(matches!(cursor.feed(Some(Ok(record(&["[BEGINTEXT]"])))), Step::More));
    assert_eq!(cursor.state, RowState::InTextBlock);
    assert!(matches!(cursor.feed(Some(Ok(record(&["one", "two"])))), Step::More));
    assert!(matches!(cursor.feed(Some(Ok(record(&[])))), Step::More));
    assert!(matches!(cursor.feed(Some(Ok(record(&["[BEGINTEXT]"])))), Step::More));
    assert_eq!(cursor.state, RowState::InTextBlock);
    assert_eq!(cursor.text, "onetwo\n\n[BEGINTEXT]\n");
    assert!(matches!(cursor.feed(Some(Ok(record(&["[ENDTEXT]"])))), Step::More));
    assert_eq!(cursor.state, RowState::TextEnded);
    // The record behind a block is a row, whatever it holds.
    match cursor.feed(Some(Ok(record(&["[BEGINTEXT]", "x"])))) {
        Step::Row(row) => assert_eq!(row.row_type, "[BEGINTEXT]"),
        other => panic!("{:?}", other),
    }
    assert_eq!(cursor.state, RowState::Ready);
    assert_eq!(cursor.text, "onetwo\n\n[BEGINTEXT]\n");
    assert!(matches!(cursor.feed(Some(Ok(record(&["[BEGINTEXT]"])))), Step::More));
    assert_eq!(cursor.text, "");
    assert!(matches!(
        cursor.feed(None),
        Step::Failed(FilingRowReadError::UnterminatedTextBlock)
    ));
    assert_eq!(cursor.state, RowState::Exhausted);
    assert!(matches!(cursor.feed(Some(Ok(record(&["SA11A1"])))), Step::Finished));
    assert!(matches!(cursor.feed(None), Step::Finished));
    assert_eq!(cursor.state, RowState::Exhausted);
}

#[test]
fn the_row_stream_on_records_without_a_row_type() {
    let mut cursor = RowCursor::new();
    assert!(matches!(
        cursor.feed(Some(Ok(record(&[])))),
        Step::Failed(FilingRowReadError::EmptyRecord(7))
    ));
    let mut unplaced = record(&["", "x"]);
    unplaced.line = None;
    assert!(matches!(
        cursor.feed(Some(Ok(unplaced))),
        Step::Failed(FilingRowReadError::EmptyRecord(0))
    ));
    assert_eq!(cursor.state, RowState::Ready);
    // "[ENDTEXT]" outside a block is a row like any other.
    match cursor.feed(Some(Ok(record(&["[ENDTEXT]"])))) {
        Step::Row(row) => assert_eq!(row.row_type, "[ENDTEXT]"),
        other => panic!("{:?}", other),
    }
    assert!(matches!(cursor.feed(None), Step::Finished));
    assert_eq!(cursor.state, RowState::Exhausted);
}

#[test]
fn columns_have_their_formats() {
    let catalog = catalog();
    assert_eq!(column_format(&catalog, "contribution_date"), FieldFormat::Date);
    assert_eq!(column_format(&catalog, "contribution_amount"), FieldFormat::Float);
    assert_eq!(column_format(&catalog, "contributor_name"), FieldFormat::Text);
    assert_eq!(column_format(&catalog, "Contribution_Date"), FieldFormat::Text);
    // A column that is listed as both holds dates.
    assert_eq!(column_format(&catalog, "date_signed"), FieldFormat::Date);
    let formats = column_formats(&catalog, &split(SA_V3));
    assert_eq!(formats.len(), 37);
    assert_eq!(formats[13], FieldFormat::Float);
    assert_eq!(formats[14], FieldFormat::Date);
    assert_eq!(formats[15], FieldFormat::Float);
    assert_eq!(formats.iter().filter(|f| **f == FieldFormat::Text).count(), 34);
    assert!(column_formats(&catalog, &Vec::new()).is_empty());
}

#[test]
fn date_fields_are_coerced() {
    match coerce_field(FieldFormat::Date, "20000510") {
        FieldValue::Date(date) => assert_eq!(date, "2000-05-10"),
        other => panic!("{:?}", other),
    }
    for raw in ["2000", "", "2000-05-10", "ABCDEFGH", "200005100"] {
        assert_eq!(text(&coerce_field(FieldFormat::Date, raw)), raw);
    }
}

#[test]
fn an_iso_date_is_not_formatted_again() {
    assert_eq!(text(&coerce_field(FieldFormat::Date, "2000-05-10")), "2000-05-10");
    assert_eq!(text(&coerce_field(FieldFormat::Date, "ABCDEFGH")), "ABCDEFGH");
    let once = match coerce_field(FieldFormat::Date, "20000510") {
        FieldValue::Date(date) => date,
        other => panic!("{:?}", other),
    };
    assert_eq!(text(&coerce_field(FieldFormat::Date, &once)), "2000-05-10");
}

#[test]
fn float_fields_are_coerced() {
    match coerce_field(FieldFormat::Float, "5000.00") {
        FieldValue::Float(number) => assert_eq!(number.parse::<f64>(), Ok(5000.0)),
        other => panic!("{:?}", other),
    }
    match coerce_field(FieldFormat::Float, "-.5e1") {
        FieldValue::Float(number) => assert_eq!(number.parse::<f64>(), Ok(-5.0)),
        other => panic!("{:?}", other),
    }
    assert_eq!(text(&coerce_field(FieldFormat::Float, "N/A")), "N/A");
    assert_eq!(text(&coerce_field(FieldFormat::Float, "")), "");
    assert_eq!(text(&coerce_field(FieldFormat::Float, "5,000.00")), "5,000.00");
}

#[test]
fn text_fields_are_kept() {
    for raw in ["20000510", "5000.00", "", "Kellner^Lawrence"] {
        assert_eq!(text(&coerce_field(FieldFormat::Text, raw)), raw);
    }
}

#[test]
fn a_row_of_the_width_of_its_schema_is_handed_on_whole() {
    let formats = vec![FieldFormat::Text, FieldFormat::Float, FieldFormat::Date];
    let fitted = reconcile("13360", &row(&["SA11A1", "5000.00", "20000510"]), &formats);
    assert!(fitted.warnings.is_empty());
    assert_eq!(fitted.values.len(), formats.len() + 1);
    assert_eq!(text(&fitted.values[0]), "13360");
    assert_eq!(text(&fitted.values[1]), "SA11A1");
    assert!(matches!(&fitted.values[2], FieldValue::Float(v) if v == "5000.00"));
    assert!(matches!(&fitted.values[3], FieldValue::Date(v) if v == "2000-05-10"));
}

#[test]
fn one_field_too_many_is_dropped_in_silence() {
    let formats = vec![FieldFormat::Text, FieldFormat::Float];
    let fitted = reconcile("13360", &row(&["SA11A1", "1", ""]), &formats);
    assert!(fitted.warnings.is_empty());
    assert_eq!(fitted.values.len(), 3);
    assert_eq!(text(&fitted.values[1]), "SA11A1");
    assert!(matches!(&fitted.values[2], FieldValue::Float(v) if v == "1"));
    // Whatever that field holds.
    let fitted = reconcile("13360", &row(&["SA11A1", "1", "surplus"]), &formats);
    assert!(fitted.warnings.is_empty());
    assert_eq!(fitted.values.len(), 3);
}

#[test]
fn two_fields_too_many_are_cut_off_with_a_warning() {
    let formats = vec![FieldFormat::Text, FieldFormat::Float];
    let fitted = reconcile("13360", &row(&["SA11A1", "x", "one", "two"]), &formats);
    assert_eq!(fitted.values.len(), formats.len() + 1);
    assert_eq!(text(&fitted.values[0]), "13360");
    assert_eq!(text(&fitted.values[1]), "SA11A1");
    assert_eq!(text(&fitted.values[2]), "x");
    assert_eq!(fitted.warnings.len(), 1);
    let warning = &fitted.warnings[0];
    assert_eq!(warning.filing_id, "13360");
    assert_eq!(warning.line, Some(7));
    assert_eq!(warning.byte, Some(120));
    assert_eq!(warning.fields, 4);
    assert_eq!(warning.columns, 2);
    // More than two as well.
    let fitted = reconcile("13360", &row(&["SA11A1", "1", "a", "b", "c", "d"]), &formats);
    assert_eq!(fitted.values.len(), 3);
    assert_eq!(fitted.warnings.len(), 1);
    assert_eq!(fitted.warnings[0].fields, 6);
}

#[test]
fn missing_fields_are_filled_with_empty_text() {
    let formats = vec![FieldFormat::Text, FieldFormat::Float, FieldFormat::Date, FieldFormat::Text];
    let fitted = reconcile("13360", &row(&["SA11A1", "2.5"]), &formats);
    assert!(fitted.warnings.is_empty());
    assert_eq!(fitted.values.len(), 5);
    assert!(matches!(&fitted.values[2], FieldValue::Float(v) if v == "2.5"));
    assert_eq!(text(&fitted.values[3]), "");
    assert_eq!(text(&fitted.values[4]), "");
    let fitted = reconcile("13360", &FilingRow { row_type: String::new(), record: record(&[]), original_size: 0 }, &formats);
    assert_eq!(fitted.values.len(), 5);
    assert_eq!(text(&fitted.values[0]), "13360");
    assert_eq!(text(&fitted.values[1]), "");
}

#[test]
fn a_schema_without_columns_leaves_the_id() {
    let fitted = reconcile("13360", &row(&["SA11A1"]), &Vec::new());
    assert!(fitted.warnings.is_empty());
    assert_eq!(fitted.values.len(), 1);
    assert_eq!(text(&fitted.values[0]), "13360");
    let fitted = reconcile("13360", &row(&["SA11A1", "x"]), &Vec::new());
    assert_eq!(fitted.values.len(), 1);
    assert_eq!(fitted.warnings.len(), 1);
}

#[test]
fn a_row_of_a_filing_is_fitted_to_its_schema() {
    let catalog = catalog();
    let all: &[&[&str]] = &[
        HEADER,
        COVER,
        &[
            "SA11A1", "C00101766", "IND", "Kellner^Lawrence", "10915 Pifer Way", "", "Houston",
            "TX", "77024", "", "", "Continental Airlines, Inc.", "Exec. V.P. & CFO", "5000.00",
            "20000510", "N/A",
        ],
    ];
    let mut filing = open(source(all)).unwrap();
    let row = filing.next_row().unwrap().unwrap();
    let columns = column_names_for_field(&catalog, &row.row_type, "3").unwrap();
    let formats = column_formats(&catalog, columns);
    let fitted = reconcile(&filing.filing_id, &row, &formats);
    assert!(fitted.warnings.is_empty());
    assert_eq!(fitted.values.len(), columns.len() + 1);
    assert_eq!(text(&fitted.values[0]), "13360");
    assert_eq!(text(&fitted.values[12]), "Continental Airlines, Inc.");
    assert!(matches!(&fitted.values[14], FieldValue::Float(v) if v.parse::<f64>() == Ok(5000.0)));
    assert!(matches!(&fitted.values[15], FieldValue::Date(v) if v == "2000-05-10"));
    assert_eq!(text(&fitted.values[16]), "N/A");
    assert_eq!(text(&fitted.values[37]), "");
}

#[test]
fn export_targets_go_by_their_names() {
    assert_eq!(CmdExportTarget::from_name("form-type"), Some(CmdExportTarget::ByFormType));
    assert_eq!(CmdExportTarget::from_name("schedule-a"), Some(CmdExportTarget::ScheduleA));
    assert_eq!(CmdExportTarget::from_name("a"), Some(CmdExportTarget::ScheduleA));
    for name in ["", "A", "form_type", "schedule-b", "Form-Type", " a"] {
        assert_eq!(CmdExportTarget::from_name(name), None);
    }
}

#[test]
fn export_targets_choose_their_rows() {
    for row_type in ["SA11A1", "SB23", "", "F3", "sa11"] {
        assert!(CmdExportTarget::ByFormType.exports(row_type));
    }
    for row_type in ["SA11A1", "SA", "SA17"] {
        assert!(CmdExportTarget::ScheduleA.exports(row_type));
    }
    for row_type in ["SB23", "", "S", "sa11", "XSA", "F3"] {
        assert!(!CmdExportTarget::ScheduleA.exports(row_type));
    }
}

#[test]
fn export_targets_name_their_tables() {
    assert_eq!(CmdExportTarget::ByFormType.table("SA11A1"), "SA11A1");
    assert_eq!(CmdExportTarget::ByFormType.table(""), "");
    assert_eq!(CmdExportTarget::ScheduleA.table("SA11A1"), "schedule_a");
    assert_eq!(
        CmdExportTarget::ByFormType.schema("SB23", "8.3"),
        ("SB23".to_owned(), "8.3".to_owned())
    );
    assert_eq!(
        CmdExportTarget::ScheduleA.schema("SA11A1", "8.3"),
        ("SA".to_owned(), "8.4".to_owned())
    );
}

#[test]
fn prefixes_are_told() {
    assert!(starts_with("FEC-13360", "FEC-"));
    assert!(starts_with("FEC-", "FEC-"));
    assert!(starts_with("anything", ""));
    assert!(starts_with("", ""));
    assert!(starts_with("éa", "é"));
    assert!(!starts_with("FEC", "FEC-"));
    assert!(!starts_with("fec-13360", "FEC-"));
    assert!(!starts_with("", "#"));
    assert!(!starts_with(" #", "#"));
}

#[test]
fn filing_ids_lose_their_prefix() {
    assert_eq!(filing_id_of("FEC-13360"), "13360");
    assert_eq!(filing_id_of("FEC13360"), "13360");
    assert_eq!(filing_id_of("13360"), "13360");
    assert_eq!(filing_id_of("FEC-"), "");
    assert_eq!(filing_id_of("FEC"), "");
    assert_eq!(filing_id_of(""), "");
    assert_eq!(filing_id_of("fec-13360"), "fec-13360");
    assert_eq!(filing_id_of("FEC-FEC-1"), "FEC-1");
    assert_eq!(filing_id_of("FEC--1"), "-1");
    assert_eq!(filing_id_of("XFEC-1"), "XFEC-1");
}

#[test]
fn filings_are_posted_under_their_ids() {
    assert_eq!(posted_url("13360"), "https://docquery.fec.gov/dcdev/posted/13360.fec");
    assert_eq!(posted_url(""), "https://docquery.fec.gov/dcdev/posted/.fec");
    assert_eq!(
        posted_url(&filing_id_of("FEC-1700000")),
        "https://docquery.fec.gov/dcdev/posted/1700000.fec"
    );
}

#[test]
fn a_list_of_filing_ids_may_hold_comments() {
    let lines = words(&[
        "13360", "  FEC-13361\t", "", "   ", "# a comment", "  # another", "13362 # kept whole",
        "#", "\u{a0}13363\u{3000}",
    ]);
    assert_eq!(filing_ids(&lines), ["13360", "FEC-13361", "13362 # kept whole", "13363"]);
    assert!(filing_ids(&Vec::new()).is_empty());
}

#[test]
fn a_sourcer_keeps_its_cache_directory() {
    assert_eq!(FilingSourcer::new(None).cache_directory, None);
    assert_eq!(
        FilingSourcer::new(Some("/tmp/filings".to_owned())).cache_directory.as_deref(),
        Some("/tmp/filings")
    );
}

#[test]
fn rows_are_counted_by_their_type() {
    let mut status: Vec<FilingFormMetadata> = Vec::new();
    tally(&mut status, "SA11A1", 100);
    tally(&mut status, "SB23", 7);
    tally(&mut status, "SA11A1", 50);
    tally(&mut status, "sa11a1", 1);
    tally(&mut status, "SA11A1", 0);
    let seen: Vec<(&str, usize, usize)> =
        status.iter().map(|e| (e.row_type.as_str(), e.count, e.bytes)).collect();
    assert_eq!(seen, [("SA11A1", 3, 150), ("SB23", 1, 7), ("sa11a1", 1, 1)]);
}

#[test]
fn counts_stop_at_the_largest_number() {
    let mut status = vec![FilingFormMetadata {
        row_type: "SA11A1".to_owned(),
        count: usize::MAX,
        bytes: usize::MAX - 5,
    }];
    tally(&mut status, "SA11A1", 4);
    assert_eq!((status[0].count, status[0].bytes), (usize::MAX, usize::MAX - 1));
    tally(&mut status, "SA11A1", 4);
    assert_eq!((status[0].count, status[0].bytes), (usize::MAX, usize::MAX));
    assert_eq!(status.len(), 1);
}

fn start(name: &str) -> FeedEvent {
    FeedEvent::Start(name.to_owned())
}

fn end(name: &str) -> FeedEvent {
    FeedEvent::End(name.to_owned())
}

fn element(name: &str, text: &str) -> Vec<FeedEvent> {
    vec![start(name), FeedEvent::Text(text.to_owned()), end(name)]
}

fn item(fields: &[(&str, &str)]) -> Vec<FeedEvent> {
    let mut events = vec![start("item")];
    for (name, text) in fields {
        events.extend(element(name, text));
    }
    events.push(end("item"));
    events
}

const FILED: &[(&str, &str)] = &[
    ("title", "New filing by THE FUND"),
    ("link", "https://docquery.fec.gov/dcdev/posted/13360.fec"),
    ("description", "Form F3"),
    ("pubDate", "Wed, 10 May 2000 00:00:00 GMT"),
    ("guid", "https://docquery.fec.gov/dcdev/posted/13360.fec"),
    ("dc:date", "2000-05-10T00:00:00Z"),
];

#[test]
fn the_items_of_a_feed_are_read() {
    let mut events = vec![FeedEvent::Other, start("rss"), start("channel")];
    events.extend(element("title", "the channel's own title"));
    events.extend(item(FILED));
    events.push(FeedEvent::Text("between the items".to_owned()));
    events.extend(item(&[
        ("dc:date", "2000-05-11"),
        ("guid", "g"),
        ("title", "first title"),
        ("title", "second title"),
        ("link", "l"),
        ("description", "d"),
    ]));
    events.extend([end("channel"), end("rss"), FeedEvent::Eof, start("item")]);
    let items = feed_items(&events).unwrap();
    assert_eq!(items.len(), 2);
    assert_eq!(items[0].title, "New filing by THE FUND");
    assert_eq!(items[0].link, "https://docquery.fec.gov/dcdev/posted/13360.fec");
    assert_eq!(items[0].description, "Form F3");
    assert_eq!(items[0].guid, "https://docquery.fec.gov/dcdev/posted/13360.fec");
    assert_eq!(items[0].date, "2000-05-10T00:00:00Z");
    assert_eq!(items[1].title, "second title");
    assert_eq!(items[1].date, "2000-05-11");
}

#[test]
fn an_element_without_text_takes_the_text_before_it() {
    let events = vec![
        start("item"),
        FeedEvent::Text("t".to_owned()),
        end("title"),
        start("link"),
        end("link"),
        end("description"),
        end("guid"),
        start("dc:date"),
        FeedEvent::Text("d".to_owned()),
        end("dc:date"),
        end("item"),
    ];
    let items = feed_items(&events).unwrap();
    assert_eq!(items[0].title, "t");
    assert_eq!(items[0].link, "t");
    assert_eq!(items[0].guid, "t");
    assert_eq!(items[0].date, "d");
    // An element that ends before any text takes the empty text.
    let mut events = vec![start("item"), end("title")];
    events.extend(element("link", "l"));
    events.extend(element("description", "d"));
    events.extend(element("guid", "g"));
    events.extend(element("dc:date", "x"));
    events.push(end("item"));
    assert_eq!(feed_items(&events).unwrap()[0].title, "");
}

#[test]
fn a_feed_without_items_is_empty() {
    assert!(feed_items(&Vec::new()).unwrap().is_empty());
    assert!(feed_items(&vec![FeedEvent::Eof]).unwrap().is_empty());
    let mut events = vec![start("rss"), end("item"), end("nonsense"), FeedEvent::Other];
    events.extend(element("title", "t"));
    assert!(feed_items(&events).unwrap().is_empty());
}

#[test]
fn feed_errors() {
    let mut events = item(FILED);
    events.pop();
    assert!(matches!(feed_items(&events), Err(FeedError::UnclosedItem)));
    events.push(FeedEvent::Eof);
    assert!(matches!(feed_items(&events), Err(FeedError::UnclosedItem)));
    assert!(matches!(feed_items(&vec![start("item")]), Err(FeedError::UnclosedItem)));

    let mut events = vec![start("item")];
    events.extend(element("author", "someone"));
    match feed_items(&events) {
        Err(FeedError::UnknownElement(name)) => assert_eq!(name, "author"),
        other => panic!("{:?}", other),
    }
    match feed_items(&vec![start("item"), end("Title")]) {
        Err(FeedError::UnknownElement(name)) => assert_eq!(name, "Title"),
        other => panic!("{:?}", other),
    }

    let events = vec![start("item"), FeedEvent::Other, end("item")];
    assert!(matches!(feed_items(&events), Err(FeedError::UnexpectedEvent)));

    for missing in ["title", "link", "description", "guid", "dc:date"] {
        let fields: Vec<(&str, &str)> =
            FILED.iter().filter(|(name, _)| *name != missing).cloned().collect();
        assert!(matches!(feed_items(&item(&fields)), Err(FeedError::IncompleteItem)));
    }
    // The date of publication may be missing.
    let fields: Vec<(&str, &str)> =
        FILED.iter().filter(|(name, _)| *name != "pubDate").cloned().collect();
    assert_eq!(feed_items(&item(&fields)).unwrap().len(), 1);
    // An item gives no fields to the next.
    let mut events = item(FILED);
    events.extend(item(&[("title", "t")]));
    assert!(matches!(feed_items(&events), Err(FeedError::IncompleteItem)));
}
