//! What a sink is handed for one row: the filing's id and then one typed
//! value for each column of the row's schema.
//!
//! A record may hold more or fewer fields than its schema has columns. One
//! field too many is taken for the mark of a trailing delimiter and dropped
//! in silence. Missing fields are filled with empty text. Any other surplus
//! is cut off, with a warning.

use crate::dates::{dashed, is_compact_date, is_fec_date, try_format_fec_date};
use crate::mappings::{CatalogView, SchemaCatalog};
use crate::number::{is_float, is_float_text};
use crate::rows::FilingRow;
use crate::text::{begins_with, starts_with, str_eq};
use vstd::prelude::*;

verus! {

/// How the values of a column are typed.
#[derive(Debug, Clone, Copy, PartialEq, Eq, Structural)]
pub enum FieldFormat {
    Text,
    Float,
    Date,
}

/// Which rows of a filing are exported.
#[derive(Debug, Clone, Copy, PartialEq, Eq, Structural)]
pub enum CmdExportTarget {
    /// Every row, to a table of its row type.
    ByFormType,
    /// The rows of schedule A, to one table.
    ScheduleA,
}

/// The target that goes by the name `name`.
pub open spec fn target_named(name: Seq<char>) -> Option<CmdExportTarget> {
    if name == "form-type"@ {
        Some(CmdExportTarget::ByFormType)
    } else if name == "schedule-a"@ || name == "a"@ {
        Some(CmdExportTarget::ScheduleA)
    } else {
        None
    }
}

impl CmdExportTarget {
    /// Whether a row of the type `row_type` is exported to this target.
    pub open spec fn takes(self, row_type: Seq<char>) -> bool {
        match self {
            CmdExportTarget::ByFormType => true,
            CmdExportTarget::ScheduleA => begins_with(row_type, "SA"@),
        }
    }

    /// The target that goes by the name `name`, if there is one.
    pub fn from_name(name: &str) -> (target: Option<CmdExportTarget>)
        ensures
            target == target_named(name@),
    {
        if str_eq(name, "form-type") {
            Some(CmdExportTarget::ByFormType)
        } else if str_eq(name, "schedule-a") || str_eq(name, "a") {
            Some(CmdExportTarget::ScheduleA)
        } else {
            None
        }
    }

    /// The table to which a row of the type `row_type` goes: that of its row
    /// type, or the one table of schedule A.
    pub open spec fn table_name(self, row_type: Seq<char>) -> Seq<char> {
        match self {
            CmdExportTarget::ByFormType => row_type,
            CmdExportTarget::ScheduleA => "schedule_a"@,
        }
    }

    /// The form type and the version by which the columns of that table are
    /// looked up: those of the row and of its filing, or, for the one table
    /// of schedule A, `SA` in the version `8.4`.
    pub open spec fn schema_key(self, row_type: Seq<char>, fec_version: Seq<char>) -> (
        Seq<char>,
        Seq<char>,
    ) {
        match self {
            CmdExportTarget::ByFormType => (row_type, fec_version),
            CmdExportTarget::ScheduleA => ("SA"@, "8.4"@),
        }
    }

    /// Tells whether a row of the type `row_type` is exported to this target.
    pub fn exports(&self, row_type: &str) -> (b: bool)
        ensures
            b == self.takes(row_type@),
    {
        match self {
            CmdExportTarget::ByFormType => true,
            CmdExportTarget::ScheduleA => starts_with(row_type, "SA"),
        }
    }

    /// The table to which a row of the type `row_type` goes.
    pub fn table(&self, row_type: &str) -> (name: String)
        ensures
            name@ == self.table_name(row_type@),
    {
        match self {
            CmdExportTarget::ByFormType => row_type.to_owned(),
            CmdExportTarget::ScheduleA => "schedule_a".to_owned(),
        }
    }

    /// The form type and the version by which the columns of that table are
    /// looked up.
    pub fn schema(&self, row_type: &str, fec_version: &str) -> (key: (String, String))
        ensures
            (key.0@, key.1@) == self.schema_key(row_type@, fec_version@),
    {
        match self {
            CmdExportTarget::ByFormType => (row_type.to_owned(), fec_version.to_owned()),
            CmdExportTarget::ScheduleA => ("SA".to_owned(), "8.4".to_owned()),
        }
    }
}

/// One typed value. A `Float` holds the text of a number, a `Date` a date in
/// ISO form.
#[derive(Debug, Clone)]
pub enum FieldValue {
    Text(String),
    Float(String),
    Date(String),
}

/// What a `FieldValue` holds.
pub enum ValueView {
    Text(Seq<char>),
    Float(Seq<char>),
    Date(Seq<char>),
}

impl View for FieldValue {
    type V = ValueView;

    open spec fn view(&self) -> ValueView {
        match self {
            FieldValue::Text(s) => ValueView::Text(s@),
            FieldValue::Float(s) => ValueView::Float(s@),
            FieldValue::Date(s) => ValueView::Date(s@),
        }
    }
}

/// A surplus of fields that was cut off.
#[derive(Debug)]
pub struct RowWarning {
    /// The filing that the row belongs to.
    pub filing_id: String,
    /// The line on which the row starts, where it is known.
    pub line: Option<u64>,
    /// The byte offset at which the row starts, where it is known.
    pub byte: Option<u64>,
    /// The number of fields that the row holds.
    pub fields: usize,
    /// The number of columns that its schema has.
    pub columns: usize,
}

/// The values of one row for a sink, and the warnings that fitting them gave.
#[derive(Debug)]
pub struct Reconciled {
    pub values: Vec<FieldValue>,
    pub warnings: Vec<RowWarning>,
}

/// The format of the column called `name`: a date column holds dates, any
/// other number column holds numbers, and the rest hold text.
pub open spec fn format_of(catalog: CatalogView, name: Seq<char>) -> FieldFormat {
    if catalog.date_columns.contains(name) {
        FieldFormat::Date
    } else if catalog.float_columns.contains(name) {
        FieldFormat::Float
    } else {
        FieldFormat::Text
    }
}

/// The formats of `columns`, one for each.
pub open spec fn formats_of(catalog: CatalogView, columns: Seq<Seq<char>>) -> Seq<FieldFormat> {
    Seq::new(columns.len(), |i: int| format_of(catalog, columns[i]))
}

/// The typed value of the field `raw` in a column of the format `format`.
/// A compact date becomes a date in ISO form and the text of a number a
/// number; whatever is neither stays text, unchanged.
pub open spec fn coerce(format: FieldFormat, raw: Seq<char>) -> ValueView {
    match format {
        FieldFormat::Text => ValueView::Text(raw),
        FieldFormat::Date => if is_compact_date(raw) {
            ValueView::Date(dashed(raw))
        } else {
            ValueView::Text(raw)
        },
        FieldFormat::Float => if is_float_text(raw) {
            ValueView::Float(raw)
        } else {
            ValueView::Text(raw)
        },
    }
}

/// The format of the field at index `i`: that of its column, or text where the
/// schema has no such column.
pub open spec fn format_at(formats: Seq<FieldFormat>, i: int) -> FieldFormat {
    if 0 <= i < formats.len() {
        formats[i]
    } else {
        FieldFormat::Text
    }
}

/// The filing's id, and then each field typed by its column.
pub open spec fn typed(filing_id: Seq<char>, fields: Seq<Seq<char>>, formats: Seq<FieldFormat>) -> Seq<
    ValueView,
> {
    seq![ValueView::Text(filing_id)] + Seq::new(
        fields.len(),
        |i: int| coerce(format_at(formats, i), fields[i]),
    )
}

/// `values` without its last, where it is longer than `want` by just one.
pub open spec fn without_trailing(values: Seq<ValueView>, want: nat) -> Seq<ValueView> {
    if values.len() == want + 1 {
        values.drop_last()
    } else {
        values
    }
}

/// `values` brought to the length `want`: filled up with empty text, or cut.
pub open spec fn fitted(values: Seq<ValueView>, want: nat) -> Seq<ValueView> {
    if values.len() < want {
        values + Seq::new((want - values.len()) as nat, |i: int| ValueView::Text(Seq::empty()))
    } else {
        values.take(want as int)
    }
}

/// The values that a sink is handed for a row with these fields: the id, the
/// typed fields, the trailing one dropped, and the rest fitted to one value
/// for the id and one for each column.
pub open spec fn reconciled(
    filing_id: Seq<char>,
    fields: Seq<Seq<char>>,
    formats: Seq<FieldFormat>,
) -> Seq<ValueView> {
    let want = formats.len() + 1;
    fitted(without_trailing(typed(filing_id, fields, formats), want), want)
}

/// Whether fitting a row with these fields cuts values off.
pub open spec fn overflows(fields: Seq<Seq<char>>, formats: Seq<FieldFormat>) -> bool {
    fields.len() > formats.len() + 1
}

/// The views of `values`, one for each.
pub open spec fn views(values: Seq<FieldValue>) -> Seq<ValueView> {
    Seq::new(values.len(), |i: int| values[i]@)
}

/// A sink is always handed one value for the id and one for each column, the
/// id first; values are cut off exactly where the row holds more than one
/// field beyond its columns.
pub proof fn lemma_reconciled_width(
    filing_id: Seq<char>,
    fields: Seq<Seq<char>>,
    formats: Seq<FieldFormat>,
)
    ensures
        reconciled(filing_id, fields, formats).len() == formats.len() + 1,
        reconciled(filing_id, fields, formats)[0] == ValueView::Text(filing_id),
        overflows(fields, formats) <==> without_trailing(
            typed(filing_id, fields, formats),
            formats.len() + 1,
        ).len() > formats.len() + 1,
{
}

/// A row that holds one field for each column is handed on whole: each field
/// typed by its column, behind the id, and nothing is cut off.
pub proof fn lemma_reconciled_exact(
    filing_id: Seq<char>,
    fields: Seq<Seq<char>>,
    formats: Seq<FieldFormat>,
)
    requires
        fields.len() == formats.len(),
    ensures
        reconciled(filing_id, fields, formats) == typed(filing_id, fields, formats),
        reconciled(filing_id, fields, formats).len() == formats.len() + 1,
        forall|i: int|
            0 <= i < fields.len() ==> #[trigger] reconciled(filing_id, fields, formats)[i + 1]
                == coerce(formats[i], fields[i]),
        !overflows(fields, formats),
{
    assert(reconciled(filing_id, fields, formats) =~= typed(filing_id, fields, formats));
}

/// A row that holds two fields or more beyond its columns loses those fields:
/// values are cut off, and what is left is the id and the fields that have a
/// column, each typed by it.
pub proof fn lemma_reconciled_surplus(
    filing_id: Seq<char>,
    fields: Seq<Seq<char>>,
    formats: Seq<FieldFormat>,
)
    requires
        fields.len() >= formats.len() + 2,
    ensures
        overflows(fields, formats),
        reconciled(filing_id, fields, formats) == typed(
            filing_id,
            fields.take(formats.len() as int),
            formats,
        ),
        reconciled(filing_id, fields, formats).len() == formats.len() + 1,
{
    assert(reconciled(filing_id, fields, formats) =~= typed(
        filing_id,
        fields.take(formats.len() as int),
        formats,
    ));
}

/// A row that holds just one field beyond its columns loses that field, and
/// nothing counts as cut off.
pub proof fn lemma_reconciled_trailing(
    filing_id: Seq<char>,
    fields: Seq<Seq<char>>,
    formats: Seq<FieldFormat>,
)
    requires
        fields.len() == formats.len() + 1,
    ensures
        !overflows(fields, formats),
        reconciled(filing_id, fields, formats) == typed(filing_id, fields.drop_last(), formats),
{
    assert(reconciled(filing_id, fields, formats) =~= typed(
        filing_id,
        fields.drop_last(),
        formats,
    ));
}

/// A field that is no compact date stays text in a date column, unchanged;
/// so does a date that is in ISO form already, which is longer than a
/// compact one.
pub proof fn lemma_only_compact_dates_change(raw: Seq<char>)
    ensures
        !is_compact_date(raw) ==> coerce(FieldFormat::Date, raw) == ValueView::Text(raw),
        raw.len() != 8 ==> coerce(FieldFormat::Date, raw) == ValueView::Text(raw),
        is_compact_date(raw) ==> coerce(FieldFormat::Date, dashed(raw)) == ValueView::Text(
            dashed(raw),
        ),
{
}

/// Tells whether `names` holds `name`.
fn holds(names: &Vec<String>, name: &str) -> (b: bool)
    ensures
        b == names.deep_view().contains(name@),
{
    let n: usize = names.len();
    let mut i: usize = 0;
    while i < n
        invariant
            i <= n,
            n == names.len(),
            forall|j: int| 0 <= j < i ==> names.deep_view()[j] != name@,
        decreases n - i,
    {
        if str_eq(names[i].as_str(), name) {
            assert(names.deep_view()[i as int] == name@);
            return true;
        }
        i = i + 1;
    }
    false
}

/// The format of the column called `name`.
pub fn column_format(catalog: &SchemaCatalog, name: &str) -> (format: FieldFormat)
    ensures
        format == format_of(catalog@, name@),
{
    if holds(catalog.date_columns(), name) {
        FieldFormat::Date
    } else if holds(catalog.float_columns(), name) {
        FieldFormat::Float
    } else {
        FieldFormat::Text
    }
}

/// The formats of `columns`, one for each.
pub fn column_formats(catalog: &SchemaCatalog, columns: &Vec<String>) -> (formats: Vec<FieldFormat>)
    ensures
        formats@ == formats_of(catalog@, columns.deep_view()),
{
    let n: usize = columns.len();
    let mut formats: Vec<FieldFormat> = Vec::new();
    let mut i: usize = 0;
    while i < n
        invariant
            i <= n,
            n == columns.len(),
            formats.len() == i,
            forall|j: int|
                0 <= j < i ==> formats[j] == format_of(catalog@, #[trigger] columns.deep_view()[j]),
        decreases n - i,
    {
        formats.push(column_format(catalog, columns[i].as_str()));
        i = i + 1;
    }
    proof {
        assert(formats@ =~= formats_of(catalog@, columns.deep_view()));
    }
    formats
}

/// Types the field `field` of a column of the format `format`.
pub fn coerce_field(format: FieldFormat, field: &str) -> (value: FieldValue)
    ensures
        value@ == coerce(format, field@),
{
    match format {
        FieldFormat::Text => FieldValue::Text(field.to_owned()),
        FieldFormat::Date => {
            if is_fec_date(field) {
                FieldValue::Date(try_format_fec_date(field))
            } else {
                FieldValue::Text(field.to_owned())
            }
        },
        FieldFormat::Float => {
            if is_float(field) {
                FieldValue::Float(field.to_owned())
            } else {
                FieldValue::Text(field.to_owned())
            }
        },
    }
}

/// Fits the fields of `row` to its schema, whose columns have the formats
/// `formats`, for the filing `filing_id`.
pub fn reconcile(filing_id: &str, row: &FilingRow, formats: &Vec<FieldFormat>) -> (r: Reconciled)
    ensures
        views(r.values@) == reconciled(filing_id@, row.record.texts(), formats@),
        r.values.len() == formats.len() + 1,
        r.warnings.len() == if overflows(row.record.texts(), formats@) {
            1nat
        } else {
            0nat
        },
        forall|i: int|
            0 <= i < r.warnings.len() ==> {
                &&& (#[trigger] r.warnings[i]).filing_id@ == filing_id@
                &&& r.warnings[i].line == row.record.line
                &&& r.warnings[i].byte == row.record.byte
                &&& r.warnings[i].fields == row.record.fields.len()
                &&& r.warnings[i].columns == formats.len()
            },
{
    let fields = &row.record.fields;
    let n: usize = fields.len();
    let m: usize = formats.len();
    let ghost texts = row.record.texts();
    let ghost target = reconciled(filing_id@, texts, formats@);
    let kept: usize = if n > 0 && n - 1 == m {
        m
    } else if n > m {
        m
    } else {
        n
    };
    let mut warnings: Vec<RowWarning> = Vec::new();
    if n > m && n - 1 != m {
        warnings.push(
            RowWarning {
                filing_id: filing_id.to_owned(),
                line: row.record.line,
                byte: row.record.byte,
                fields: n,
                columns: m,
            },
        );
    }
    proof {
        lemma_reconciled_width(filing_id@, texts, formats@);
    }
    let mut values: Vec<FieldValue> = Vec::new();
    values.push(FieldValue::Text(filing_id.to_owned()));
    let mut i: usize = 0;
    while i < kept
        invariant
            i <= kept,
            kept <= m,
            kept <= n,
            n == fields.len(),
            m == formats.len(),
            fields == &row.record.fields,
            texts == row.record.texts(),
            target == reconciled(filing_id@, texts, formats@),
            target.len() == m + 1,
            values.len() == i + 1,
            forall|j: int| 0 <= j < values.len() ==> (#[trigger] values[j])@ == target[j],
        decreases kept - i,
    {
        let value = coerce_field(formats[i], fields[i].as_str());
        proof {
            assert(texts[i as int] == fields[i as int]@);
            assert(typed(filing_id@, texts, formats@)[i + 1] == coerce(
                format_at(formats@, i as int),
                texts[i as int],
            ));
            assert(target[i + 1] == value@);
        }
        values.push(value);
        i = i + 1;
    }
    while i < m
        invariant
            kept <= i <= m,
            kept == n || kept == m,
            n == texts.len(),
            m == formats.len(),
            texts == row.record.texts(),
            target == reconciled(filing_id@, texts, formats@),
            target.len() == m + 1,
            values.len() == i + 1,
            forall|j: int| 0 <= j < values.len() ==> (#[trigger] values[j])@ == target[j],
        decreases m - i,
    {
        let value = FieldValue::Text(String::new());
        proof {
            let all = typed(filing_id@, texts, formats@);
            assert(kept == n);
            assert(all.len() == n + 1);
            assert(without_trailing(all, (m + 1) as nat) == all);
            assert(target == fitted(all, (m + 1) as nat));
            assert(target[i + 1] == ValueView::Text(Seq::<char>::empty()));
        }
        values.push(value);
        i = i + 1;
    }
    proof {
        assert(views(values@) =~= target);
    }
    Reconciled { values, warnings }
}

} // verus!
