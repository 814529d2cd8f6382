//! The schema catalog: which columns a record has, given its form type and the
//! format version that the filing declares.
//!
//! The catalog is an ordered table of form-type patterns. Each pattern has an
//! ordered table of version patterns, and each of those a list of column
//! names. Patterns are regular expressions, matched without regard to case;
//! where several match, the first in the table wins.

use vstd::prelude::*;

verus! {

/// `regex::RegexSet`, carried as an opaque value.
#[verifier::external_type_specification]
#[verifier::external_body]
pub struct ExRegexSet(regex::RegexSet);

/// `regex::Error`, carried as an opaque value.
#[verifier::external_type_specification]
#[verifier::external_body]
pub struct ExRegexError(regex::Error);

/// The patterns that a `regex::RegexSet` was compiled from, in their order.
pub uninterp spec fn set_patterns(set: regex::RegexSet) -> Seq<Seq<char>>;

/// Whether a `regex::RegexSet` was compiled to match without regard to case.
pub uninterp spec fn set_ignores_case(set: regex::RegexSet) -> bool;

/// Whether `regex::RegexSetBuilder::build` accepts these patterns.
pub uninterp spec fn set_compiles(patterns: Seq<Seq<char>>, ignore_case: bool) -> bool;

/// Whether the regular expression `pattern` matches somewhere in `haystack`,
/// as `regex::RegexSet::matches` reports it for one pattern of a set.
pub uninterp spec fn pattern_matches(
    pattern: Seq<char>,
    ignore_case: bool,
    haystack: Seq<char>,
) -> bool;

/// `regex::RegexSetBuilder::new`, `case_insensitive` and `build`. Trusted:
/// whether the build succeeds depends on the patterns and the flag alone, and
/// the set that comes back holds the given patterns in the given order.
#[verifier::external_body]
fn compile_set(patterns: &Vec<String>, ignore_case: bool) -> (r: Result<
    regex::RegexSet,
    regex::Error,
>)
    ensures
        r is Ok <==> set_compiles(patterns.deep_view(), ignore_case),
        r matches Ok(set) ==> set_patterns(set) == patterns.deep_view() && set_ignores_case(set)
            == ignore_case,
{
    regex::RegexSetBuilder::new(patterns).case_insensitive(ignore_case).build()
}

/// Each index is smaller than the next.
pub open spec fn ascending(indices: Seq<usize>) -> bool {
    forall|a: int, b: int| 0 <= a < b < indices.len() ==> indices[a] < indices[b]
}

/// `regex::RegexSet::matches`, its matches collected. Trusted: the indices
/// come in ascending order, and an index is among them exactly when the
/// pattern at that index matches the haystack.
#[verifier::external_body]
fn matching_indices(set: &regex::RegexSet, haystack: &str) -> (r: Vec<usize>)
    ensures
        ascending(r@),
        forall|k: usize| #[trigger]
            r@.contains(k) == (k < set_patterns(*set).len() && pattern_matches(
                set_patterns(*set)[k as int],
                set_ignores_case(*set),
                haystack@,
            )),
{
    set.matches(haystack).into_iter().collect()
}

/// Whether the catalog pattern `pattern` matches `text`: a search anywhere in
/// `text`, without regard to case.
pub open spec fn is_match(pattern: Seq<char>, text: Seq<char>) -> bool {
    pattern_matches(pattern, true, text)
}

/// The first index at or after `from` whose pattern matches `text`.
pub open spec fn first_match_from(patterns: Seq<Seq<char>>, text: Seq<char>, from: int) -> Option<
    int,
>
    decreases patterns.len() - from,
{
    if from < 0 || from >= patterns.len() {
        None
    } else if is_match(patterns[from], text) {
        Some(from)
    } else {
        first_match_from(patterns, text, from + 1)
    }
}

/// The index of the first pattern that matches `text`.
pub open spec fn first_match(patterns: Seq<Seq<char>>, text: Seq<char>) -> Option<int> {
    first_match_from(patterns, text, 0)
}

/// `first_match_from` finds a matching pattern, none before it matches, and
/// it finds none only where there is none.
pub proof fn lemma_first_match_from(patterns: Seq<Seq<char>>, text: Seq<char>, from: int)
    requires
        0 <= from,
    ensures
        match first_match_from(patterns, text, from) {
            Some(i) => {
                &&& from <= i < patterns.len()
                &&& is_match(patterns[i], text)
                &&& forall|j: int| from <= j < i ==> !is_match(#[trigger] patterns[j], text)
            },
            None => forall|j: int|
                from <= j < patterns.len() ==> !is_match(#[trigger] patterns[j], text),
        },
    decreases patterns.len() - from,
{
    if from < patterns.len() && !is_match(patterns[from], text) {
        lemma_first_match_from(patterns, text, from + 1);
    }
}

/// Why a lookup in the catalog found no columns.
#[derive(Debug, Clone, Copy, PartialEq, Eq, Structural)]
pub enum ResolutionError {
    /// No form-type pattern matches the record's type.
    UnknownFormType,
    /// The form type is known, but none of its version patterns matches.
    UnknownVersion,
}

/// Why a catalog could not be built from its tables.
#[derive(Debug)]
pub enum CatalogError {
    /// The three tables do not have the same shape.
    Mismatched,
    /// Some version of some form type has no columns.
    EmptyColumns,
    /// A pattern is not a regular expression that the matcher accepts.
    Pattern(regex::Error),
}

/// What a catalog holds.
pub struct CatalogView {
    /// The form-type patterns, in the order in which they are tried.
    pub form_types: Seq<Seq<char>>,
    /// For each form type, its version patterns in the order in which they
    /// are tried.
    pub version_patterns: Seq<Seq<Seq<char>>>,
    /// For each form type and each of its versions, the column names.
    pub column_names: Seq<Seq<Seq<Seq<char>>>>,
    /// The names of the columns that hold dates.
    pub date_columns: Seq<Seq<char>>,
    /// The names of the columns that hold numbers.
    pub float_columns: Seq<Seq<char>>,
}

/// There is one table of versions and one of columns for each form type, and
/// one column list for each version.
pub open spec fn tables_fit(
    form_types: Seq<Seq<char>>,
    version_patterns: Seq<Seq<Seq<char>>>,
    column_names: Seq<Seq<Seq<Seq<char>>>>,
) -> bool {
    &&& version_patterns.len() == form_types.len()
    &&& column_names.len() == form_types.len()
    &&& forall|i: int|
        0 <= i < form_types.len() ==> (#[trigger] version_patterns[i]).len()
            == column_names[i].len()
}

/// No column list is empty.
pub open spec fn columns_present(column_names: Seq<Seq<Seq<Seq<char>>>>) -> bool {
    forall|i: int, j: int|
        0 <= i < column_names.len() && 0 <= j < column_names[i].len() ==> (
        #[trigger] column_names[i][j]).len() > 0
}

/// The matcher accepts the form-type patterns and every table of version
/// patterns.
pub open spec fn patterns_compile(
    form_types: Seq<Seq<char>>,
    version_patterns: Seq<Seq<Seq<char>>>,
) -> bool {
    &&& set_compiles(form_types, true)
    &&& forall|i: int|
        0 <= i < version_patterns.len() ==> set_compiles(#[trigger] version_patterns[i], true)
}

/// The shape that every catalog has.
pub open spec fn well_formed(catalog: CatalogView) -> bool {
    &&& tables_fit(catalog.form_types, catalog.version_patterns, catalog.column_names)
    &&& columns_present(catalog.column_names)
}

/// The index of the form-type pattern under which `row_type` falls.
pub open spec fn family_of(catalog: CatalogView, row_type: Seq<char>) -> Option<int> {
    first_match(catalog.form_types, row_type)
}

/// The index, within the form type `family`, of the version pattern under
/// which `fec_version` falls.
pub open spec fn version_of(catalog: CatalogView, family: int, fec_version: Seq<char>) -> Option<
    int,
> {
    if 0 <= family < catalog.version_patterns.len() {
        first_match(catalog.version_patterns[family], fec_version)
    } else {
        None
    }
}

/// The columns of a record of type `row_type` in a filing of version
/// `fec_version`: those of the first form-type pattern that matches the type
/// and, within it, of the first version pattern that matches the version.
pub open spec fn resolve(catalog: CatalogView, row_type: Seq<char>, fec_version: Seq<char>) -> Result<
    Seq<Seq<char>>,
    ResolutionError,
> {
    match family_of(catalog, row_type) {
        None => Err(ResolutionError::UnknownFormType),
        Some(i) => match version_of(catalog, i, fec_version) {
            None => Err(ResolutionError::UnknownVersion),
            Some(j) => Ok(catalog.column_names[i][j]),
        },
    }
}

/// Whatever a well-formed catalog resolves has at least one column, and the
/// indices it was found under lie within the tables.
pub proof fn lemma_resolved_columns(
    catalog: CatalogView,
    row_type: Seq<char>,
    fec_version: Seq<char>,
)
    requires
        well_formed(catalog),
    ensures
        resolve(catalog, row_type, fec_version) matches Ok(columns) ==> {
            &&& columns.len() > 0
            &&& family_of(catalog, row_type) matches Some(i) && 0 <= i < catalog.form_types.len()
                && (version_of(catalog, i, fec_version) matches Some(j) && 0 <= j
                < catalog.column_names[i].len() && columns == catalog.column_names[i][j])
        },
{
    lemma_first_match_from(catalog.form_types, row_type, 0);
    if let Some(i) = family_of(catalog, row_type) {
        assert(catalog.version_patterns[i].len() == catalog.column_names[i].len());
        lemma_first_match_from(catalog.version_patterns[i], fec_version, 0);
    }
}

/// The index of the first pattern of `set` that matches `text`.
fn first_index(set: &regex::RegexSet, text: &str) -> (r: Option<usize>)
    requires
        set_ignores_case(*set),
        set_patterns(*set).len() <= usize::MAX,
    ensures
        match r {
            Some(i) => first_match(set_patterns(*set), text@) == Some(i as int),
            None => first_match(set_patterns(*set), text@) is None,
        },
{
    let found = matching_indices(set, text);
    proof {
        lemma_first_match_from(set_patterns(*set), text@, 0);
    }
    if found.len() == 0 {
        proof {
            if let Some(i) = first_match(set_patterns(*set), text@) {
                assert(found@.contains(i as usize));
            }
        }
        None
    } else {
        let first: usize = found[0];
        proof {
            let patterns = set_patterns(*set);
            assert(found@.contains(first));
            assert forall|j: int| 0 <= j < first implies !is_match(#[trigger] patterns[j], text@) by {
                if is_match(patterns[j], text@) {
                    assert(found@.contains(j as usize));
                    let a = choose|a: int| 0 <= a < found.len() && found[a] == j as usize;
                    if a > 0 {
                        assert(found[0] < found[a]);
                    }
                }
            }
            match first_match(patterns, text@) {
                Some(i) => {
                    if i < first {
                        assert(!is_match(patterns[i], text@));
                    }
                },
                None => {
                    assert(!is_match(patterns[first as int], text@));
                },
            }
        }
        Some(first)
    }
}

/// The schema catalog. It is built once and only read afterwards.
pub struct SchemaCatalog {
    form_types: Vec<String>,
    form_types_set: regex::RegexSet,
    version_patterns: Vec<Vec<String>>,
    form_type_versions_set: Vec<regex::RegexSet>,
    column_names: Vec<Vec<Vec<String>>>,
    date_columns: Vec<String>,
    float_columns: Vec<String>,
}

impl View for SchemaCatalog {
    type V = CatalogView;

    closed spec fn view(&self) -> CatalogView {
        CatalogView {
            form_types: self.form_types.deep_view(),
            version_patterns: self.version_patterns.deep_view(),
            column_names: self.column_names.deep_view(),
            date_columns: self.date_columns.deep_view(),
            float_columns: self.float_columns.deep_view(),
        }
    }
}

impl SchemaCatalog {
    /// The tables have the shape of a catalog, and each compiled set holds
    /// the patterns of its table.
    pub closed spec fn wf(&self) -> bool {
        &&& well_formed(self@)
        &&& set_patterns(self.form_types_set) == self@.form_types
        &&& set_ignores_case(self.form_types_set)
        &&& self.form_type_versions_set.len() == self.form_types.len()
        &&& forall|i: int|
            0 <= i < self.form_type_versions_set.len() ==> set_patterns(
                #[trigger] self.form_type_versions_set[i],
            ) == self@.version_patterns[i] && set_ignores_case(self.form_type_versions_set[i])
    }

    #[verifier::type_invariant]
    spec fn inv(&self) -> bool {
        self.wf()
    }

    /// Builds a catalog from its tables: the form-type patterns, for each of
    /// them its version patterns, and for each of those its column names;
    /// then the names of the date columns and of the number columns.
    ///
    /// The tables are refused where their shapes differ, where a column list
    /// is empty, or where the matcher refuses a pattern, in this order.
    pub fn new(
        form_types: Vec<String>,
        version_patterns: Vec<Vec<String>>,
        column_names: Vec<Vec<Vec<String>>>,
        date_columns: Vec<String>,
        float_columns: Vec<String>,
    ) -> (r: Result<SchemaCatalog, CatalogError>)
        ensures
            match r {
                Ok(catalog) => {
                    &&& catalog.wf()
                    &&& well_formed(catalog@)
                    &&& patterns_compile(catalog@.form_types, catalog@.version_patterns)
                    &&& catalog@ == (CatalogView {
                        form_types: form_types.deep_view(),
                        version_patterns: version_patterns.deep_view(),
                        column_names: column_names.deep_view(),
                        date_columns: date_columns.deep_view(),
                        float_columns: float_columns.deep_view(),
                    })
                },
                Err(CatalogError::Mismatched) => !tables_fit(
                    form_types.deep_view(),
                    version_patterns.deep_view(),
                    column_names.deep_view(),
                ),
                Err(CatalogError::EmptyColumns) => {
                    &&& tables_fit(
                        form_types.deep_view(),
                        version_patterns.deep_view(),
                        column_names.deep_view(),
                    )
                    &&& !columns_present(column_names.deep_view())
                },
                Err(CatalogError::Pattern(_)) => {
                    &&& tables_fit(
                        form_types.deep_view(),
                        version_patterns.deep_view(),
                        column_names.deep_view(),
                    )
                    &&& columns_present(column_names.deep_view())
                    &&& !patterns_compile(form_types.deep_view(), version_patterns.deep_view())
                },
            },
    {
        let n: usize = form_types.len();
        if version_patterns.len() != n || column_names.len() != n {
            return Err(CatalogError::Mismatched);
        }
        let ghost ft = form_types.deep_view();
        let ghost vp = version_patterns.deep_view();
        let ghost cn = column_names.deep_view();
        let mut i: usize = 0;
        while i < n
            invariant
                i <= n,
                n == form_types.len(),
                n == version_patterns.len(),
                n == column_names.len(),
                vp == version_patterns.deep_view(),
                cn == column_names.deep_view(),
                forall|k: int| 0 <= k < i ==> (#[trigger] vp[k]).len() == cn[k].len(),
            decreases n - i,
        {
            if version_patterns[i].len() != column_names[i].len() {
                proof {
                    assert(vp[i as int].len() != cn[i as int].len());
                }
                return Err(CatalogError::Mismatched);
            }
            i = i + 1;
        }
        assert(tables_fit(ft, vp, cn));
        i = 0;
        while i < n
            invariant
                i <= n,
                n == column_names.len(),
                cn == column_names.deep_view(),
                ft == form_types.deep_view(),
                vp == version_patterns.deep_view(),
                tables_fit(ft, vp, cn),
                forall|k: int, j: int|
                    0 <= k < i && 0 <= j < cn[k].len() ==> (#[trigger] cn[k][j]).len() > 0,
            decreases n - i,
        {
            let lists = &column_names[i];
            let m: usize = lists.len();
            let mut j: usize = 0;
            while j < m
                invariant
                    j <= m,
                    i < n,
                    n == column_names.len(),
                    cn == column_names.deep_view(),
                    lists == &column_names[i as int],
                    m == lists.len(),
                    ft == form_types.deep_view(),
                vp == version_patterns.deep_view(),
                tables_fit(ft, vp, cn),
                    forall|l: int| 0 <= l < j ==> (#[trigger] cn[i as int][l]).len() > 0,
                decreases m - j,
            {
                if lists[j].len() == 0 {
                    proof {
                        assert(cn[i as int].len() == m);
                        assert(cn[i as int][j as int].len() == 0);
                        assert(!columns_present(cn));
                    }
                    return Err(CatalogError::EmptyColumns);
                }
                proof {
                    assert(cn[i as int][j as int].len() == lists[j as int].len());
                }
                j = j + 1;
            }
            i = i + 1;
        }
        assert(columns_present(cn));
        let form_types_set = match compile_set(&form_types, true) {
            Ok(set) => set,
            Err(e) => {
                return Err(CatalogError::Pattern(e));
            },
        };
        let mut sets: Vec<regex::RegexSet> = Vec::new();
        i = 0;
        while i < n
            invariant
                i <= n,
                n == version_patterns.len(),
                vp == version_patterns.deep_view(),
                sets.len() == i,
                ft == form_types.deep_view(),
                vp == version_patterns.deep_view(),
                tables_fit(ft, vp, cn),
                cn == column_names.deep_view(),
                columns_present(cn),
                set_compiles(ft, true),
                forall|k: int|
                    0 <= k < i ==> set_patterns(#[trigger] sets[k]) == vp[k] && set_ignores_case(
                        sets[k],
                    ),
                forall|k: int| 0 <= k < i ==> set_compiles(#[trigger] vp[k], true),
            decreases n - i,
        {
            match compile_set(&version_patterns[i], true) {
                Ok(set) => {
                    sets.push(set);
                },
                Err(e) => {
                    proof {
                        assert(vp.len() == n);
                        assert(!set_compiles(vp[i as int], true));
                        assert(!patterns_compile(ft, vp));
                    }
                    return Err(CatalogError::Pattern(e));
                },
            }
            i = i + 1;
        }
        Ok(
            SchemaCatalog {
                form_types,
                form_types_set,
                version_patterns,
                form_type_versions_set: sets,
                column_names,
                date_columns,
                float_columns,
            },
        )
    }

    /// The form-type patterns, in the order in which they are tried.
    pub fn form_types(&self) -> (r: &Vec<String>)
        ensures
            r.deep_view() == self@.form_types,
    {
        &self.form_types
    }

    /// For each form type, its version patterns.
    pub fn version_patterns(&self) -> (r: &Vec<Vec<String>>)
        ensures
            r.deep_view() == self@.version_patterns,
    {
        &self.version_patterns
    }

    /// For each form type and each of its versions, the column names.
    pub fn column_names(&self) -> (r: &Vec<Vec<Vec<String>>>)
        ensures
            r.deep_view() == self@.column_names,
    {
        &self.column_names
    }

    /// The names of the columns that hold dates.
    pub fn date_columns(&self) -> (r: &Vec<String>)
        ensures
            r.deep_view() == self@.date_columns,
    {
        &self.date_columns
    }

    /// The names of the columns that hold numbers.
    pub fn float_columns(&self) -> (r: &Vec<String>)
        ensures
            r.deep_view() == self@.float_columns,
    {
        &self.float_columns
    }

    /// The index of the first form-type pattern that matches `row_type`.
    pub fn family_idx(&self, row_type: &str) -> (r: Option<usize>)
        ensures
            well_formed(self@),
            match r {
                Some(i) => family_of(self@, row_type@) == Some(i as int) && i
                    < self@.form_types.len(),
                None => family_of(self@, row_type@) is None,
            },
    {
        proof {
            use_type_invariant(self);
            lemma_first_match_from(self@.form_types, row_type@, 0);
        }
        first_index(&self.form_types_set, row_type)
    }

    /// The index, within the form type at `family`, of the first version
    /// pattern that matches `fec_version`; none where there is no such form
    /// type.
    pub fn version_idx(&self, family: usize, fec_version: &str) -> (r: Option<usize>)
        ensures
            well_formed(self@),
            match r {
                Some(j) => version_of(self@, family as int, fec_version@) == Some(j as int)
                    && family < self@.form_types.len() && j
                    < self@.column_names[family as int].len(),
                None => version_of(self@, family as int, fec_version@) is None,
            },
    {
        proof {
            use_type_invariant(self);
        }
        if family >= self.form_type_versions_set.len() {
            return None;
        }
        proof {
            assert(self@.version_patterns[family as int].len()
                == self.version_patterns[family as int].len());
            lemma_first_match_from(self@.version_patterns[family as int], fec_version@, 0);
        }
        first_index(&self.form_type_versions_set[family], fec_version)
    }

    /// The columns of a record of type `row_type` in a filing that declares
    /// the version `fec_version`.
    pub fn resolve(&self, row_type: &str, fec_version: &str) -> (r: Result<
        &Vec<String>,
        ResolutionError,
    >)
        ensures
            well_formed(self@),
            match r {
                Ok(columns) => resolve(self@, row_type@, fec_version@) == Ok::<
                    Seq<Seq<char>>,
                    ResolutionError,
                >(columns.deep_view()) && columns.len() > 0,
                Err(e) => resolve(self@, row_type@, fec_version@) == Err::<
                    Seq<Seq<char>>,
                    ResolutionError,
                >(e),
            },
    {
        let i: usize = match self.family_idx(row_type) {
            Some(i) => i,
            None => {
                return Err(ResolutionError::UnknownFormType);
            },
        };
        let j: usize = match self.version_idx(i, fec_version) {
            Some(j) => j,
            None => {
                return Err(ResolutionError::UnknownVersion);
            },
        };
        proof {
            lemma_resolved_columns(self@, row_type@, fec_version@);
        }
        let columns = &self.column_names[i][j];
        proof {
            assert(columns.deep_view() == self@.column_names[i as int][j as int]);
            assert(columns.deep_view().len() == columns.len());
        }
        Ok(columns)
    }
}

/// The index of the first form-type pattern of the catalog that matches
/// `field`.
pub fn field_idx(catalog: &SchemaCatalog, field: &str) -> (r: Option<usize>)
    ensures
        match r {
            Some(i) => family_of(catalog@, field@) == Some(i as int) && i
                < catalog@.form_types.len(),
            None => family_of(catalog@, field@) is None,
        },
{
    catalog.family_idx(field)
}

/// The column names of a record of type `form_type` in a filing that declares
/// the version `fec_version`.
pub fn column_names_for_field<'a>(
    catalog: &'a SchemaCatalog,
    form_type: &str,
    fec_version: &str,
) -> (r: Result<&'a Vec<String>, ResolutionError>)
    ensures
        well_formed(catalog@),
        match r {
            Ok(columns) => resolve(catalog@, form_type@, fec_version@) == Ok::<
                Seq<Seq<char>>,
                ResolutionError,
            >(columns.deep_view()) && columns.len() > 0,
            Err(e) => resolve(catalog@, form_type@, fec_version@) == Err::<
                Seq<Seq<char>>,
                ResolutionError,
            >(e),
        },
{
    catalog.resolve(form_type, fec_version)
}

} // verus!
