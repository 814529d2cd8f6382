//! Where a filing is found: the id that a user's input names, and the address
//! at which the commission posts a filing.

use crate::text::{begins_with, starts_with, trim, trimmed};
use vstd::prelude::*;
use vstd::string::*;

verus! {

/// How filings are looked up.
#[derive(Debug, Clone)]
pub struct FilingSourcer {
    /// The directory in which fetched filings are kept, where there is one.
    pub cache_directory: Option<String>,
}

impl FilingSourcer {
    /// A sourcer that keeps what it fetched in `cache_directory`.
    pub fn new(cache_directory: Option<String>) -> (sourcer: FilingSourcer)
        ensures
            sourcer.cache_directory == cache_directory,
    {
        FilingSourcer { cache_directory }
    }
}

/// The filing id that `input` names: `input` without the `FEC-` or `FEC`
/// that it may begin with.
pub open spec fn filing_id_in(input: Seq<char>) -> Seq<char> {
    if begins_with(input, "FEC-"@) {
        input.skip("FEC-"@.len() as int)
    } else if begins_with(input, "FEC"@) {
        input.skip("FEC"@.len() as int)
    } else {
        input
    }
}

/// The address at which the filing with the id `filing_id` is posted.
pub open spec fn posted_at(filing_id: Seq<char>) -> Seq<char> {
    "https://docquery.fec.gov/dcdev/posted/"@ + filing_id + ".fec"@
}

/// Whether a line of a list of filing ids names one: it is not empty and no
/// comment.
pub open spec fn names_filing(line: Seq<char>) -> bool {
    line.len() > 0 && !begins_with(line, "#"@)
}

/// The filing ids that the lines of a list name: each line trimmed, without
/// the empty lines and the comments.
pub open spec fn filing_ids_in(lines: Seq<Seq<char>>) -> Seq<Seq<char>> {
    lines.map_values(|line: Seq<char>| trimmed(line)).filter(
        |line: Seq<char>| names_filing(line),
    )
}

/// `s` from its character at index `from` on.
fn rest_of(s: &str, from: usize) -> (r: String)
    requires
        from <= s@.len(),
    ensures
        r@ == s@.skip(from as int),
{
    let n: usize = s.unicode_len();
    s.substring_char(from, n).to_owned()
}

/// The filing id that `input` names.
pub fn filing_id_of(input: &str) -> (id: String)
    ensures
        id@ == filing_id_in(input@),
{
    proof {
        reveal_strlit("FEC-");
        reveal_strlit("FEC");
    }
    if starts_with(input, "FEC-") {
        rest_of(input, 4)
    } else if starts_with(input, "FEC") {
        rest_of(input, 3)
    } else {
        input.to_owned()
    }
}

/// The address at which the filing with the id `filing_id` is posted.
pub fn posted_url(filing_id: &str) -> (url: String)
    ensures
        url@ == posted_at(filing_id@),
{
    let mut url = String::from_str("https://docquery.fec.gov/dcdev/posted/");
    url.append(filing_id);
    url.append(".fec");
    url
}

/// The filing ids that the lines of a list name.
pub fn filing_ids(lines: &Vec<String>) -> (ids: Vec<String>)
    ensures
        ids.deep_view() == filing_ids_in(lines.deep_view()),
{
    let ghost texts = lines.deep_view();
    let ghost short = texts.map_values(|line: Seq<char>| trimmed(line));
    let ghost wanted = |line: Seq<char>| names_filing(line);
    let n: usize = lines.len();
    let mut ids: Vec<String> = Vec::new();
    let mut i: usize = 0;
    proof {
        reveal(Seq::filter);
        assert(short.take(0).filter(wanted) =~= Seq::<Seq<char>>::empty());
    }
    while i < n
        invariant
            i <= n,
            n == lines.len(),
            texts == lines.deep_view(),
            short == texts.map_values(|line: Seq<char>| trimmed(line)),
            wanted == (|line: Seq<char>| names_filing(line)),
            ids.deep_view() == short.take(i as int).filter(wanted),
        decreases n - i,
    {
        let line = trim(lines[i].as_str());
        proof {
            let next = short.take(i + 1);
            assert(next.drop_last() == short.take(i as int));
            assert(next.last() == line@);
            reveal(Seq::filter);
        }
        if !line.is_empty() && !starts_with(line, "#") {
            let ghost before = ids.deep_view();
            ids.push(line.to_owned());
            proof {
                assert(ids.deep_view() =~= before.push(line@));
            }
        }
        i = i + 1;
    }
    proof {
        assert(short.take(n as int) == short);
    }
    ids
}

} // verus!
