//! Mapping of search filters to the query of the search service.

use vstd::prelude::*;

use crate::model::{opt_view, SearchJobsParams};
use crate::text::{join, join_strings, same_text, views};

verus! {

/// What `str::to_lowercase` returns for the given characters.
pub uninterp spec fn lower_of(s: Seq<char>) -> Seq<char>;

/// What `urlencoding::encode` returns for the given characters.
pub uninterp spec fn url_encoded(s: Seq<char>) -> Seq<char>;

/// Every character is ASCII.
pub open spec fn is_ascii_text(s: Seq<char>) -> bool {
    forall|i: int| 0 <= i < s.len() ==> (#[trigger] s[i] as u32) < 128
}

/// An ASCII capital letter made small; any other character unchanged.
pub open spec fn ascii_lower_char(c: char) -> char {
    if 'A' <= c && c <= 'Z' {
        ((c as u32) + 32) as char
    } else {
        c
    }
}

/// The text with each ASCII capital letter made small.
pub open spec fn ascii_lowercase(s: Seq<char>) -> Seq<char> {
    s.map_values(|c: char| ascii_lower_char(c))
}

/// A character that percent-encoding leaves as it is.
pub open spec fn is_unreserved(c: char) -> bool {
    ('0' <= c && c <= '9') || ('A' <= c && c <= 'Z') || ('a' <= c && c <= 'z') || c == '-'
        || c == '.' || c == '_' || c == '~'
}

/// Relies on `str::to_lowercase`: the result depends on the characters alone,
/// and on ASCII text it turns the letters `A` to `Z` into `a` to `z` and keeps
/// every other character.
#[verifier::external_body]
fn lowercase(s: &str) -> (r: String)
    ensures
        r@ == lower_of(s@),
        is_ascii_text(s@) ==> r@ == ascii_lowercase(s@),
{
    s.to_lowercase()
}

/// Relies on `urlencoding::encode`: percent-encodes every byte but ASCII
/// letters, digits, `-`, `.`, `_` and `~`, which it keeps.
#[verifier::external_body]
pub(crate) fn url_encode(s: &str) -> (r: String)
    ensures
        r@ == url_encoded(s@),
        (forall|i: int| 0 <= i < s@.len() ==> is_unreserved(#[trigger] s@[i])) ==> r@ == s@,
{
    urlencoding::encode(s).into_owned()
}

/// The short code of an already lower-cased employment-type tag; none for a
/// tag outside the vocabulary.
pub open spec fn employment_code(t: Seq<char>) -> Option<Seq<char>> {
    if t == "fulltime"@ || t == "full"@ || t == "vollzeit"@ || t == "vz"@ {
        Some("vz"@)
    } else if t == "parttime"@ || t == "part"@ || t == "teilzeit"@ || t == "tz"@ {
        Some("tz"@)
    } else if t == "mini"@ || t == "minijob"@ || t == "mini_job"@ {
        Some("minijob"@)
    } else if t == "home"@ || t == "homeoffice"@ || t == "home_office"@ || t == "ho"@ {
        Some("ho"@)
    } else if t == "shift"@ || t == "schicht"@ || t == "snw"@ {
        Some("snw"@)
    } else {
        None
    }
}

/// Each short code is one of its own synonyms, so mapping a code again
/// gives the same code.
pub proof fn lemma_employment_code_idempotent(t: Seq<char>)
    ensures
        employment_code(t) matches Some(c) ==> employment_code(c) == Some(c),
{
    reveal_strlit("fulltime");
    reveal_strlit("full");
    reveal_strlit("vollzeit");
    reveal_strlit("vz");
    reveal_strlit("parttime");
    reveal_strlit("part");
    reveal_strlit("teilzeit");
    reveal_strlit("tz");
    reveal_strlit("mini");
    reveal_strlit("minijob");
    reveal_strlit("mini_job");
    reveal_strlit("home");
    reveal_strlit("homeoffice");
    reveal_strlit("home_office");
    reveal_strlit("ho");
    reveal_strlit("shift");
    reveal_strlit("schicht");
    reveal_strlit("snw");
}

/// The short codes of the tags, in order, with unknown tags dropped.
pub open spec fn employment_codes(tags: Seq<Seq<char>>) -> Seq<Seq<char>>
    decreases tags.len(),
{
    if tags.len() == 0 {
        Seq::empty()
    } else {
        let rest = employment_codes(tags.drop_last());
        match employment_code(lower_of(tags.last())) {
            Some(c) => rest.push(c),
            None => rest,
        }
    }
}

/// The page size asked for, or the default, capped at the maximum.
pub open spec fn page_size_of(requested: Option<u64>, default: u64, max: u64) -> u64 {
    let wanted = match requested {
        Some(n) => n,
        None => default,
    };
    if wanted <= max { wanted } else { max }
}

/// The present free-text terms: title, employer, branch.
pub open spec fn free_text_terms(p: SearchJobsParams) -> Seq<Seq<char>> {
    opt_as_seq(opt_view(p.job_title)) + opt_as_seq(opt_view(p.employer)) + opt_as_seq(
        opt_view(p.branch),
    )
}

/// An absent value as an empty sequence, a present one as a single item.
pub open spec fn opt_as_seq(o: Option<Seq<char>>) -> Seq<Seq<char>> {
    match o {
        Some(s) => seq![s],
        None => Seq::empty(),
    }
}

/// The search text: the free-text terms joined by single spaces; none when
/// there is no term.
pub open spec fn search_text(p: SearchJobsParams) -> Option<Seq<char>> {
    let terms = free_text_terms(p);
    if terms.len() == 0 {
        None
    } else {
        Some(join(terms, " "@))
    }
}

/// The query of one search, with the service's parameter names.
#[derive(Debug, Clone)]
pub struct SearchParams {
    pub was: Option<String>,
    pub wo: Option<String>,
    pub umkreis: Option<u64>,
    pub size: Option<u64>,
    pub page: Option<u64>,
    pub veroeffentlichtseit: Option<u64>,
    pub arbeitszeit: Option<Vec<String>>,
}

/// The query `q` is the one built from the filters `p` under the given page sizes.
pub open spec fn query_of(p: SearchJobsParams, default_page_size: u64, max_page_size: u64, q: SearchParams) -> bool {
    &&& opt_view(q.was) == search_text(p)
    &&& q.wo == p.location
    &&& q.umkreis == p.radius_km
    &&& q.size == Some(page_size_of(p.page_size, default_page_size, max_page_size))
    &&& q.page == p.page
    &&& q.veroeffentlichtseit == p.published_since_days
    &&& match p.employment_type {
        Some(tags) => match q.arbeitszeit {
            Some(codes) => views(codes@) == employment_codes(views(tags@)),
            None => false,
        },
        None => q.arbeitszeit is None,
    }
}

/// The short code of a lower-cased employment-type tag.
pub fn employment_code_of_lowercase(t: &String) -> (r: Option<String>)
    ensures
        opt_view(r) == employment_code(t@),
{
    if same_text(t, "fulltime") || same_text(t, "full") || same_text(t, "vollzeit") || same_text(
        t,
        "vz",
    ) {
        Some(String::from_str("vz"))
    } else if same_text(t, "parttime") || same_text(t, "part") || same_text(t, "teilzeit")
        || same_text(t, "tz") {
        Some(String::from_str("tz"))
    } else if same_text(t, "mini") || same_text(t, "minijob") || same_text(t, "mini_job") {
        Some(String::from_str("minijob"))
    } else if same_text(t, "home") || same_text(t, "homeoffice") || same_text(t, "home_office")
        || same_text(t, "ho") {
        Some(String::from_str("ho"))
    } else if same_text(t, "shift") || same_text(t, "schicht") || same_text(t, "snw") {
        Some(String::from_str("snw"))
    } else {
        None
    }
}

/// The short code of an employment-type tag, compared without regard to case.
pub fn parse_employment_type(emp_type: &str) -> (r: Option<String>)
    ensures
        opt_view(r) == employment_code(lower_of(emp_type@)),
        is_ascii_text(emp_type@) ==> opt_view(r) == employment_code(ascii_lowercase(emp_type@)),
{
    let lower = lowercase(emp_type);
    employment_code_of_lowercase(&lower)
}

/// The short codes of the tags, in order, with unknown tags dropped.
pub fn parse_employment_types(tags: &Vec<String>) -> (r: Vec<String>)
    ensures
        views(r@) == employment_codes(views(tags@)),
{
    let mut codes: Vec<String> = Vec::new();
    let mut i: usize = 0;
    while i < tags.len()
        invariant
            i <= tags@.len(),
            views(codes@) == employment_codes(views(tags@.take(i as int))),
        decreases tags@.len() - i,
    {
        let ghost before = views(tags@.take(i as int));
        let ghost after = views(tags@.take(i as int + 1));
        assert(after.drop_last() =~= before);
        assert(after.last() == tags@[i as int]@);
        match parse_employment_type(tags[i].as_str()) {
            Some(c) => {
                let ghost old_codes = codes@;
                codes.push(c);
                assert(views(codes@) =~= views(old_codes).push(c@));
            },
            None => {},
        }
        i = i + 1;
    }
    assert(tags@.take(tags@.len() as int) =~= tags@);
    codes
}

/// The page size asked for, or the default, capped at the maximum.
pub fn effective_page_size(requested: Option<u64>, default_page_size: u64, max_page_size: u64) -> (r: u64)
    ensures
        r == page_size_of(requested, default_page_size, max_page_size),
        r <= max_page_size,
{
    let wanted = match requested {
        Some(n) => n,
        None => default_page_size,
    };
    if wanted <= max_page_size {
        wanted
    } else {
        max_page_size
    }
}

fn push_term(terms: &mut Vec<String>, term: &Option<String>)
    ensures
        views(final(terms)@) == views(old(terms)@) + opt_as_seq(opt_view(*term)),
{
    match term {
        Some(t) => {
            terms.push(t.clone());
        },
        None => {},
    }
    assert(views(final(terms)@) =~= views(old(terms)@) + opt_as_seq(opt_view(*term)));
}

/// Builds the query of a search from its filters and the configured page sizes.
pub fn build_search_params(params: &SearchJobsParams, default_page_size: u64, max_page_size: u64) -> (q: SearchParams)
    ensures
        query_of(*params, default_page_size, max_page_size, q),
{
    let mut terms: Vec<String> = Vec::new();
    push_term(&mut terms, &params.job_title);
    push_term(&mut terms, &params.employer);
    push_term(&mut terms, &params.branch);
    assert(views(terms@) =~= free_text_terms(*params));
    let was = if terms.len() == 0 {
        None
    } else {
        Some(join_strings(&terms, " "))
    };
    let arbeitszeit = match &params.employment_type {
        Some(tags) => Some(parse_employment_types(tags)),
        None => None,
    };
    SearchParams {
        was,
        wo: crate::model::copy_opt(&params.location),
        umkreis: params.radius_km,
        size: Some(effective_page_size(params.page_size, default_page_size, max_page_size)),
        page: params.page,
        veroeffentlichtseit: params.published_since_days,
        arbeitszeit,
    }
}

} // verus!
