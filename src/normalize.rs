//! Mapping of listing records to the stable result records, with the
//! fallbacks for missing fields.

use vstd::prelude::*;

use crate::model::{
    copy_opt, opt_view, ApiDateRange, ApiJobDetails, ApiJobListing, ApiSearchResponse,
    GetJobDetailsResult, JobSummary, SearchJobsResult,
};

verus! {

/// Address of the public page of a listing; the reference number follows it.
pub const CANONICAL_URL_PREFIX: &'static str = "https://www.arbeitsagentur.de/jobsuche/jobdetail/";

/// The public page of the listing with the given reference number.
pub open spec fn canonical_url(reference: Seq<char>) -> Seq<char> {
    CANONICAL_URL_PREFIX@ + reference
}

/// A postal code in parentheses: `"(10115)"`.
pub open spec fn parenthesized(p: Seq<char>) -> Seq<char> {
    "("@ + p + ")"@
}

/// The location line: the town, then the postal code in parentheses after a
/// space; the postal code alone when there is no town; empty when both are missing.
pub open spec fn location_text(town: Option<Seq<char>>, postal: Option<Seq<char>>) -> Seq<char> {
    match (town, postal) {
        (Some(t), Some(p)) => t + " ("@ + p + ")"@,
        (Some(t), None) => t,
        (None, Some(p)) => parenthesized(p),
        (None, None) => Seq::empty(),
    }
}

/// The entry period: `"{from} - {to}"`, `"ab {from}"`, `"bis {to}"`, or empty.
pub open spec fn entry_period_text(from: Option<Seq<char>>, to: Option<Seq<char>>) -> Seq<char> {
    match (from, to) {
        (Some(f), Some(t)) => f + " - "@ + t,
        (Some(f), None) => "ab "@ + f,
        (None, Some(t)) => "bis "@ + t,
        (None, None) => Seq::empty(),
    }
}

/// The title of a listing: its display title, else its occupation label.
pub open spec fn listing_title(l: ApiJobListing) -> Seq<char> {
    match l.titel {
        Some(t) => t@,
        None => l.beruf@,
    }
}

/// Where to apply for a listing: its external address, else its public page.
pub open spec fn listing_application_url(l: ApiJobListing) -> Seq<char> {
    match l.externe_url {
        Some(u) => u@,
        None => canonical_url(l.refnr@),
    }
}

/// The summary `s` is the normalized form of the listing `l`.
pub open spec fn summarizes(l: ApiJobListing, s: JobSummary) -> bool {
    &&& s.reference_number@ == l.refnr@
    &&& s.title@ == listing_title(l)
    &&& s.employer@ == l.arbeitgeber@
    &&& s.location@ == location_text(opt_view(l.arbeitsort.ort), opt_view(l.arbeitsort.plz))
    &&& s.published_date == l.aktuelle_veroeffentlichungsdatum
    &&& s.external_url == l.externe_url
    &&& s.application_url@ == listing_application_url(l)
}

/// The location of a detailed listing: its first workplace's town, with the
/// postal code in parentheses when there is one; missing without a town.
pub open spec fn detail_location(d: ApiJobDetails) -> Option<Seq<char>> {
    match d.arbeitsorte {
        Some(locs) => if locs@.len() > 0 {
            match locs@[0].adresse {
                Some(a) => match a.ort {
                    Some(o) => Some(location_text(Some(o@), opt_view(a.plz))),
                    None => None,
                },
                None => None,
            }
        } else {
            None
        },
        None => None,
    }
}

/// The entry period of a detailed listing: always present, and empty when
/// the record has no date range or a range with neither end.
pub open spec fn detail_entry_period(d: ApiJobDetails) -> Option<Seq<char>> {
    match d.eintrittszeitraum {
        Some(r) => Some(entry_period_text(opt_view(r.von), opt_view(r.bis))),
        None => Some(Seq::empty()),
    }
}

/// Where to apply for a detailed listing: its external address, else its
/// partner address, else its public page.
pub open spec fn detail_application_url(reference: Seq<char>, d: ApiJobDetails) -> Seq<char> {
    match d.externe_url {
        Some(u) => u@,
        None => match d.allianzpartner_url {
            Some(p) => p@,
            None => canonical_url(reference),
        },
    }
}

/// The working-time label of a full-time flag.
pub open spec fn employment_label(fulltime: Option<bool>) -> Option<Seq<char>> {
    match fulltime {
        Some(true) => Some("Vollzeit"@),
        Some(false) => Some("Teilzeit"@),
        None => None,
    }
}

/// The detail result `r` is the normalized form of the record `d` of `reference`.
pub open spec fn details_of(reference: Seq<char>, d: ApiJobDetails, r: GetJobDetailsResult) -> bool {
    &&& r.reference_number@ == reference
    &&& r.title == d.titel
    &&& r.description == d.stellenbeschreibung
    &&& r.employer == d.arbeitgeber
    &&& opt_view(r.location) == detail_location(d)
    &&& opt_view(r.employment_type) == employment_label(d.arbeitszeit_vollzeit)
    &&& r.salary == d.verguetung
    &&& r.contract_duration == d.vertragsdauer
    &&& r.job_type == d.stellenangebots_art
    &&& r.first_published == d.erste_veroeffentlichungsdatum
    &&& r.only_for_disabled == d.nur_fuer_schwerbehinderte
    &&& r.fulltime == d.arbeitszeit_vollzeit
    &&& opt_view(r.entry_period) == detail_entry_period(d)
    &&& r.is_minor_employment == d.ist_geringfuegige_beschaeftigung
    &&& r.is_temp_agency == d.ist_arbeitnehmer_ueberlassung
    &&& r.career_changer_suitable == d.quereinstieg_geeignet
    &&& r.external_url == d.externe_url
    &&& r.partner_url == d.allianzpartner_url
    &&& r.application_url@ == detail_application_url(reference, d)
}

/// `r` is the normalized form of the search response `resp`, taken in `duration_ms`.
pub open spec fn search_result_of(resp: ApiSearchResponse, duration_ms: u64, r: SearchJobsResult) -> bool {
    &&& r.jobs@.len() == resp.stellenangebote@.len()
    &&& r.jobs_count == r.jobs@.len()
    &&& forall|i: int|
        0 <= i < r.jobs@.len() ==> summarizes(#[trigger] resp.stellenangebote@[i], r.jobs@[i])
    &&& r.total_results == resp.max_ergebnisse
    &&& r.current_page == resp.page
    &&& r.page_size == resp.size
    &&& r.search_duration_ms == duration_ms
}

/// A listing without a display title takes its occupation label as title,
/// so the title is empty only when both are missing.
pub proof fn lemma_title_falls_back_to_occupation(l: ApiJobListing, s: JobSummary)
    requires
        summarizes(l, s),
        l.titel is None,
    ensures
        s.title@ == l.beruf@,
        l.beruf@.len() == 0 <==> s.title@.len() == 0,
{
}

/// The application address of a summary is the listing's external address when
/// it has one, else its public page, and never empty unless the external
/// address itself is.
pub proof fn lemma_listing_application_url(l: ApiJobListing, s: JobSummary)
    requires
        summarizes(l, s),
    ensures
        l.externe_url matches Some(u) ==> s.application_url@ == u@,
        l.externe_url is None ==> s.application_url@ == canonical_url(l.refnr@),
        (l.externe_url matches Some(u) ==> u@.len() > 0) ==> s.application_url@.len() > 0,
{
    reveal_strlit("https://www.arbeitsagentur.de/jobsuche/jobdetail/");
}

/// The application address of a detailed listing is its external address,
/// else its partner address, else its public page, and never empty unless the
/// address it takes is.
pub proof fn lemma_detail_application_url(reference: Seq<char>, d: ApiJobDetails, r: GetJobDetailsResult)
    requires
        details_of(reference, d, r),
    ensures
        d.externe_url matches Some(u) ==> r.application_url@ == u@,
        d.externe_url is None ==> (d.allianzpartner_url matches Some(p) ==> r.application_url@
            == p@),
        d.externe_url is None && d.allianzpartner_url is None ==> r.application_url@
            == canonical_url(reference),
        (d.externe_url matches Some(u) ==> u@.len() > 0) && (d.allianzpartner_url matches Some(p)
            ==> p@.len() > 0) ==> r.application_url@.len() > 0,
{
    reveal_strlit("https://www.arbeitsagentur.de/jobsuche/jobdetail/");
}

/// Two listings that agree on the fields the summary reads have the same
/// summary, whatever else they hold.
pub proof fn lemma_summary_reads_known_fields(
    a: ApiJobListing,
    b: ApiJobListing,
    sa: JobSummary,
    sb: JobSummary,
)
    requires
        summarizes(a, sa),
        summarizes(b, sb),
        a.refnr@ == b.refnr@,
        a.beruf@ == b.beruf@,
        opt_view(a.titel) == opt_view(b.titel),
        a.arbeitgeber@ == b.arbeitgeber@,
        opt_view(a.arbeitsort.ort) == opt_view(b.arbeitsort.ort),
        opt_view(a.arbeitsort.plz) == opt_view(b.arbeitsort.plz),
        a.aktuelle_veroeffentlichungsdatum == b.aktuelle_veroeffentlichungsdatum,
        a.externe_url == b.externe_url,
    ensures
        sa.reference_number@ == sb.reference_number@,
        sa.title@ == sb.title@,
        sa.employer@ == sb.employer@,
        sa.location@ == sb.location@,
        sa.published_date == sb.published_date,
        sa.external_url == sb.external_url,
        sa.application_url@ == sb.application_url@,
{
}

/// A response without listings normalizes to an empty job list.
pub proof fn lemma_no_listings_no_jobs(resp: ApiSearchResponse, duration_ms: u64, r: SearchJobsResult)
    requires
        search_result_of(resp, duration_ms, r),
        resp.stellenangebote@.len() == 0,
    ensures
        r.jobs@.len() == 0,
        r.jobs_count == 0,
{
}

/// The public page of the listing with the given reference number.
pub fn canonical_application_url(reference: &str) -> (r: String)
    ensures
        r@ == canonical_url(reference@),
{
    String::from_str(CANONICAL_URL_PREFIX).concat(reference)
}

/// Renders a location line from an optional town and postal code.
pub fn render_location(town: &Option<String>, postal: &Option<String>) -> (r: String)
    ensures
        r@ == location_text(opt_view(*town), opt_view(*postal)),
{
    match (town, postal) {
        (Some(t), Some(p)) => t.clone().concat(" (").concat(p.as_str()).concat(")"),
        (Some(t), None) => t.clone(),
        (None, Some(p)) => String::from_str("(").concat(p.as_str()).concat(")"),
        (None, None) => String::new(),
    }
}

/// Renders an entry period from its optional ends.
pub fn render_entry_period(from: &Option<String>, to: &Option<String>) -> (r: String)
    ensures
        r@ == entry_period_text(opt_view(*from), opt_view(*to)),
{
    match (from, to) {
        (Some(f), Some(t)) => f.clone().concat(" - ").concat(t.as_str()),
        (Some(f), None) => String::from_str("ab ").concat(f.as_str()),
        (None, Some(t)) => String::from_str("bis ").concat(t.as_str()),
        (None, None) => String::new(),
    }
}

/// Normalizes one listing of a search response.
pub fn normalize_job_listing(l: &ApiJobListing) -> (s: JobSummary)
    ensures
        summarizes(*l, s),
{
    let title = match &l.titel {
        Some(t) => t.clone(),
        None => l.beruf.clone(),
    };
    let application_url = match &l.externe_url {
        Some(u) => u.clone(),
        None => canonical_application_url(l.refnr.as_str()),
    };
    JobSummary {
        reference_number: l.refnr.clone(),
        title,
        employer: l.arbeitgeber.clone(),
        location: render_location(&l.arbeitsort.ort, &l.arbeitsort.plz),
        published_date: copy_opt(&l.aktuelle_veroeffentlichungsdatum),
        external_url: copy_opt(&l.externe_url),
        application_url,
    }
}

/// Normalizes a search response: one summary per listing, in order, and the
/// pagination figures as reported.
pub fn normalize_search_response(resp: &ApiSearchResponse, duration_ms: u64) -> (r: SearchJobsResult)
    ensures
        search_result_of(*resp, duration_ms, r),
{
    let mut jobs: Vec<JobSummary> = Vec::new();
    let mut i: usize = 0;
    while i < resp.stellenangebote.len()
        invariant
            i <= resp.stellenangebote@.len(),
            jobs@.len() == i,
            forall|j: int| 0 <= j < i ==> summarizes(#[trigger] resp.stellenangebote@[j], jobs@[j]),
        decreases resp.stellenangebote@.len() - i,
    {
        let s = normalize_job_listing(&resp.stellenangebote[i]);
        jobs.push(s);
        i = i + 1;
    }
    let jobs_count = jobs.len();
    SearchJobsResult {
        total_results: resp.max_ergebnisse,
        current_page: resp.page,
        page_size: resp.size,
        jobs_count,
        jobs,
        search_duration_ms: duration_ms,
    }
}

fn entry_period_of(range: &Option<ApiDateRange>) -> (r: Option<String>)
    ensures
        opt_view(r) == match *range {
            Some(dr) => Some(entry_period_text(opt_view(dr.von), opt_view(dr.bis))),
            None => Some(Seq::<char>::empty()),
        },
{
    match range {
        Some(dr) => Some(render_entry_period(&dr.von, &dr.bis)),
        None => Some(String::new()),
    }
}

fn location_of(d: &ApiJobDetails) -> (r: Option<String>)
    ensures
        opt_view(r) == detail_location(*d),
{
    match &d.arbeitsorte {
        Some(locs) => {
            if locs.len() > 0 {
                match &locs[0].adresse {
                    Some(a) => match &a.ort {
                        Some(o) => {
                            let town = Some(o.clone());
                            Some(render_location(&town, &a.plz))
                        },
                        None => None,
                    },
                    None => None,
                }
            } else {
                None
            }
        },
        None => None,
    }
}

/// Normalizes the detail record of the listing `reference`.
pub fn normalize_job_details(reference: &str, d: &ApiJobDetails) -> (r: GetJobDetailsResult)
    ensures
        details_of(reference@, *d, r),
{
    let application_url = match &d.externe_url {
        Some(u) => u.clone(),
        None => match &d.allianzpartner_url {
            Some(p) => p.clone(),
            None => canonical_application_url(reference),
        },
    };
    let employment_type = match d.arbeitszeit_vollzeit {
        Some(true) => Some(String::from_str("Vollzeit")),
        Some(false) => Some(String::from_str("Teilzeit")),
        None => None,
    };
    GetJobDetailsResult {
        reference_number: String::from_str(reference),
        title: copy_opt(&d.titel),
        description: copy_opt(&d.stellenbeschreibung),
        employer: copy_opt(&d.arbeitgeber),
        location: location_of(d),
        employment_type,
        salary: copy_opt(&d.verguetung),
        contract_duration: copy_opt(&d.vertragsdauer),
        job_type: copy_opt(&d.stellenangebots_art),
        first_published: copy_opt(&d.erste_veroeffentlichungsdatum),
        only_for_disabled: d.nur_fuer_schwerbehinderte,
        fulltime: d.arbeitszeit_vollzeit,
        entry_period: entry_period_of(&d.eintrittszeitraum),
        is_minor_employment: d.ist_geringfuegige_beschaeftigung,
        is_temp_agency: d.ist_arbeitnehmer_ueberlassung,
        career_changer_suitable: d.quereinstieg_geeignet,
        external_url: copy_opt(&d.externe_url),
        partner_url: copy_opt(&d.allianzpartner_url),
        application_url,
    }
}

} // verus!
