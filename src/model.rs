//! The external listing records as received, and the stable result records.

use vstd::prelude::*;

verus! {

/// Where a listing is located, as the search service reports it.
#[derive(Debug, Clone, Default)]
pub struct ApiArbeitsort {
    pub ort: Option<String>,
    pub plz: Option<String>,
    pub region: Option<String>,
    pub land: Option<String>,
}

/// One listing of a search response; fields the service adds later are not kept.
#[derive(Debug, Clone)]
pub struct ApiJobListing {
    pub beruf: String,
    pub titel: Option<String>,
    pub refnr: String,
    pub arbeitsort: ApiArbeitsort,
    pub arbeitgeber: String,
    pub aktuelle_veroeffentlichungsdatum: Option<String>,
    pub externe_url: Option<String>,
}

/// A search response: the listings and the pagination figures.
#[derive(Debug, Clone)]
pub struct ApiSearchResponse {
    pub stellenangebote: Vec<ApiJobListing>,
    pub max_ergebnisse: Option<u64>,
    pub page: Option<u64>,
    pub size: Option<u64>,
}

/// A postal address of a workplace.
#[derive(Debug, Clone, Default)]
pub struct ApiAddress {
    pub ort: Option<String>,
    pub plz: Option<String>,
}

/// One workplace of a detailed listing.
#[derive(Debug, Clone, Default)]
pub struct ApiJobLocation {
    pub adresse: Option<ApiAddress>,
}

/// A date range whose ends may each be missing.
#[derive(Debug, Clone, Default)]
pub struct ApiDateRange {
    pub von: Option<String>,
    pub bis: Option<String>,
}

/// The detail record of one listing.
#[derive(Debug, Clone, Default)]
pub struct ApiJobDetails {
    pub titel: Option<String>,
    pub stellenbeschreibung: Option<String>,
    pub arbeitgeber: Option<String>,
    pub arbeitsorte: Option<Vec<ApiJobLocation>>,
    pub arbeitszeit_vollzeit: Option<bool>,
    pub verguetung: Option<String>,
    pub vertragsdauer: Option<String>,
    pub stellenangebots_art: Option<String>,
    pub erste_veroeffentlichungsdatum: Option<String>,
    pub nur_fuer_schwerbehinderte: Option<bool>,
    pub eintrittszeitraum: Option<ApiDateRange>,
    pub veroeffentlichungszeitraum: Option<ApiDateRange>,
    pub ist_geringfuegige_beschaeftigung: Option<bool>,
    pub ist_arbeitnehmer_ueberlassung: Option<bool>,
    pub ist_private_arbeitsvermittlung: Option<bool>,
    pub quereinstieg_geeignet: Option<bool>,
    pub chiffrenummer: Option<String>,
    pub externe_url: Option<String>,
    pub allianzpartner_url: Option<String>,
}

/// Server status information.
#[derive(Debug, Clone)]
pub struct JobsucheServerStatus {
    pub server_name: String,
    pub version: String,
    pub uptime_seconds: u64,
    pub api_url: String,
    pub api_connection_status: String,
    pub tools_count: usize,
}

/// Parameters of one search.
#[derive(Debug, Clone)]
pub struct SearchJobsParams {
    /// Job title or keywords.
    pub job_title: Option<String>,
    /// Location name.
    pub location: Option<String>,
    /// Search radius in kilometers around the location.
    pub radius_km: Option<u64>,
    /// Employment type tags such as "fulltime", "parttime", "mini_job", "home_office".
    pub employment_type: Option<Vec<String>>,
    /// Contract type tags such as "permanent", "temporary".
    pub contract_type: Option<Vec<String>>,
    /// Days since publication.
    pub published_since_days: Option<u64>,
    /// Number of results per page.
    pub page_size: Option<u64>,
    /// Page number, starting from 1.
    pub page: Option<u64>,
    /// Employer name to search for.
    pub employer: Option<String>,
    /// Branch or industry to search in.
    pub branch: Option<String>,
}

/// Result of one search.
#[derive(Debug, Clone)]
pub struct SearchJobsResult {
    pub total_results: Option<u64>,
    pub current_page: Option<u64>,
    pub page_size: Option<u64>,
    pub jobs_count: usize,
    pub jobs: Vec<JobSummary>,
    pub search_duration_ms: u64,
}

/// Summary of one listing.
#[derive(Debug, Clone)]
pub struct JobSummary {
    pub reference_number: String,
    pub title: String,
    pub employer: String,
    pub location: String,
    pub published_date: Option<String>,
    pub external_url: Option<String>,
    pub application_url: String,
}

/// Parameters of a detail look-up.
#[derive(Debug, Clone)]
pub struct GetJobDetailsParams {
    /// Reference number of the listing, as search results give it.
    pub reference_number: String,
}

/// Detailed information on one listing.
#[derive(Debug, Clone)]
pub struct GetJobDetailsResult {
    pub reference_number: String,
    pub title: Option<String>,
    pub description: Option<String>,
    pub employer: Option<String>,
    pub location: Option<String>,
    pub employment_type: Option<String>,
    pub salary: Option<String>,
    pub contract_duration: Option<String>,
    pub job_type: Option<String>,
    pub first_published: Option<String>,
    pub only_for_disabled: Option<bool>,
    pub fulltime: Option<bool>,
    pub entry_period: Option<String>,
    pub is_minor_employment: Option<bool>,
    pub is_temp_agency: Option<bool>,
    pub career_changer_suitable: Option<bool>,
    pub external_url: Option<String>,
    pub partner_url: Option<String>,
    pub application_url: String,
}

/// One search of a batch.
#[derive(Debug, Clone)]
pub struct BatchSearchItem {
    /// Name of this search, repeated in its outcome.
    pub name: String,
    pub job_title: Option<String>,
    pub location: Option<String>,
    pub radius_km: Option<u64>,
    pub employment_type: Option<Vec<String>>,
    pub contract_type: Option<Vec<String>>,
    pub published_since_days: Option<u64>,
    pub employer: Option<String>,
    pub branch: Option<String>,
}

/// Parameters of a batch.
#[derive(Debug, Clone)]
pub struct BatchSearchJobsParams {
    /// The searches to perform; only the first five are run.
    pub searches: Vec<BatchSearchItem>,
    /// Details fetched per search (default 2, at most 5).
    pub max_details_per_search: Option<u64>,
}

/// Outcome of one search of a batch.
#[derive(Debug, Clone)]
pub struct BatchSearchItemResult {
    pub search_name: String,
    pub total_results: Option<u64>,
    pub jobs_count: usize,
    pub jobs: Vec<GetJobDetailsResult>,
    pub error: Option<String>,
}

/// Outcome of a batch.
#[derive(Debug, Clone)]
pub struct BatchSearchJobsResult {
    pub searches_count: usize,
    pub results: Vec<BatchSearchItemResult>,
    pub total_duration_ms: u64,
}

/// An empty list: what a listing list that the response leaves out stands for.
pub fn default_vec<T>() -> (r: Vec<T>)
    ensures
        r@ == Seq::<T>::empty(),
{
    Vec::new()
}

/// Views of an optional string.
pub open spec fn opt_view(o: Option<String>) -> Option<Seq<char>> {
    match o {
        Some(s) => Some(s@),
        None => None,
    }
}

/// Copies an optional string.
pub fn copy_opt(o: &Option<String>) -> (r: Option<String>)
    ensures
        r == *o,
{
    match o {
        Some(s) => Some(s.clone()),
        None => None,
    }
}

} // verus!
