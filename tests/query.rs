use jobsuche::client::{detail_url, search_url};
use jobsuche::query::{
    build_search_params, effective_page_size, employment_code_of_lowercase,
    parse_employment_type, parse_employment_types, SearchParams,
};
use jobsuche::SearchJobsParams;

fn s(x: &str) -> String {
    x.to_string()
}

fn empty_params() -> SearchJobsParams {
    SearchJobsParams {
        job_title: None,
        location: None,
        radius_km: None,
        employment_type: None,
        contract_type: None,
        published_since_days: None,
        page_size: None,
        page: None,
        employer: None,
        branch: None,
    }
}

#[test]
fn full_time_synonyms_share_a_code() {
    assert_eq!(parse_employment_type("Vollzeit"), Some(s("vz")));
    assert_eq!(parse_employment_type("fulltime"), Some(s("vz")));
    assert_eq!(parse_employment_type("VZ"), Some(s("vz")));
    assert_eq!(parse_employment_type("FULL"), Some(s("vz")));
}

#[test]
fn unknown_tag_is_dropped() {
    assert_eq!(parse_employment_type("unknown_tag"), None);
}

#[test]
fn other_synonym_sets() {
    assert_eq!(parse_employment_type("Teilzeit"), Some(s("tz")));
    assert_eq!(parse_employment_type("Mini_Job"), Some(s("minijob")));
    assert_eq!(parse_employment_type("HomeOffice"), Some(s("ho")));
    assert_eq!(parse_employment_type("Schicht"), Some(s("snw")));
}

#[test]
fn codes_map_to_themselves() {
    for code in ["vz", "tz", "minijob", "ho", "snw"] {
        assert_eq!(parse_employment_type(code), Some(s(code)));
    }
}

#[test]
fn lowercase_lookup_does_not_fold_case() {
    assert_eq!(employment_code_of_lowercase(&s("teilzeit")), Some(s("tz")));
    assert_eq!(employment_code_of_lowercase(&s("Teilzeit")), None);
}

#[test]
fn tag_list_keeps_order_and_drops_unknown() {
    let tags = vec![s("Teilzeit"), s("unknown_tag"), s("Vollzeit"), s("ho")];
    assert_eq!(parse_employment_types(&tags), vec![s("tz"), s("vz"), s("ho")]);
}

#[test]
fn page_size_is_capped() {
    assert_eq!(effective_page_size(Some(500), 25, 100), 100);
}

#[test]
fn page_size_defaults() {
    assert_eq!(effective_page_size(None, 25, 100), 25);
    assert_eq!(effective_page_size(Some(10), 25, 100), 10);
    assert_eq!(effective_page_size(None, 250, 100), 100);
}

#[test]
fn search_terms_are_joined_with_spaces() {
    let mut p = empty_params();
    p.job_title = Some(s("Koch"));
    p.branch = Some(s("Gastronomie"));
    p.employment_type = Some(vec![s("Vollzeit"), s("xyz")]);
    p.location = Some(s("Hamburg"));
    p.page_size = Some(500);
    let q = build_search_params(&p, 25, 100);
    assert_eq!(q.was, Some(s("Koch Gastronomie")));
    assert_eq!(q.wo, Some(s("Hamburg")));
    assert_eq!(q.size, Some(100));
    assert_eq!(q.arbeitszeit, Some(vec![s("vz")]));
}

#[test]
fn no_terms_means_no_search_text() {
    let q = build_search_params(&empty_params(), 25, 100);
    assert_eq!(q.was, None);
    assert_eq!(q.size, Some(25));
    assert_eq!(q.arbeitszeit, None);
}

#[test]
fn search_url_with_parameters() {
    let q = SearchParams {
        was: Some(s("Data Scientist")),
        wo: Some(s("München")),
        umkreis: Some(25),
        size: Some(10),
        page: Some(2),
        veroeffentlichtseit: Some(30),
        arbeitszeit: Some(vec![s("vz"), s("ho")]),
    };
    assert_eq!(
        search_url("https://api.example", &q),
        "https://api.example/pc/v4/jobs?was=Data%20Scientist&wo=M%C3%BCnchen&umkreis=25&size=10&page=2&veroeffentlichtseit=30&arbeitszeit=vz&arbeitszeit=ho"
    );
}

#[test]
fn search_url_without_parameters() {
    let q = SearchParams {
        was: None,
        wo: None,
        umkreis: None,
        size: None,
        page: None,
        veroeffentlichtseit: None,
        arbeitszeit: None,
    };
    assert_eq!(search_url("https://api.example", &q), "https://api.example/pc/v4/jobs");
}

#[test]
fn detail_url_escapes_reference() {
    assert_eq!(
        detail_url("https://api.example", "10000-1/2 3"),
        "https://api.example/pc/v4/jobdetails/10000-1%2F2%203"
    );
}
