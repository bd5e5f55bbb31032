use jobsuche::batch::search_params_for;
use jobsuche::{
    BatchAction, BatchRun, BatchSearchItem, BatchSearchJobsParams, GetJobDetailsResult,
    JobSummary, SearchJobsResult,
};

fn item(name: &str) -> BatchSearchItem {
    BatchSearchItem {
        name: name.to_string(),
        job_title: Some(format!("title {}", name)),
        location: Some("Wuppertal".to_string()),
        radius_km: Some(10),
        employment_type: Some(vec!["vz".to_string()]),
        contract_type: None,
        published_since_days: Some(7),
        employer: None,
        branch: None,
    }
}

fn summary(reference: &str) -> JobSummary {
    JobSummary {
        reference_number: reference.to_string(),
        title: String::new(),
        employer: String::new(),
        location: String::new(),
        published_date: None,
        external_url: None,
        application_url: String::new(),
    }
}

fn detail(reference: &str) -> GetJobDetailsResult {
    GetJobDetailsResult {
        reference_number: reference.to_string(),
        title: None,
        description: None,
        employer: None,
        location: None,
        employment_type: None,
        salary: None,
        contract_duration: None,
        job_type: None,
        first_published: None,
        only_for_disabled: None,
        fulltime: None,
        entry_period: None,
        is_minor_employment: None,
        is_temp_agency: None,
        career_changer_suitable: None,
        external_url: None,
        partner_url: None,
        application_url: String::new(),
    }
}

fn found(n: usize, prefix: &str) -> SearchJobsResult {
    let jobs: Vec<JobSummary> = (0..n).map(|i| summary(&format!("{}-{}", prefix, i))).collect();
    SearchJobsResult {
        total_results: Some(100),
        current_page: Some(1),
        page_size: Some(n as u64),
        jobs_count: n,
        jobs,
        search_duration_ms: 1,
    }
}

#[test]
fn seven_searches_run_five_in_order() {
    let searches: Vec<BatchSearchItem> =
        (0..7).map(|i| item(&format!("s{}", i))).collect();
    let mut run = BatchRun::new(BatchSearchJobsParams {
        searches,
        max_details_per_search: Some(0),
    });
    let mut seen = Vec::new();
    let mut delays = Vec::new();
    loop {
        match run.next_action() {
            BatchAction::Search { index, params, delay_ms } => {
                seen.push(index);
                delays.push(delay_ms);
                assert_eq!(params.page_size, Some(0));
                run.record_search(Ok(found(3, "r")));
            }
            BatchAction::FetchDetail { .. } => panic!("no details were asked for"),
            BatchAction::Done => break,
        }
    }
    assert_eq!(seen, vec![0, 1, 2, 3, 4]);
    assert_eq!(delays, vec![0, 200, 200, 200, 200]);
    let result = run.finish(9);
    assert_eq!(result.searches_count, 5);
    let names: Vec<&str> = result.results.iter().map(|r| r.search_name.as_str()).collect();
    assert_eq!(names, vec!["s0", "s1", "s2", "s3", "s4"]);
    assert_eq!(result.total_duration_ms, 9);
}

#[test]
fn failed_search_does_not_stop_the_batch() {
    let mut run = BatchRun::new(BatchSearchJobsParams {
        searches: vec![item("a"), item("b"), item("c")],
        max_details_per_search: None,
    });
    let mut searched = Vec::new();
    let mut fetched = Vec::new();
    loop {
        match run.next_action() {
            BatchAction::Search { index, .. } => {
                searched.push(index);
                if index == 1 {
                    run.record_search(Err("API error: 500".to_string()));
                } else {
                    run.record_search(Ok(found(4, &format!("j{}", index))));
                }
            }
            BatchAction::FetchDetail { reference_number, delay_ms } => {
                fetched.push((reference_number.clone(), delay_ms));
                run.record_detail(Ok(detail(&reference_number)));
            }
            BatchAction::Done => break,
        }
    }
    assert_eq!(searched, vec![0, 1, 2]);
    assert_eq!(
        fetched,
        vec![
            ("j0-0".to_string(), 0),
            ("j0-1".to_string(), 100),
            ("j2-0".to_string(), 0),
            ("j2-1".to_string(), 100),
        ]
    );
    let result = run.finish(0);
    assert_eq!(result.searches_count, 3);
    let failed = &result.results[1];
    assert_eq!(failed.search_name, "b");
    assert_eq!(failed.jobs_count, 0);
    assert!(failed.jobs.is_empty());
    assert_eq!(failed.total_results, None);
    assert_eq!(failed.error, Some("Search failed: API error: 500".to_string()));
    let ok = &result.results[2];
    assert_eq!(ok.search_name, "c");
    assert_eq!(ok.jobs_count, 2);
    assert_eq!(ok.total_results, Some(100));
    assert_eq!(ok.error, None);
    assert_eq!(ok.jobs[1].reference_number, "j2-1");
}

#[test]
fn failed_detail_is_left_out() {
    let mut run = BatchRun::new(BatchSearchJobsParams {
        searches: vec![item("only")],
        max_details_per_search: Some(3),
    });
    run.record_search(Ok(found(5, "x")));
    let mut n = 0;
    while let BatchAction::FetchDetail { reference_number, .. } = run.next_action() {
        if n == 1 {
            run.record_detail(Err("API error: 404".to_string()));
        } else {
            run.record_detail(Ok(detail(&reference_number)));
        }
        n += 1;
    }
    assert_eq!(n, 3);
    assert!(run.finished());
    let result = run.finish(0);
    let r = &result.results[0];
    assert_eq!(r.jobs_count, 2);
    assert_eq!(r.jobs[0].reference_number, "x-0");
    assert_eq!(r.jobs[1].reference_number, "x-2");
    assert_eq!(r.error, None);
}

#[test]
fn detail_count_is_capped_at_five() {
    let mut run = BatchRun::new(BatchSearchJobsParams {
        searches: vec![item("many")],
        max_details_per_search: Some(50),
    });
    match run.next_action() {
        BatchAction::Search { params, .. } => assert_eq!(params.page_size, Some(5)),
        _ => panic!("expected a search"),
    }
    run.record_search(Ok(found(8, "m")));
    let mut n = 0;
    while let BatchAction::FetchDetail { reference_number, .. } = run.next_action() {
        run.record_detail(Ok(detail(&reference_number)));
        n += 1;
    }
    assert_eq!(n, 5);
    assert_eq!(run.finish(0).results[0].jobs_count, 5);
}

#[test]
fn fewer_listings_than_detail_count() {
    let mut run = BatchRun::new(BatchSearchJobsParams {
        searches: vec![item("few"), item("none")],
        max_details_per_search: None,
    });
    run.record_search(Ok(found(1, "f")));
    match run.next_action() {
        BatchAction::FetchDetail { reference_number, delay_ms } => {
            assert_eq!(reference_number, "f-0");
            assert_eq!(delay_ms, 0);
            run.record_detail(Ok(detail(&reference_number)));
        }
        _ => panic!("expected a detail look-up"),
    }
    run.record_search(Ok(found(0, "n")));
    assert!(run.finished());
    let result = run.finish(0);
    assert_eq!(result.results[0].jobs_count, 1);
    assert_eq!(result.results[1].jobs_count, 0);
    assert_eq!(result.results[1].total_results, Some(100));
    assert_eq!(result.results[1].error, None);
}

#[test]
fn empty_batch_is_done_at_once() {
    let run = BatchRun::new(BatchSearchJobsParams { searches: vec![], max_details_per_search: None });
    assert!(matches!(run.next_action(), BatchAction::Done));
    let result = run.finish(3);
    assert_eq!(result.searches_count, 0);
    assert!(result.results.is_empty());
}

#[test]
fn batch_search_carries_item_filters() {
    let p = search_params_for(&item("x"), 3);
    assert_eq!(p.job_title, Some("title x".to_string()));
    assert_eq!(p.location, Some("Wuppertal".to_string()));
    assert_eq!(p.radius_km, Some(10));
    assert_eq!(p.employment_type, Some(vec!["vz".to_string()]));
    assert_eq!(p.published_since_days, Some(7));
    assert_eq!(p.page_size, Some(3));
    assert_eq!(p.page, None);
}
