//! A batch of searches, each followed by detail look-ups of its first
//! listings, run one request at a time.
//!
//! The run is a state machine: `next_action` says which request to make and how
//! long to wait before it, and the caller reports each request's outcome back
//! through `record_search` or `record_detail`. A failed search becomes an
//! outcome with its error; a failed detail look-up leaves that listing out.

use vstd::prelude::*;

use crate::model::{
    copy_opt, opt_view, BatchSearchItem, BatchSearchItemResult, BatchSearchJobsParams,
    BatchSearchJobsResult, GetJobDetailsResult, JobSummary, SearchJobsParams, SearchJobsResult,
};
use crate::text::views;

verus! {

/// The most searches a batch runs.
pub const MAX_BATCH_SEARCHES: usize = 5;

/// The most detail look-ups made for one search.
pub const MAX_DETAILS_PER_SEARCH: u64 = 5;

/// Detail look-ups per search when the caller names no number.
pub const DEFAULT_DETAILS_PER_SEARCH: u64 = 2;

/// Wait before each search but the first, in milliseconds.
pub const SEARCH_PACING_MS: u64 = 200;

/// Wait before each detail look-up of a search but its first, in milliseconds.
pub const DETAIL_PACING_MS: u64 = 100;

/// Detail look-ups per search: the number asked for, or the default, at most five.
pub open spec fn detail_count(requested: Option<u64>) -> u64 {
    let n = match requested {
        Some(n) => n,
        None => DEFAULT_DETAILS_PER_SEARCH,
    };
    if n <= MAX_DETAILS_PER_SEARCH { n } else { MAX_DETAILS_PER_SEARCH }
}

/// The number of searches a batch of `n` requested searches runs.
pub open spec fn planned_count(n: nat) -> nat {
    if n <= MAX_BATCH_SEARCHES { n } else { MAX_BATCH_SEARCHES as nat }
}

/// Views of an optional list of strings.
pub open spec fn opt_views(o: Option<Vec<String>>) -> Option<Seq<Seq<char>>> {
    match o {
        Some(v) => Some(views(v@)),
        None => None,
    }
}

/// The reference numbers of the summaries, in order.
pub open spec fn reference_numbers(jobs: Seq<JobSummary>) -> Seq<Seq<char>> {
    jobs.map_values(|j: JobSummary| j.reference_number@)
}

/// `p` is the search made for `item`: its filters, with the detail count as
/// page size and no page.
pub open spec fn batch_search_params(item: BatchSearchItem, max_details: u64, p: SearchJobsParams) -> bool {
    &&& p.job_title == item.job_title
    &&& p.location == item.location
    &&& p.radius_km == item.radius_km
    &&& opt_views(p.employment_type) == opt_views(item.employment_type)
    &&& opt_views(p.contract_type) == opt_views(item.contract_type)
    &&& p.published_since_days == item.published_since_days
    &&& p.page_size == Some(max_details)
    &&& p.page is None
    &&& p.employer == item.employer
    &&& p.branch == item.branch
}

/// The outcome of a search that failed with the message `e`.
pub open spec fn failed_outcome(o: BatchSearchItemResult, name: Seq<char>, e: Seq<char>) -> bool {
    &&& o.search_name@ == name
    &&& o.total_results is None
    &&& o.jobs_count == 0
    &&& o.jobs@.len() == 0
    &&& opt_view(o.error) == Some("Search failed: "@ + e)
}

/// The outcome of a search that succeeded, with the details gathered for it.
pub open spec fn finished_outcome(
    o: BatchSearchItemResult,
    name: Seq<char>,
    total: Option<u64>,
    jobs: Seq<GetJobDetailsResult>,
) -> bool {
    &&& o.search_name@ == name
    &&& o.total_results == total
    &&& o.jobs@ == jobs
    &&& o.jobs_count == jobs.len()
    &&& o.error is None
}

/// The next request of a batch run.
#[derive(Debug, Clone)]
pub enum BatchAction {
    /// Wait `delay_ms`, then run the search `index` with `params`.
    Search { index: usize, params: SearchJobsParams, delay_ms: u64 },
    /// Wait `delay_ms`, then fetch the details of `reference_number`.
    FetchDetail { reference_number: String, delay_ms: u64 },
    /// Every planned search has its outcome.
    Done,
}

/// The state of a batch run.
pub struct BatchRun {
    searches: Vec<BatchSearchItem>,
    max_details: u64,
    results: Vec<BatchSearchItemResult>,
    pending: Vec<String>,
    next_detail: usize,
    gathered: Vec<GetJobDetailsResult>,
    current_total: Option<u64>,
    fetching: bool,
}

impl BatchRun {
    /// The searches this run makes, in order.
    pub closed spec fn planned(self) -> Seq<BatchSearchItem> {
        self.searches@
    }

    /// Detail look-ups per search.
    pub closed spec fn detail_limit(self) -> u64 {
        self.max_details
    }

    /// The outcomes recorded so far, one per finished search, in order.
    pub closed spec fn outcomes(self) -> Seq<BatchSearchItemResult> {
        self.results@
    }

    /// Whether the run is fetching the details of the current search.
    pub closed spec fn fetching(self) -> bool {
        self.fetching
    }

    /// The reference numbers whose details the current search fetches.
    pub closed spec fn pending(self) -> Seq<Seq<char>> {
        views(self.pending@)
    }

    /// The position in `pending` of the next detail look-up.
    pub closed spec fn next_detail(self) -> int {
        self.next_detail as int
    }

    /// The details of the current search fetched so far.
    pub closed spec fn gathered(self) -> Seq<GetJobDetailsResult> {
        self.gathered@
    }

    /// The result count that the current search reported.
    pub closed spec fn current_total(self) -> Option<u64> {
        self.current_total
    }

    /// The state is consistent: at most five searches, at most five details
    /// each, and one outcome per finished search, named after it.
    pub closed spec fn wf(self) -> bool {
        &&& self.searches@.len() <= MAX_BATCH_SEARCHES
        &&& self.max_details <= MAX_DETAILS_PER_SEARCH
        &&& self.results@.len() <= self.searches@.len()
        &&& forall|i: int|
            0 <= i < self.results@.len() ==> (#[trigger] self.results@[i]).search_name@
                == self.searches@[i].name@
        &&& self.fetching ==> {
            &&& self.results@.len() < self.searches@.len()
            &&& self.next_detail < self.pending@.len()
            &&& self.pending@.len() <= self.max_details
        }
    }

    /// The run waits for the outcome of a search.
    pub open spec fn awaiting_search(self) -> bool {
        !self.fetching() && self.outcomes().len() < self.planned().len()
    }

    /// Every planned search has its outcome.
    pub open spec fn is_finished(self) -> bool {
        !self.fetching() && self.outcomes().len() >= self.planned().len()
    }

    /// Requests left before the run is finished, counting each search as
    /// itself and its five possible detail look-ups.
    pub open spec fn steps_left(self) -> int {
        (self.planned().len() - self.outcomes().len()) * (MAX_DETAILS_PER_SEARCH + 1) - if self.fetching() {
            self.next_detail() + 1
        } else {
            0
        }
    }

    /// `after` is `before` once the outcome of the awaited search is recorded.
    pub open spec fn search_recorded(
        before: BatchRun,
        outcome: Result<SearchJobsResult, String>,
        after: BatchRun,
    ) -> bool {
        if before.awaiting_search() {
            let k = before.outcomes().len() as int;
            let name = before.planned()[k].name@;
            &&& after.planned() == before.planned()
            &&& after.detail_limit() == before.detail_limit()
            &&& match outcome {
                Err(e) => {
                    &&& !after.fetching()
                    &&& after.outcomes().len() == k + 1
                    &&& after.outcomes().take(k) == before.outcomes()
                    &&& failed_outcome(after.outcomes()[k], name, e@)
                },
                Ok(r) => {
                    let n = if r.jobs@.len() <= before.detail_limit() {
                        r.jobs@.len() as int
                    } else {
                        before.detail_limit() as int
                    };
                    if n == 0 {
                        &&& !after.fetching()
                        &&& after.outcomes().len() == k + 1
                        &&& after.outcomes().take(k) == before.outcomes()
                        &&& finished_outcome(after.outcomes()[k], name, r.total_results, seq![])
                    } else {
                        &&& after.fetching()
                        &&& after.outcomes() == before.outcomes()
                        &&& after.pending() == reference_numbers(r.jobs@).take(n)
                        &&& after.next_detail() == 0
                        &&& after.gathered() == Seq::<GetJobDetailsResult>::empty()
                        &&& after.current_total() == r.total_results
                    }
                },
            }
        } else {
            after == before
        }
    }

    /// `after` is `before` once the outcome of the awaited detail look-up is recorded.
    pub open spec fn detail_recorded(
        before: BatchRun,
        outcome: Result<GetJobDetailsResult, String>,
        after: BatchRun,
    ) -> bool {
        if before.fetching() {
            let gathered = match outcome {
                Ok(d) => before.gathered().push(d),
                Err(_) => before.gathered(),
            };
            &&& after.planned() == before.planned()
            &&& after.detail_limit() == before.detail_limit()
            &&& if before.next_detail() + 1 < before.pending().len() {
                &&& after.fetching()
                &&& after.outcomes() == before.outcomes()
                &&& after.pending() == before.pending()
                &&& after.next_detail() == before.next_detail() + 1
                &&& after.gathered() == gathered
                &&& after.current_total() == before.current_total()
            } else {
                let k = before.outcomes().len() as int;
                &&& !after.fetching()
                &&& after.outcomes().len() == k + 1
                &&& after.outcomes().take(k) == before.outcomes()
                &&& finished_outcome(
                    after.outcomes()[k],
                    before.planned()[k].name@,
                    before.current_total(),
                    gathered,
                )
            }
        } else {
            after == before
        }
    }

    /// Starts a batch: the first five searches, with the detail count asked
    /// for (default two, at most five).
    pub fn new(params: BatchSearchJobsParams) -> (r: BatchRun)
        ensures
            r.wf(),
            r.planned() == params.searches@.take(planned_count(params.searches@.len()) as int),
            r.planned().len() == planned_count(params.searches@.len()),
            r.detail_limit() == detail_count(params.max_details_per_search),
            r.outcomes().len() == 0,
            !r.fetching(),
            r.steps_left() == r.planned().len() * (MAX_DETAILS_PER_SEARCH + 1),
    {
        let BatchSearchJobsParams { searches, max_details_per_search } = params;
        let mut searches = searches;
        searches.truncate(MAX_BATCH_SEARCHES);
        let requested = match max_details_per_search {
            Some(n) => n,
            None => DEFAULT_DETAILS_PER_SEARCH,
        };
        let max_details = if requested <= MAX_DETAILS_PER_SEARCH {
            requested
        } else {
            MAX_DETAILS_PER_SEARCH
        };
        BatchRun {
            searches,
            max_details,
            results: Vec::new(),
            pending: Vec::new(),
            next_detail: 0,
            gathered: Vec::new(),
            current_total: None,
            fetching: false,
        }
    }

    /// Whether every planned search has its outcome.
    pub fn finished(&self) -> (r: bool)
        ensures
            r == self.is_finished(),
    {
        !self.fetching && self.results.len() >= self.searches.len()
    }

    /// The next request to make, and the wait before it.
    pub fn next_action(&self) -> (a: BatchAction)
        requires
            self.wf(),
        ensures
            self.fetching() ==> match a {
                BatchAction::FetchDetail { reference_number, delay_ms } => {
                    &&& reference_number@ == self.pending()[self.next_detail()]
                    &&& delay_ms == if self.next_detail() > 0 { DETAIL_PACING_MS } else { 0 }
                },
                _ => false,
            },
            self.awaiting_search() ==> match a {
                BatchAction::Search { index, params, delay_ms } => {
                    &&& index == self.outcomes().len()
                    &&& batch_search_params(self.planned()[index as int], self.detail_limit(), params)
                    &&& delay_ms == if index > 0 { SEARCH_PACING_MS } else { 0 }
                },
                _ => false,
            },
            self.is_finished() ==> a is Done,
    {
        if self.fetching {
            let delay_ms = if self.next_detail > 0 { DETAIL_PACING_MS } else { 0 };
            BatchAction::FetchDetail {
                reference_number: self.pending[self.next_detail].clone(),
                delay_ms,
            }
        } else if self.results.len() < self.searches.len() {
            let index = self.results.len();
            let params = search_params_for(&self.searches[index], self.max_details);
            let delay_ms = if index > 0 { SEARCH_PACING_MS } else { 0 };
            BatchAction::Search { index, params, delay_ms }
        } else {
            BatchAction::Done
        }
    }

    /// Records the outcome of the awaited search; does nothing when no search
    /// is awaited.
    pub fn record_search(&mut self, outcome: Result<SearchJobsResult, String>)
        requires
            old(self).wf(),
        ensures
            final(self).wf(),
            BatchRun::search_recorded(*old(self), outcome, *final(self)),
            old(self).awaiting_search() ==> 0 <= final(self).steps_left() < old(self).steps_left(),
    {
        if self.fetching || self.results.len() >= self.searches.len() {
            return;
        }
        let k = self.results.len();
        let name = self.searches[k].name.clone();
        match outcome {
            Err(e) => {
                let message = String::from_str("Search failed: ").concat(e.as_str());
                self.results.push(BatchSearchItemResult {
                    search_name: name,
                    total_results: None,
                    jobs_count: 0,
                    jobs: Vec::new(),
                    error: Some(message),
                });
                assert(self.results@.take(k as int) =~= old(self).results@);
            },
            Ok(r) => {
                let n: usize = if (r.jobs.len() as u64) <= self.max_details {
                    r.jobs.len()
                } else {
                    self.max_details as usize
                };
                let mut pending: Vec<String> = Vec::new();
                let mut i: usize = 0;
                while i < n
                    invariant
                        n <= r.jobs@.len(),
                        i <= n,
                        views(pending@) == reference_numbers(r.jobs@).take(i as int),
                    decreases n - i,
                {
                    let ghost before = views(pending@);
                    let reference = r.jobs[i].reference_number.clone();
                    pending.push(reference);
                    assert(views(pending@) =~= before.push(r.jobs@[i as int].reference_number@));
                    assert(reference_numbers(r.jobs@).take(i as int + 1) =~= reference_numbers(
                        r.jobs@,
                    ).take(i as int).push(r.jobs@[i as int].reference_number@));
                    i = i + 1;
                }
                if n == 0 {
                    self.results.push(BatchSearchItemResult {
                        search_name: name,
                        total_results: r.total_results,
                        jobs_count: 0,
                        jobs: Vec::new(),
                        error: None,
                    });
                    assert(self.results@.take(k as int) =~= old(self).results@);
                    assert(self.results@[k as int].jobs@ =~= Seq::<GetJobDetailsResult>::empty());
                } else {
                    self.pending = pending;
                    self.next_detail = 0;
                    self.gathered = Vec::new();
                    self.current_total = r.total_results;
                    self.fetching = true;
                }
            },
        }
    }

    /// Records the outcome of the awaited detail look-up: a fetched record is
    /// kept, a failure leaves the listing out. After the last look-up of a
    /// search its outcome is recorded. Does nothing when no look-up is awaited.
    pub fn record_detail(&mut self, outcome: Result<GetJobDetailsResult, String>)
        requires
            old(self).wf(),
        ensures
            final(self).wf(),
            BatchRun::detail_recorded(*old(self), outcome, *final(self)),
            old(self).fetching() ==> 0 <= final(self).steps_left() < old(self).steps_left(),
    {
        if !self.fetching {
            return;
        }
        match outcome {
            Ok(d) => self.gathered.push(d),
            Err(_) => {},
        }
        if self.next_detail + 1 < self.pending.len() {
            self.next_detail = self.next_detail + 1;
        } else {
            let k = self.results.len();
            let name = self.searches[k].name.clone();
            let mut jobs: Vec<GetJobDetailsResult> = Vec::new();
            std::mem::swap(&mut jobs, &mut self.gathered);
            let jobs_count = jobs.len();
            self.results.push(BatchSearchItemResult {
                search_name: name,
                total_results: self.current_total,
                jobs_count,
                jobs,
                error: None,
            });
            assert(self.results@.take(k as int) =~= old(self).results@);
            self.pending = Vec::new();
            self.next_detail = 0;
            self.current_total = None;
            self.fetching = false;
        }
    }

    /// The result of the batch: the outcomes recorded, in order, and the time taken.
    pub fn finish(self, total_duration_ms: u64) -> (r: BatchSearchJobsResult)
        requires
            self.wf(),
        ensures
            r.results@ == self.outcomes(),
            r.searches_count == r.results@.len(),
            r.total_duration_ms == total_duration_ms,
            self.is_finished() ==> r.results@.len() == self.planned().len(),
            forall|i: int|
                0 <= i < r.results@.len() ==> (#[trigger] r.results@[i]).search_name@
                    == self.planned()[i].name@,
    {
        let results = self.results;
        BatchSearchJobsResult { searches_count: results.len(), results, total_duration_ms }
    }
}

/// A finished run holds exactly one outcome per planned search, in the order
/// of the searches, and at most five.
pub proof fn lemma_finished_run_has_outcome_per_search(run: BatchRun)
    requires
        run.wf(),
        run.is_finished(),
    ensures
        run.outcomes().len() == run.planned().len(),
        run.planned().len() <= MAX_BATCH_SEARCHES,
        forall|i: int|
            0 <= i < run.outcomes().len() ==> (#[trigger] run.outcomes()[i]).search_name@
                == run.planned()[i].name@,
{
}

/// The result of a finished batch holds one outcome for each of the first
/// five requested searches (all of them when there are fewer), in the order
/// they were requested, each named after its search.
pub proof fn lemma_batch_answers_requests_in_order(
    params: BatchSearchJobsParams,
    run: BatchRun,
    r: BatchSearchJobsResult,
)
    requires
        run.wf(),
        run.is_finished(),
        run.planned() == params.searches@.take(planned_count(params.searches@.len()) as int),
        r.results@ == run.outcomes(),
        r.searches_count == r.results@.len(),
    ensures
        r.results@.len() == planned_count(params.searches@.len()),
        r.searches_count <= MAX_BATCH_SEARCHES,
        forall|i: int|
            0 <= i < r.results@.len() ==> (#[trigger] r.results@[i]).search_name@
                == params.searches@[i].name@,
{
    lemma_finished_run_has_outcome_per_search(run);
    assert forall|i: int| 0 <= i < r.results@.len() implies (#[trigger] r.results@[
        i]).search_name@ == params.searches@[i].name@ by {
        assert(run.outcomes()[i] == r.results@[i]);
        assert(run.planned()[i] == params.searches@[i]);
    }
}

/// A failed search still gets its outcome, with no listings and a non-empty
/// error, and the run goes on with the next search.
pub proof fn lemma_failed_search_moves_on(before: BatchRun, e: String, after: BatchRun)
    requires
        before.wf(),
        after.wf(),
        before.awaiting_search(),
        BatchRun::search_recorded(before, Err(e), after),
    ensures
        after.outcomes().len() == before.outcomes().len() + 1,
        after.outcomes().take(before.outcomes().len() as int) == before.outcomes(),
        after.outcomes().last().search_name@ == before.planned()[before.outcomes().len() as int].name@,
        after.outcomes().last().jobs_count == 0,
        after.outcomes().last().error matches Some(m) && m@.len() > 0,
        after.planned() == before.planned(),
        after.outcomes().len() < after.planned().len() ==> after.awaiting_search(),
        after.outcomes().len() == after.planned().len() ==> after.is_finished(),
{
    reveal_strlit("Search failed: ");
}

/// Copies an optional list of strings.
fn copy_opt_strings(o: &Option<Vec<String>>) -> (r: Option<Vec<String>>)
    ensures
        opt_views(r) == opt_views(*o),
{
    match o {
        Some(v) => {
            let mut out: Vec<String> = Vec::new();
            let mut i: usize = 0;
            while i < v.len()
                invariant
                    i <= v@.len(),
                    views(out@) == views(v@.take(i as int)),
                decreases v@.len() - i,
            {
                let ghost before = views(out@);
                let item = v[i].clone();
                out.push(item);
                assert(views(out@) =~= before.push(v@[i as int]@));
                assert(views(v@.take(i as int + 1)) =~= views(v@.take(i as int)).push(v@[i as int]@));
                i = i + 1;
            }
            assert(v@.take(v@.len() as int) =~= v@);
            Some(out)
        },
        None => None,
    }
}

/// The search made for one item of a batch.
pub fn search_params_for(item: &BatchSearchItem, max_details: u64) -> (p: SearchJobsParams)
    ensures
        batch_search_params(*item, max_details, p),
{
    SearchJobsParams {
        job_title: copy_opt(&item.job_title),
        location: copy_opt(&item.location),
        radius_km: item.radius_km,
        employment_type: copy_opt_strings(&item.employment_type),
        contract_type: copy_opt_strings(&item.contract_type),
        published_since_days: item.published_since_days,
        page_size: Some(max_details),
        page: None,
        employer: copy_opt(&item.employer),
        branch: copy_opt(&item.branch),
    }
}

} // verus!
