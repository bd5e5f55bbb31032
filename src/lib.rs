//! Normalization and batch orchestration for a job-listings search service.
//!
//! The library turns loosely-typed listing records into a stable result schema,
//! builds the query for a search, and sequences a bounded batch of searches and
//! detail look-ups as a state machine whose actions are carried out by the caller.

pub mod batch;
pub mod client;
pub mod model;
pub mod normalize;
pub mod query;
pub mod status;
pub mod text;

pub use batch::{BatchAction, BatchRun};
pub use client::ApiError;
pub use model::{
    BatchSearchItem, BatchSearchItemResult, BatchSearchJobsParams, BatchSearchJobsResult,
    GetJobDetailsParams, GetJobDetailsResult, JobSummary, JobsucheServerStatus, SearchJobsParams,
    SearchJobsResult,
};
pub use query::SearchParams;
