//! Verdicts for declarative HTTP API suites: each case names a request and
//! what the response must look like, and this crate decides pass or fail.
//!
//! Sending requests is left to the caller. A [`SuiteRun`] names the next
//! request, takes the response, and ends with the verdict on the suite.

pub mod assertion;
pub mod count;
pub mod json;
pub mod model;
pub mod path;
pub mod suite;
pub mod verdict;
pub mod wire;

pub use assertion::{select, Expectation, Selection, ValidateError};
pub use model::{JsonTestData, Match, TestCollection, TestItem, DEFAULT_HTTP_METHOD};
pub use suite::{RunError, Step, SuiteResult, SuiteRun};
pub use verdict::{
    AssertionResult, FailurePolicy, Header, ItemError, Request, TestCaseResult, TestRunner,
};
