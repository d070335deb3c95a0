//! The verdict on one case: the request it asks for, and what its response
//! is worth.

use vstd::prelude::*;
use vstd::string::*;
use crate::assertion::ValidateError;
use crate::model::{match_views, Match, MatchView, TestItem, TestItemView};
use crate::wire::{
    is_method_token,
    method_accepted,
    text_from_utf8,
    CONTENT_TYPE_HEADER,
    CONTENT_TYPE_JSON,
};

verus! {

/// Why a case could not be run to a verdict. Each of these ends the run.
#[derive(Debug, Clone, Copy, PartialEq, Eq, Structural)]
pub enum ItemError {
    /// The method of the case is not a name the transport takes.
    InvalidMethod,
    /// The response body is not UTF-8 text.
    BodyNotText,
    /// The assertion at `index` could not be evaluated.
    Assertion { index: usize, error: ValidateError },
}

/// What happens to the assertions of a case behind one that failed.
#[derive(Debug, Clone, Copy, PartialEq, Eq, Structural)]
pub enum FailurePolicy {
    /// They are not evaluated and leave no result.
    StopAtFirst,
    /// They are evaluated and reported like the others.
    EvaluateAll,
}

/// A header of a request: its name and its value.
#[derive(Debug, Clone)]
pub struct Header {
    pub name: String,
    pub value: String,
}

impl View for Header {
    type V = (Seq<char>, Seq<char>);

    open spec fn view(&self) -> (Seq<char>, Seq<char>) {
        (self.name@, self.value@)
    }
}

/// The plain values of a list of headers.
pub open spec fn header_views(headers: Seq<Header>) -> Seq<(Seq<char>, Seq<char>)> {
    headers.map_values(|h: Header| h@)
}

/// The request that a case asks for.
#[derive(Debug, Clone)]
pub struct Request {
    pub method: String,
    pub url: String,
    pub headers: Vec<Header>,
    pub body: Option<String>,
}

/// A `Request` as plain values.
pub struct RequestView {
    pub method: Seq<char>,
    pub url: Seq<char>,
    pub headers: Seq<(Seq<char>, Seq<char>)>,
    pub body: Option<Seq<char>>,
}

impl View for Request {
    type V = RequestView;

    open spec fn view(&self) -> RequestView {
        RequestView {
            method: self.method@,
            url: self.url@,
            headers: header_views(self.headers@),
            body: crate::model::text_of(self.body),
        }
    }
}

/// How one assertion came out.
#[derive(Debug, Clone)]
pub struct AssertionResult {
    pub path: String,
    pub expected: String,
    pub actual: String,
    pub passed: bool,
}

/// An `AssertionResult` as plain values.
pub struct AssertionResultView {
    pub path: Seq<char>,
    pub expected: Seq<char>,
    pub actual: Seq<char>,
    pub passed: bool,
}

impl View for AssertionResult {
    type V = AssertionResultView;

    open spec fn view(&self) -> AssertionResultView {
        AssertionResultView {
            path: self.path@,
            expected: self.expected@,
            actual: self.actual@,
            passed: self.passed,
        }
    }
}

/// How one case came out. `assertions` holds the assertions that were
/// evaluated, in their order.
#[derive(Debug, Clone)]
pub struct TestCaseResult {
    pub status_match: bool,
    pub assertions: Vec<AssertionResult>,
    pub passed: bool,
}

/// A `TestCaseResult` as plain values.
pub struct TestCaseResultView {
    pub status_match: bool,
    pub assertions: Seq<AssertionResultView>,
    pub passed: bool,
}

/// The plain values of a list of assertion results.
pub open spec fn assertion_views(results: Seq<AssertionResult>) -> Seq<AssertionResultView> {
    results.map_values(|r: AssertionResult| r@)
}

impl View for TestCaseResult {
    type V = TestCaseResultView;

    open spec fn view(&self) -> TestCaseResultView {
        TestCaseResultView {
            status_match: self.status_match,
            assertions: assertion_views(self.assertions@),
            passed: self.passed,
        }
    }
}

/// Whether every assertion result in the list is a pass.
pub open spec fn all_passed(results: Seq<AssertionResultView>) -> bool {
    forall|i: int| 0 <= i < results.len() ==> (#[trigger] results[i]).passed
}

/// The results of evaluating the assertions from index `i` on, in order,
/// against `body`. Under `StopAtFirst` evaluation ends with the first
/// assertion that fails: the ones behind it are not looked at, so they leave
/// no result and raise no error. Under `EvaluateAll` every assertion is
/// evaluated. An assertion that cannot be evaluated ends it with an error.
pub open spec fn outcomes_from(
    matches: Seq<MatchView>,
    body: Seq<char>,
    policy: FailurePolicy,
    i: int,
) -> Result<Seq<AssertionResultView>, ItemError>
    decreases matches.len() - i,
{
    if i < 0 || i >= matches.len() {
        Ok(Seq::empty())
    } else {
        match matches[i].validate(body) {
            Err(error) => Err(ItemError::Assertion { index: i as usize, error }),
            Ok((passed, actual)) => {
                let first = AssertionResultView {
                    path: matches[i].path,
                    expected: matches[i].value,
                    actual,
                    passed,
                };
                if !passed && policy == FailurePolicy::StopAtFirst {
                    Ok(seq![first])
                } else {
                    match outcomes_from(matches, body, policy, i + 1) {
                        Err(e) => Err(e),
                        Ok(rest) => Ok(seq![first] + rest),
                    }
                }
            },
        }
    }
}

/// The results of evaluating all the assertions of a case against `body`.
pub open spec fn outcomes(matches: Seq<MatchView>, body: Seq<char>, policy: FailurePolicy) -> Result<
    Seq<AssertionResultView>,
    ItemError,
> {
    outcomes_from(matches, body, policy, 0)
}

/// The results so far, followed by what is still to come.
spec fn continued(
    done: Seq<AssertionResultView>,
    rest: Result<Seq<AssertionResultView>, ItemError>,
) -> Result<Seq<AssertionResultView>, ItemError> {
    match rest {
        Ok(more) => Ok(done + more),
        Err(e) => Err(e),
    }
}

/// A list of results or an error, the results taken as plain values.
pub open spec fn outcomes_view(r: Result<Vec<AssertionResult>, ItemError>) -> Result<
    Seq<AssertionResultView>,
    ItemError,
> {
    match r {
        Ok(results) => Ok(assertion_views(results@)),
        Err(e) => Err(e),
    }
}

/// The headers of every request: the content type alone, whether the
/// request has a body or not.
pub open spec fn request_headers() -> Seq<(Seq<char>, Seq<char>)> {
    seq![(CONTENT_TYPE_HEADER@, CONTENT_TYPE_JSON@)]
}

/// The request for a case against a base address, or the error where its
/// method is not a method name.
pub open spec fn request_of(item: TestItemView, base: Seq<char>) -> Result<RequestView, ItemError> {
    if is_method_token(item.effective_method()) {
        Ok(
            RequestView {
                method: item.effective_method(),
                url: item.full_path(base),
                headers: request_headers(),
                body: item.json_data,
            },
        )
    } else {
        Err(ItemError::InvalidMethod)
    }
}

/// Whether a response status is the declared one: the same number, not
/// merely the same class.
pub open spec fn status_matches(expected: int, actual: int) -> bool {
    expected == actual
}

/// The verdict on a case whose response had the given status and body. The
/// status matches only when it is the declared number itself. The body must be
/// text even where nothing is asserted of it, and the case passes when the
/// status matches and every evaluated assertion passed.
pub open spec fn case_result(
    item: TestItemView,
    status: int,
    body: Seq<u8>,
    policy: FailurePolicy,
) -> Result<TestCaseResultView, ItemError> {
    if !vstd::utf8::valid_utf8(body) {
        Err(ItemError::BodyNotText)
    } else {
        match outcomes(item.declared_matches(), vstd::utf8::decode_utf8(body), policy) {
            Err(e) => Err(e),
            Ok(assertions) => Ok(
                TestCaseResultView {
                    status_match: status_matches(item.status, status),
                    assertions,
                    passed: status_matches(item.status, status) && all_passed(assertions),
                },
            ),
        }
    }
}

/// A request or an error, the request taken as plain values.
pub open spec fn request_view(r: Result<Request, ItemError>) -> Result<RequestView, ItemError> {
    match r {
        Ok(request) => Ok(request@),
        Err(e) => Err(e),
    }
}

/// A case result or an error, the result taken as plain values.
pub open spec fn case_view(r: Result<TestCaseResult, ItemError>) -> Result<
    TestCaseResultView,
    ItemError,
> {
    match r {
        Ok(result) => Ok(result@),
        Err(e) => Err(e),
    }
}

/// Evaluates the assertions in order against `body`; under `StopAtFirst`,
/// up to and including the first that fails.
pub fn evaluate_matches(matches: &Vec<Match>, body: &String, policy: FailurePolicy) -> (r: Result<
    Vec<AssertionResult>,
    ItemError,
>)
    ensures
        outcomes_view(r) == outcomes(match_views(matches@), body@, policy),
{
    let ghost ms = match_views(matches@);
    let mut results: Vec<AssertionResult> = Vec::new();
    let mut i: usize = 0;
    proof {
        if let Ok(all) = outcomes(ms, body@, policy) {
            assert(assertion_views(results@) + all =~= all);
        }
    }
    while i < matches.len()
        invariant
            i <= matches.len(),
            ms == match_views(matches@),
            continued(assertion_views(results@), outcomes_from(ms, body@, policy, i as int))
                == outcomes(ms, body@, policy),
        decreases matches.len() - i,
    {
        let m = &matches[i];
        let ghost done = assertion_views(results@);
        match m.validate(body) {
            Err(error) => {
                return Err(ItemError::Assertion { index: i, error });
            },
            Ok((passed, actual)) => {
                let result = AssertionResult {
                    path: m.path.clone(),
                    expected: m.value.clone(),
                    actual,
                    passed,
                };
                results.push(result);
                assert(assertion_views(results@) =~= done + seq![result@]);
                if !passed && policy == FailurePolicy::StopAtFirst {
                    return Ok(results);
                }
                proof {
                    if let Ok(rest) = outcomes_from(ms, body@, policy, i + 1) {
                        assert(done + (seq![result@] + rest) =~= (done + seq![result@]) + rest);
                    }
                }
            },
        }
        i = i + 1;
    }
    assert(assertion_views(results@) + Seq::<AssertionResultView>::empty() =~= assertion_views(
        results@,
    ));
    Ok(results)
}

/// A nonempty list is all passes exactly when its front is and its last
/// result is a pass.
proof fn lemma_all_passed_push(results: Seq<AssertionResultView>)
    requires
        results.len() > 0,
    ensures
        all_passed(results) == (all_passed(results.drop_last()) && results.last().passed),
{
    let front = results.drop_last();
    if all_passed(front) && results.last().passed {
        assert forall|j: int| 0 <= j < results.len() implies (#[trigger] results[j]).passed by {
            if j < front.len() {
                assert(front[j].passed);
            }
        }
    } else if all_passed(results) {
        assert forall|j: int| 0 <= j < front.len() implies (#[trigger] front[j]).passed by {
            assert(results[j].passed);
        }
    }
}

/// Whether every result in the list is a pass.
pub fn every_passed(results: &Vec<AssertionResult>) -> (r: bool)
    ensures
        r == all_passed(assertion_views(results@)),
{
    let mut passed = true;
    let mut i: usize = 0;
    while i < results.len()
        invariant
            i <= results.len(),
            passed == all_passed(assertion_views(results@).take(i as int)),
        decreases results.len() - i,
    {
        let ghost views = assertion_views(results@);
        assert(views.take(i + 1).drop_last() =~= views.take(i as int));
        assert(views.take(i + 1).last() == results@[i as int]@);
        passed = passed && results[i].passed;
        i = i + 1;
        proof {
            lemma_all_passed_push(views.take(i as int));
        }
    }
    assert(assertion_views(results@).take(i as int) =~= assertion_views(results@));
    passed
}

impl TestItem {
    /// Whether `actual` is the status that the case declares.
    pub fn status_matches(&self, actual: u16) -> (r: bool)
        ensures
            r == status_matches(self@.status, actual as int),
    {
        (self.status as i32) == (actual as i32)
    }
}

/// Runs the cases of a suite, one request and one response at a time.
pub struct TestRunner {
    pub policy: FailurePolicy,
}

impl TestRunner {
    /// A runner that stops evaluating the assertions of a case at the first
    /// that fails.
    pub fn new() -> (r: Self)
        ensures
            r.policy == FailurePolicy::StopAtFirst,
    {
        TestRunner { policy: FailurePolicy::StopAtFirst }
    }

    /// A runner with the given policy.
    pub fn with_policy(policy: FailurePolicy) -> (r: Self)
        ensures
            r.policy == policy,
    {
        TestRunner { policy }
    }

    /// The method that `item` is sent with, where the transport takes it.
    pub fn method_of(&self, item: &TestItem) -> (r: Result<String, ItemError>)
        ensures
            match r {
                Ok(method) => method@ == item@.effective_method() && is_method_token(method@),
                Err(e) => e == ItemError::InvalidMethod && !is_method_token(
                    item@.effective_method(),
                ),
            },
    {
        let method = item.effective_method();
        if method_accepted(method.as_str()) {
            Ok(method)
        } else {
            Err(ItemError::InvalidMethod)
        }
    }

    /// The request that `item` asks for against `base_url`: its address, its
    /// method, the content type header, and its body exactly as declared.
    pub fn request_for(&self, item: &TestItem, base_url: &String) -> (r: Result<Request, ItemError>)
        ensures
            request_view(r) == request_of(item@, base_url@),
    {
        let url = item.full_path(base_url);
        let method = match self.method_of(item) {
            Ok(method) => method,
            Err(e) => {
                return Err(e);
            },
        };
        let body = match &item.json_data {
            Some(data) => Some(data.raw.clone()),
            None => None,
        };
        let mut headers: Vec<Header> = Vec::new();
        headers.push(
            Header {
                name: String::from_str(CONTENT_TYPE_HEADER),
                value: String::from_str(CONTENT_TYPE_JSON),
            },
        );
        assert(header_views(headers@) =~= request_headers());
        Ok(Request { method, url, headers, body })
    }

    /// The verdict on `item` for a response with the given status and body.
    pub fn judge_item(&self, item: &TestItem, status: u16, body: Vec<u8>) -> (r: Result<
        TestCaseResult,
        ItemError,
    >)
        ensures
            case_view(r) == case_result(item@, status as int, body@, self.policy),
    {
        let status_match = item.status_matches(status);
        let text = match text_from_utf8(body) {
            Some(text) => text,
            None => {
                return Err(ItemError::BodyNotText);
            },
        };
        let assertions = match &item.matches {
            Some(matches) => match evaluate_matches(matches, &text, self.policy) {
                Ok(results) => results,
                Err(e) => {
                    return Err(e);
                },
            },
            None => {
                let none: Vec<AssertionResult> = Vec::new();
                assert(assertion_views(none@) =~= Seq::<AssertionResultView>::empty());
                none
            },
        };
        let passed = status_match && every_passed(&assertions);
        Ok(TestCaseResult { status_match, assertions, passed })
    }
}

/// The status matches exactly when the response carries the declared number:
/// no other status of the same class counts. A case passes exactly when its
/// status matches and every assertion result it reports is a pass.
pub proof fn lemma_status_match(
    item: TestItemView,
    status: int,
    body: Seq<u8>,
    policy: FailurePolicy,
)
    ensures
        case_result(item, status, body, policy) matches Ok(result) ==> {
            &&& result.status_match == (status == item.status)
            &&& result.passed == (result.status_match && all_passed(result.assertions))
        },
{
}

/// The result at position `j` of an evaluation from index `i`: the verdict
/// of the assertion at `i + j`, with its expression and declared value.
pub open spec fn reports(
    results: Seq<AssertionResultView>,
    matches: Seq<MatchView>,
    body: Seq<char>,
    i: int,
    j: int,
) -> bool {
    matches[i + j].validate(body) matches Ok(v) && results[j] == (AssertionResultView {
        path: matches[i + j].path,
        expected: matches[i + j].value,
        actual: v.1,
        passed: v.0,
    })
}

/// The shape of every list of results. The result at each position is that
/// of the assertion at the same position. Under `EvaluateAll` there is a
/// result for every assertion. Under `StopAtFirst` only the last result can
/// be a failure, and results are missing only behind a failure.
pub proof fn lemma_outcomes_shape(
    matches: Seq<MatchView>,
    body: Seq<char>,
    policy: FailurePolicy,
    i: int,
)
    requires
        0 <= i <= matches.len(),
    ensures
        outcomes_from(matches, body, policy, i) matches Ok(results) ==> {
            &&& results.len() <= matches.len() - i
            &&& forall|j: int| 0 <= j < results.len() ==> reports(results, matches, body, i, j)
            &&& policy == FailurePolicy::EvaluateAll ==> results.len() == matches.len() - i
            &&& policy == FailurePolicy::StopAtFirst ==> {
                &&& forall|j: int| 0 <= j < results.len() - 1 ==> (#[trigger] results[j]).passed
                &&& results.len() < matches.len() - i ==> results.len() > 0
                    && !results.last().passed
            }
        },
    decreases matches.len() - i,
{
    if i < matches.len() {
        if let Ok(results) = outcomes_from(matches, body, policy, i) {
            let first = matches[i].validate(body)->Ok_0;
            if first.0 || policy == FailurePolicy::EvaluateAll {
                lemma_outcomes_shape(matches, body, policy, i + 1);
                let rest = outcomes_from(matches, body, policy, i + 1)->Ok_0;
                assert forall|j: int| 0 <= j < results.len() implies reports(
                    results,
                    matches,
                    body,
                    i,
                    j,
                ) by {
                    if j > 0 {
                        assert(reports(rest, matches, body, i + 1, j - 1));
                        assert(results[j] == rest[j - 1]);
                    }
                }
                if policy == FailurePolicy::StopAtFirst {
                    assert forall|j: int| 0 <= j < results.len() - 1 implies (
                    #[trigger] results[j]).passed by {
                        if j > 0 {
                            assert(results[j] == rest[j - 1]);
                        }
                    }
                    if results.len() < matches.len() - i {
                        assert(results.last() == rest.last());
                    }
                }
            } else {
                assert(reports(results, matches, body, i, 0));
            }
        }
    }
}

/// What evaluation from index `i` gives when the assertions from there up to
/// `k` pass and the one at `k` fails.
proof fn lemma_stops_at_failure(matches: Seq<MatchView>, body: Seq<char>, i: int, k: int)
    requires
        0 <= i <= k < matches.len(),
        forall|j: int| i <= j < k ==> (#[trigger] matches[j]).passes_on(body),
        matches[k].fails_on(body),
    ensures
        outcomes_from(matches, body, FailurePolicy::StopAtFirst, i) matches Ok(results)
            && results.len() == k - i + 1 && forall|j: int|
            0 <= j < results.len() ==> (#[trigger] results[j]) == (AssertionResultView {
                path: matches[i + j].path,
                expected: matches[i + j].value,
                actual: matches[i + j].validate(body)->Ok_0.1,
                passed: j < k - i,
            }),
    decreases k - i,
{
    if i < k {
        assert(matches[i].passes_on(body));
        lemma_stops_at_failure(matches, body, i + 1, k);
        let rest = outcomes_from(matches, body, FailurePolicy::StopAtFirst, i + 1)->Ok_0;
        let results = outcomes_from(matches, body, FailurePolicy::StopAtFirst, i)->Ok_0;
        assert forall|j: int| 0 <= j < results.len() implies (#[trigger] results[j]) == (
        AssertionResultView {
            path: matches[i + j].path,
            expected: matches[i + j].value,
            actual: matches[i + j].validate(body)->Ok_0.1,
            passed: j < k - i,
        }) by {
            if j > 0 {
                assert(results[j] == rest[j - 1]);
            }
        }
    }
}

/// Under `StopAtFirst`, evaluation ends at the first assertion that fails.
/// Where the assertions before index `k` pass and the one at `k` fails, the
/// results are those of the assertions up to `k` and no more, and they are the
/// same whatever stands behind `k`: an assertion there is never evaluated, not
/// even one that could not be.
pub proof fn lemma_short_circuit(a: Seq<MatchView>, b: Seq<MatchView>, body: Seq<char>, k: int)
    requires
        0 <= k < a.len(),
        k < b.len(),
        forall|j: int| 0 <= j <= k ==> a[j] == b[j],
        forall|j: int| 0 <= j < k ==> (#[trigger] a[j]).passes_on(body),
        a[k].fails_on(body),
    ensures
        outcomes(a, body, FailurePolicy::StopAtFirst) == outcomes(
            b,
            body,
            FailurePolicy::StopAtFirst,
        ),
        outcomes(a, body, FailurePolicy::StopAtFirst) matches Ok(results) && results.len() == k + 1
            && !results[k].passed && results[k].path == a[k].path && all_passed(results.take(k)),
{
    lemma_stops_at_failure(a, body, 0, k);
    assert forall|j: int| 0 <= j < k implies (#[trigger] b[j]).passes_on(body) by {
        assert(a[j].passes_on(body));
    }
    lemma_stops_at_failure(b, body, 0, k);
    let ra = outcomes(a, body, FailurePolicy::StopAtFirst)->Ok_0;
    let rb = outcomes(b, body, FailurePolicy::StopAtFirst)->Ok_0;
    assert(ra =~= rb);
}

} // verus!
