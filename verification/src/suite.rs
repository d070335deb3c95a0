//! A suite run as a state machine: it names the next request, takes the
//! response, and ends with the verdict on the suite. The caller does the
//! sending.

use vstd::prelude::*;
use crate::model::{item_views, TestCollection, TestItemView};
use crate::verdict::{
    case_result,
    request_of,
    FailurePolicy,
    ItemError,
    Request,
    RequestView,
    TestCaseResult,
    TestCaseResultView,
    TestRunner,
};

verus! {

/// The verdict on a whole suite.
#[derive(Debug, Clone, Copy, PartialEq, Eq, Structural)]
pub struct SuiteResult {
    pub passed: bool,
}

/// Why a run gives no verdict, or takes no response.
#[derive(Debug, Clone, Copy, PartialEq, Eq, Structural)]
pub enum RunError {
    /// The case at index `case` could not be run to a verdict. This ends the
    /// run.
    Case { case: usize, error: ItemError },
    /// A response was handed in after the last case was answered.
    NoCasePending,
}

/// What a run asks of its caller next.
#[derive(Debug, Clone)]
pub enum Step {
    /// Send this request and hand back the response.
    Send(Request),
    /// Every case is answered; this is the verdict.
    Done(SuiteResult),
}

/// A `Step` as plain values.
pub enum StepView {
    Send(RequestView),
    Done(SuiteResult),
}

impl View for Step {
    type V = StepView;

    open spec fn view(&self) -> StepView {
        match self {
            Step::Send(request) => StepView::Send(request@),
            Step::Done(result) => StepView::Done(*result),
        }
    }
}

/// The plain values of a list of case results.
pub open spec fn case_views(results: Seq<TestCaseResult>) -> Seq<TestCaseResultView> {
    results.map_values(|r: TestCaseResult| r@)
}

/// The verdict on a suite: the conjunction of the case verdicts, folded in
/// the order of the cases.
pub open spec fn suite_passed(results: Seq<TestCaseResultView>) -> bool
    decreases results.len(),
{
    if results.len() == 0 {
        true
    } else {
        suite_passed(results.drop_last()) && results.last().passed
    }
}

/// A run as plain values: the suite, the results of the cases answered so
/// far, and the error that ended the run if one did.
pub struct SuiteRunView {
    pub policy: FailurePolicy,
    pub base_url: Seq<char>,
    pub tests: Seq<TestItemView>,
    pub results: Seq<TestCaseResultView>,
    pub halted: Option<RunError>,
}

impl SuiteRunView {
    /// There is never more than one result for each case.
    pub open spec fn wf(self) -> bool {
        self.results.len() <= self.tests.len()
    }

    /// Whether every case is answered.
    pub open spec fn finished(self) -> bool {
        self.results.len() >= self.tests.len()
    }

    /// The case in turn: the first without a result.
    pub open spec fn current(self) -> TestItemView {
        self.tests[self.results.len() as int]
    }

    /// What the run asks for next: the request of the case in turn, or the
    /// verdict once every case is answered. A run that an error ended gives
    /// that error, and so does one whose case in turn has no method name for
    /// its method.
    pub open spec fn next_step(self) -> Result<StepView, RunError> {
        if let Some(e) = self.halted {
            Err(e)
        } else if self.finished() {
            Ok(StepView::Done(SuiteResult { passed: suite_passed(self.results) }))
        } else {
            match request_of(self.current(), self.base_url) {
                Ok(request) => Ok(StepView::Send(request)),
                Err(error) => Err(RunError::Case { case: self.results.len() as usize, error }),
            }
        }
    }

    /// Why a response with this status and body adds no result, if it adds
    /// none: the run has ended, no case is in turn, the request of the case
    /// in turn could not be made, or the case cannot be judged.
    pub open spec fn fault(self, status: int, body: Seq<u8>) -> Option<RunError> {
        if let Some(e) = self.halted {
            Some(e)
        } else if self.finished() {
            Some(RunError::NoCasePending)
        } else if let Err(error) = request_of(self.current(), self.base_url) {
            Some(RunError::Case { case: self.results.len() as usize, error })
        } else if let Err(error) = case_result(self.current(), status, body, self.policy) {
            Some(RunError::Case { case: self.results.len() as usize, error })
        } else {
            None
        }
    }

    /// The run after a response with this status and body. Without a fault
    /// the result of the case in turn is added, whether the case passed or
    /// not. A fault of a case ends the run; a response that no case waits for
    /// changes nothing.
    pub open spec fn answered(self, status: int, body: Seq<u8>) -> SuiteRunView {
        match self.fault(status, body) {
            None => SuiteRunView {
                results: self.results.push(
                    case_result(self.current(), status, body, self.policy)->Ok_0,
                ),
                ..self
            },
            Some(RunError::NoCasePending) => self,
            Some(e) => SuiteRunView { halted: Some(e), ..self },
        }
    }
}

/// A step or an error, the step taken as plain values.
pub open spec fn step_view(r: Result<Step, RunError>) -> Result<StepView, RunError> {
    match r {
        Ok(step) => Ok(step@),
        Err(e) => Err(e),
    }
}

/// Folds the case verdicts into the verdict on the suite.
pub fn fold_passed(results: &Vec<TestCaseResult>) -> (r: bool)
    ensures
        r == suite_passed(case_views(results@)),
{
    let mut passed = true;
    let mut i: usize = 0;
    while i < results.len()
        invariant
            i <= results.len(),
            passed == suite_passed(case_views(results@).take(i as int)),
        decreases results.len() - i,
    {
        let ghost views = case_views(results@);
        assert(views.take(i + 1).drop_last() =~= views.take(i as int));
        assert(views.take(i + 1).last() == results@[i as int]@);
        passed = passed && results[i].passed;
        i = i + 1;
    }
    assert(case_views(results@).take(i as int) =~= case_views(results@));
    passed
}

/// A suite that is being run.
pub struct SuiteRun {
    runner: TestRunner,
    collection: TestCollection,
    results: Vec<TestCaseResult>,
    halted: Option<RunError>,
}

impl View for SuiteRun {
    type V = SuiteRunView;

    closed spec fn view(&self) -> SuiteRunView {
        SuiteRunView {
            policy: self.runner.policy,
            base_url: self.collection.base_url@,
            tests: item_views(self.collection.tests@),
            results: case_views(self.results@),
            halted: self.halted,
        }
    }
}

impl SuiteRun {
    #[verifier::type_invariant]
    spec fn inv(self) -> bool {
        self.results@.len() <= self.collection.tests@.len()
    }

    /// A run of `collection` in which no case is answered yet, with the
    /// policy of `runner`.
    pub fn start(runner: TestRunner, collection: TestCollection) -> (r: SuiteRun)
        ensures
            r@.wf(),
            r@.policy == runner.policy,
            r@.base_url == collection@.base_url,
            r@.tests == collection@.tests,
            r@.results == Seq::<TestCaseResultView>::empty(),
            r@.halted.is_none(),
    {
        SuiteRun { runner, collection, results: Vec::new(), halted: None }
    }

    /// The results of the cases answered so far, in their order.
    pub fn results(&self) -> (r: &Vec<TestCaseResult>)
        ensures
            case_views(r@) == self@.results,
            self@.wf(),
    {
        proof {
            use_type_invariant(self);
        }
        &self.results
    }

    /// The error that ended the run, if one did.
    pub fn halted(&self) -> (r: Option<RunError>)
        ensures
            r == self@.halted,
    {
        self.halted
    }

    /// What to do next. The run itself is not changed.
    pub fn step(&self) -> (r: Result<Step, RunError>)
        ensures
            self@.wf(),
            step_view(r) == self@.next_step(),
    {
        proof {
            use_type_invariant(self);
        }
        if let Some(e) = self.halted {
            return Err(e);
        }
        let at: usize = self.results.len();
        if at >= self.collection.tests.len() {
            return Ok(Step::Done(SuiteResult { passed: fold_passed(&self.results) }));
        }
        match self.runner.request_for(&self.collection.tests[at], &self.collection.base_url) {
            Ok(request) => Ok(Step::Send(request)),
            Err(error) => Err(RunError::Case { case: at, error }),
        }
    }

    /// Takes the response to the case in turn and records the verdict on it.
    /// An error that comes from the case ends the run.
    pub fn respond(&mut self, status: u16, body: Vec<u8>) -> (r: Result<(), RunError>)
        ensures
            final(self)@.wf(),
            final(self)@ == old(self)@.answered(status as int, body@),
            r == match old(self)@.fault(status as int, body@) {
                Some(e) => Err::<(), RunError>(e),
                None => Ok::<(), RunError>(()),
            },
    {
        proof {
            use_type_invariant(&*self);
        }
        if let Some(e) = self.halted {
            return Err(e);
        }
        let at: usize = self.results.len();
        if at >= self.collection.tests.len() {
            return Err(RunError::NoCasePending);
        }
        let judged = match self.runner.method_of(&self.collection.tests[at]) {
            Ok(_) => self.runner.judge_item(&self.collection.tests[at], status, body),
            Err(e) => Err(e),
        };
        match judged {
            Ok(result) => {
                let ghost before = case_views(self.results@);
                let mut results: Vec<TestCaseResult> = Vec::new();
                core::mem::swap(&mut self.results, &mut results);
                results.push(result);
                core::mem::swap(&mut self.results, &mut results);
                assert(case_views(self.results@) =~= before.push(result@));
                Ok(())
            },
            Err(error) => {
                let e = RunError::Case { case: at, error };
                self.halted = Some(e);
                Err(e)
            },
        }
    }
}

impl TestRunner {
    /// Begins a run of `collection` under this runner's policy.
    pub fn start(self, collection: TestCollection) -> (r: SuiteRun)
        ensures
            r@.wf(),
            r@.policy == self.policy,
            r@.base_url == collection@.base_url,
            r@.tests == collection@.tests,
            r@.results == Seq::<TestCaseResultView>::empty(),
            r@.halted.is_none(),
    {
        SuiteRun::start(self, collection)
    }
}

/// The verdict on a suite is a pass exactly when every case passed: one
/// failed case fails the suite, wherever it stands, and nothing else does.
pub proof fn lemma_suite_passed_is_conjunction(results: Seq<TestCaseResultView>)
    ensures
        suite_passed(results) <==> forall|i: int| 0 <= i < results.len() ==> (#[trigger] results[i]).passed,
    decreases results.len(),
{
    if results.len() > 0 {
        let front = results.drop_last();
        lemma_suite_passed_is_conjunction(front);
        if suite_passed(results) {
            assert forall|i: int| 0 <= i < results.len() implies (#[trigger] results[i]).passed by {
                if i < results.len() - 1 {
                    assert(front[i].passed);
                }
            }
        } else if forall|i: int| 0 <= i < results.len() ==> (#[trigger] results[i]).passed {
            assert forall|i: int| 0 <= i < front.len() implies (#[trigger] front[i]).passed by {
                assert(results[i].passed);
            }
        }
    }
}

/// A failed case does not end the run. While a case is in turn, a response
/// that can be judged adds exactly one result and changes nothing else,
/// whatever the verdicts so far and whatever the new verdict is; the run then
/// goes on with the next case, or gives its verdict after the last.
pub proof fn lemma_failure_does_not_stop(run: SuiteRunView, status: int, body: Seq<u8>)
    requires
        run.wf(),
        run.fault(status, body).is_none(),
    ensures
        ({
            let next = run.answered(status, body);
            &&& next.wf()
            &&& next.results == run.results.push(
                case_result(run.current(), status, body, run.policy)->Ok_0,
            )
            &&& next.tests == run.tests
            &&& next.halted.is_none()
            &&& next.finished() ==> next.next_step() is Ok
        }),
{
}

/// A run gives its verdict only when every case has a result, and the
/// verdict is then the conjunction of all of them.
pub proof fn lemma_verdict_covers_every_case(run: SuiteRunView)
    requires
        run.wf(),
    ensures
        run.next_step() matches Ok(StepView::Done(verdict)) ==> {
            &&& run.results.len() == run.tests.len()
            &&& verdict.passed == (forall|i: int|
                0 <= i < run.results.len() ==> (#[trigger] run.results[i]).passed)
        },
{
    lemma_suite_passed_is_conjunction(run.results);
}

/// An error of a case ends the run: the run keeps the error, adds no
/// further result, asks for no further request, and gives no verdict.
pub proof fn lemma_error_ends_run(run: SuiteRunView, status: int, body: Seq<u8>)
    ensures
        run.fault(status, body) matches Some(RunError::Case { case, error }) ==> {
            let next = run.answered(status, body);
            &&& next.halted == Some(RunError::Case { case, error })
            &&& next.results == run.results
        },
        run.halted matches Some(e) ==> {
            &&& run.next_step() == Err::<StepView, RunError>(e)
            &&& run.fault(status, body) == Some(e)
            &&& run.answered(status, body).results == run.results
            &&& run.answered(status, body).halted == Some(e)
        },
{
}

} // verus!
