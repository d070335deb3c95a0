use apicheck::{
    FailurePolicy, ItemError, Match, RunError, Step, SuiteResult, SuiteRun, TestCollection,
    TestItem, TestRunner, ValidateError,
};

fn case(description: &str, path: Option<&str>, status: i16, matches: Option<Vec<Match>>) -> TestItem {
    TestItem {
        description: description.to_string(),
        path: path.map(|p| p.to_string()),
        method: None,
        json_data: None,
        status,
        matches,
    }
}

fn length_match(path: &str, value: &str) -> Match {
    Match { path: path.to_string(), value: value.to_string(), is_length: Some(true) }
}

fn items_suite(path: &str) -> TestCollection {
    TestCollection {
        base_url: "http://x".to_string(),
        tests: vec![case("get", Some("/items"), 200, Some(vec![length_match(path, "3")]))],
    }
}

fn url_of(step: Result<Step, RunError>) -> String {
    match step {
        Ok(Step::Send(request)) => request.url,
        other => panic!("expected a request, got {:?}", other),
    }
}

fn verdict_of(step: Result<Step, RunError>) -> SuiteResult {
    match step {
        Ok(Step::Done(result)) => result,
        other => panic!("expected a verdict, got {:?}", other),
    }
}

#[test]
fn suite_with_three_items_passes() {
    let mut run = TestRunner::new().start(items_suite("$[*]"));
    match run.step() {
        Ok(Step::Send(request)) => {
            assert_eq!(request.method, "GET");
            assert_eq!(request.url, "http://x/items");
            assert_eq!(request.body, None);
        }
        other => panic!("expected a request, got {:?}", other),
    }
    assert_eq!(run.respond(200, b"[1,2,3]".to_vec()), Ok(()));
    assert_eq!(run.results().len(), 1);
    assert!(run.results()[0].status_match);
    assert!(run.results()[0].passed);
    assert_eq!(run.results()[0].assertions[0].actual, "3");
    assert_eq!(verdict_of(run.step()), SuiteResult { passed: true });
}

#[test]
fn suite_with_length_key_on_an_array_fails() {
    let mut run = TestRunner::new().start(items_suite("$.length"));
    assert_eq!(run.respond(200, b"[1,2,3]".to_vec()), Ok(()));
    assert!(run.results()[0].status_match);
    assert!(!run.results()[0].passed);
    assert_eq!(run.results()[0].assertions[0].actual, "0");
    assert_eq!(verdict_of(run.step()), SuiteResult { passed: false });
}

#[test]
fn suite_fails_on_not_found() {
    for path in ["$[*]", "$.length"] {
        let mut run = TestRunner::new().start(items_suite(path));
        assert_eq!(run.respond(404, b"[1,2,3]".to_vec()), Ok(()));
        assert_eq!(run.results().len(), 1);
        assert!(!run.results()[0].status_match);
        assert!(!run.results()[0].passed);
        assert_eq!(verdict_of(run.step()), SuiteResult { passed: false });
    }
}

#[test]
fn failed_case_does_not_skip_later_cases() {
    let suite = TestCollection {
        base_url: "http://x".to_string(),
        tests: vec![
            case("first", Some("/a"), 200, None),
            case("second", Some("/b"), 200, None),
            case("third", Some("/c"), 200, None),
            case("fourth", None, 204, None),
        ],
    };
    let mut run = SuiteRun::start(TestRunner::new(), suite);
    assert_eq!(url_of(run.step()), "http://x/a");
    assert_eq!(run.respond(200, Vec::new()), Ok(()));
    assert_eq!(url_of(run.step()), "http://x/b");
    assert_eq!(run.respond(404, Vec::new()), Ok(()));
    assert_eq!(url_of(run.step()), "http://x/c");
    assert_eq!(run.respond(200, Vec::new()), Ok(()));
    assert_eq!(url_of(run.step()), "http://x");
    assert_eq!(run.respond(204, Vec::new()), Ok(()));
    let passed: Vec<bool> = run.results().iter().map(|r| r.passed).collect();
    assert_eq!(passed, vec![true, false, true, true]);
    assert_eq!(verdict_of(run.step()), SuiteResult { passed: false });
}

#[test]
fn suite_passes_only_when_every_case_passes() {
    for failing in 0..4usize {
        let suite = TestCollection {
            base_url: "http://x".to_string(),
            tests: (0..3).map(|_| case("c", None, 200, None)).collect(),
        };
        let mut run = SuiteRun::start(TestRunner::new(), suite);
        for k in 0..3usize {
            let status = if k == failing { 500 } else { 200 };
            assert_eq!(run.respond(status, Vec::new()), Ok(()));
        }
        assert_eq!(run.results().len(), 3);
        assert_eq!(verdict_of(run.step()), SuiteResult { passed: failing == 3 });
    }
}

#[test]
fn empty_suite_passes_at_once() {
    let suite = TestCollection { base_url: "http://x".to_string(), tests: vec![] };
    let mut run = SuiteRun::start(TestRunner::new(), suite);
    assert_eq!(verdict_of(run.step()), SuiteResult { passed: true });
    assert_eq!(run.respond(200, Vec::new()), Err(RunError::NoCasePending));
    assert!(run.results().is_empty());
}

#[test]
fn step_does_not_advance_the_run() {
    let mut run = SuiteRun::start(TestRunner::new(), items_suite("$[*]"));
    assert_eq!(url_of(run.step()), "http://x/items");
    assert_eq!(url_of(run.step()), "http://x/items");
    assert!(run.results().is_empty());
    assert_eq!(run.respond(200, b"[1,2,3]".to_vec()), Ok(()));
    assert_eq!(verdict_of(run.step()), SuiteResult { passed: true });
    assert_eq!(verdict_of(run.step()), SuiteResult { passed: true });
}

#[test]
fn response_after_the_last_case_is_refused() {
    let mut run = SuiteRun::start(TestRunner::new(), items_suite("$[*]"));
    assert_eq!(run.respond(200, b"[1,2,3]".to_vec()), Ok(()));
    assert_eq!(run.respond(200, b"[1,2,3]".to_vec()), Err(RunError::NoCasePending));
    assert_eq!(run.results().len(), 1);
}

#[test]
fn invalid_method_ends_the_run_at_its_case() {
    let mut bad = case("bad", None, 200, None);
    bad.method = Some("NOT A METHOD".to_string());
    let suite = TestCollection {
        base_url: "http://x".to_string(),
        tests: vec![case("ok", None, 200, None), bad, case("never", None, 200, None)],
    };
    let mut run = SuiteRun::start(TestRunner::new(), suite);
    assert_eq!(url_of(run.step()), "http://x");
    assert_eq!(run.respond(200, Vec::new()), Ok(()));
    let error = RunError::Case { case: 1, error: ItemError::InvalidMethod };
    assert_eq!(run.step().err(), Some(error));
    assert_eq!(run.halted(), None);
    assert_eq!(run.respond(200, Vec::new()), Err(error));
    assert_eq!(run.halted(), Some(error));
    assert_eq!(run.results().len(), 1);
    assert_eq!(run.step().err(), Some(error));
}

#[test]
fn fatal_response_ends_the_run() {
    let suite = TestCollection {
        base_url: "http://x".to_string(),
        tests: vec![
            case("ok", None, 200, None),
            case("json", Some("/j"), 200, Some(vec![length_match("$[*]", "1")])),
            case("never", Some("/n"), 200, None),
        ],
    };
    let mut run = SuiteRun::start(TestRunner::new(), suite);
    assert_eq!(run.respond(200, Vec::new()), Ok(()));
    assert_eq!(run.halted(), None);
    let error = RunError::Case {
        case: 1,
        error: ItemError::Assertion { index: 0, error: ValidateError::MalformedJson },
    };
    assert_eq!(run.respond(200, b"oops".to_vec()), Err(error));
    assert_eq!(run.halted(), Some(error));
    assert_eq!(run.results().len(), 1);
    assert_eq!(run.step().err(), Some(error));
    assert_eq!(run.respond(200, b"[7]".to_vec()), Err(error));
    assert_eq!(run.results().len(), 1);
    assert_eq!(run.step().err(), Some(error));
}

#[test]
fn each_fatal_error_names_its_case() {
    let suite = || TestCollection {
        base_url: "http://x".to_string(),
        tests: vec![
            case("ok", None, 200, None),
            case("json", None, 200, Some(vec![length_match("$[*]", "x"), length_match("$[::0]", "1")])),
        ],
    };
    let run_with = |body: Vec<u8>| {
        let mut run = SuiteRun::start(TestRunner::new(), suite());
        assert_eq!(run.respond(200, Vec::new()), Ok(()));
        run.respond(200, body)
    };
    assert_eq!(run_with(vec![0x80]), Err(RunError::Case { case: 1, error: ItemError::BodyNotText }));
    assert_eq!(
        run_with(b"[1]".to_vec()),
        Err(RunError::Case {
            case: 1,
            error: ItemError::Assertion { index: 0, error: ValidateError::ExpectedNotCount },
        })
    );
    let all = |body: Vec<u8>| {
        let mut run = SuiteRun::start(TestRunner::with_policy(FailurePolicy::EvaluateAll), TestCollection {
            base_url: "http://x".to_string(),
            tests: vec![case("json", None, 200, Some(vec![length_match("$[*]", "7"), length_match("$[::0]", "1")]))],
        });
        run.respond(200, body)
    };
    assert_eq!(
        all(b"[1]".to_vec()),
        Err(RunError::Case {
            case: 0,
            error: ItemError::Assertion { index: 1, error: ValidateError::UnsupportedPath },
        })
    );
}

#[test]
fn stray_response_does_not_spoil_the_verdict() {
    let mut run = SuiteRun::start(TestRunner::new(), items_suite("$[*]"));
    assert_eq!(run.respond(200, b"[1,2,3]".to_vec()), Ok(()));
    assert_eq!(run.respond(500, vec![0xff]), Err(RunError::NoCasePending));
    assert_eq!(run.halted(), None);
    assert_eq!(verdict_of(run.step()), SuiteResult { passed: true });
}

#[test]
fn run_keeps_the_policy_of_its_runner() {
    let suite = || TestCollection {
        base_url: "http://x".to_string(),
        tests: vec![case(
            "two",
            None,
            200,
            Some(vec![length_match("$[*]", "9"), length_match("$[*]", "1")]),
        )],
    };
    let mut stop = TestRunner::new().start(suite());
    assert_eq!(stop.respond(200, b"[0]".to_vec()), Ok(()));
    assert_eq!(stop.results()[0].assertions.len(), 1);
    let mut all = TestRunner::with_policy(FailurePolicy::EvaluateAll).start(suite());
    assert_eq!(all.respond(200, b"[0]".to_vec()), Ok(()));
    assert_eq!(all.results()[0].assertions.len(), 2);
    assert!(!all.results()[0].passed);
    assert_eq!(verdict_of(all.step()), SuiteResult { passed: false });
}
