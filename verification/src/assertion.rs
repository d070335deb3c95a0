//! Evaluating one assertion against a response body.
//!
//! The body is parsed and the expression evaluated by the outside crates; what
//! they select is copied into a `Selection` of plain values, and the verdict
//! is decided on that.

use vstd::prelude::*;
use vstd::string::*;
use crate::count::{count_of, decimal_text, parse_count, render_count};
use crate::json::{
    debug_text,
    json_document,
    parse_document,
    path_selection,
    render_values,
    select_values,
    string_content,
    value_as_str,
    values_of,
};
use crate::model::{Match, MatchView};
use crate::path::{path_is_supported, path_supported};

verus! {

/// Why an assertion could not be evaluated at all. Each of these ends the
/// run: none is a failed expectation.
#[derive(Debug, Clone, Copy, PartialEq, Eq, Structural)]
pub enum ValidateError {
    /// The response body is not a JSON document.
    MalformedJson,
    /// The expression is one that is not handed to the evaluator.
    UnsupportedPath,
    /// The evaluator refused the expression.
    MalformedPath,
    /// A count is expected, and the declared value is not a count.
    ExpectedNotCount,
}

/// What an expression selected from a document, as far as a verdict reads it.
#[derive(Debug, Clone)]
pub struct Selection {
    /// For each selected value in order: its text where it is a JSON string,
    /// `None` where it is anything else.
    pub texts: Vec<Option<String>>,
    /// The selected values written out for a report.
    pub rendering: String,
}

/// A `Selection` as plain values.
pub struct SelectionView {
    pub texts: Seq<Option<Seq<char>>>,
    pub rendering: Seq<char>,
}

impl View for Selection {
    type V = SelectionView;

    open spec fn view(&self) -> SelectionView {
        SelectionView {
            texts: self.texts@.map_values(|t: Option<String>| crate::model::text_of(t)),
            rendering: self.rendering@,
        }
    }
}

/// The selected values written out: `[]` where nothing is selected, else
/// what the outside formatting writes.
pub open spec fn rendering_of(values: Seq<serde_json::Value>) -> Seq<char> {
    if values.len() == 0 {
        seq!['[', ']']
    } else {
        debug_text(values)
    }
}

/// The selection that a list of values stands for.
pub open spec fn selection_of(values: Seq<serde_json::Value>) -> SelectionView {
    SelectionView {
        texts: values.map_values(|v: serde_json::Value| string_content(v)),
        rendering: rendering_of(values),
    }
}

/// What evaluating `path` on the document written in `body` gives: the
/// selection, or the reason there is none. A body that is not JSON is reported
/// first, then an expression that is not evaluated, then one that the
/// evaluator refuses.
pub open spec fn selection_in(body: Seq<char>, path: Seq<char>) -> Result<
    SelectionView,
    ValidateError,
> {
    match json_document(body) {
        None => Err(ValidateError::MalformedJson),
        Some(doc) => if !path_supported(path) {
            Err(ValidateError::UnsupportedPath)
        } else {
            match path_selection(doc, path) {
                None => Err(ValidateError::MalformedPath),
                Some(values) => Ok(selection_of(values)),
            }
        },
    }
}

/// An expectation with its kind decided: a number of values, or one text.
#[derive(Debug, Clone)]
pub enum Expectation {
    Length(usize),
    Value(String),
}

/// An `Expectation` as plain values.
pub enum ExpectationView {
    Length(usize),
    Value(Seq<char>),
}

impl View for Expectation {
    type V = ExpectationView;

    open spec fn view(&self) -> ExpectationView {
        match self {
            Expectation::Length(n) => ExpectationView::Length(*n),
            Expectation::Value(v) => ExpectationView::Value(v@),
        }
    }
}

impl ExpectationView {
    /// Whether a selection meets the expectation. A count is met by exactly
    /// that many selected values. A text is met only by a selection of exactly
    /// one value that is a JSON string with exactly that text.
    pub open spec fn holds(self, selection: SelectionView) -> bool {
        match self {
            ExpectationView::Length(n) => selection.texts.len() == n,
            ExpectationView::Value(v) => selection.texts.len() == 1 && selection.texts[0] == Some(
                v,
            ),
        }
    }

    /// What is reported as found: the number of selected values in decimal
    /// for a count, the written-out values for a text.
    pub open spec fn actual(self, selection: SelectionView) -> Seq<char> {
        match self {
            ExpectationView::Length(_) => decimal_text(selection.texts.len()),
            ExpectationView::Value(_) => selection.rendering,
        }
    }
}

impl MatchView {
    /// The expectation that the assertion declares, or `None` where it asks
    /// for a count and its value is not one.
    pub open spec fn expectation(self) -> Option<ExpectationView> {
        if self.counts() {
            match count_of(self.value) {
                Some(n) => Some(ExpectationView::Length(n)),
                None => None,
            }
        } else {
            Some(ExpectationView::Value(self.value))
        }
    }

    /// The verdict on a selection with what was found, or the error.
    pub open spec fn verdict_on(self, selection: SelectionView) -> Result<
        (bool, Seq<char>),
        ValidateError,
    > {
        match self.expectation() {
            None => Err(ValidateError::ExpectedNotCount),
            Some(e) => Ok((e.holds(selection), e.actual(selection))),
        }
    }

    /// The verdict on a response body. Errors come in the order: body,
    /// expression, declared count.
    pub open spec fn validate(self, body: Seq<char>) -> Result<(bool, Seq<char>), ValidateError> {
        match selection_in(body, self.path) {
            Err(e) => Err(e),
            Ok(selection) => self.verdict_on(selection),
        }
    }

    /// Whether the assertion can be evaluated on `body` and passes.
    pub open spec fn passes_on(self, body: Seq<char>) -> bool {
        match self.validate(body) {
            Ok((passed, _)) => passed,
            Err(_) => false,
        }
    }

    /// Whether the assertion can be evaluated on `body` and fails.
    pub open spec fn fails_on(self, body: Seq<char>) -> bool {
        match self.validate(body) {
            Ok((passed, _)) => !passed,
            Err(_) => false,
        }
    }
}

/// A verdict with its text taken as a sequence of characters.
pub open spec fn verdict_view(r: Result<(bool, String), ValidateError>) -> Result<
    (bool, Seq<char>),
    ValidateError,
> {
    match r {
        Ok((passed, actual)) => Ok((passed, actual@)),
        Err(e) => Err(e),
    }
}

/// A selection result with the selection taken as plain values.
pub open spec fn selection_view(r: Result<Selection, ValidateError>) -> Result<
    SelectionView,
    ValidateError,
> {
    match r {
        Ok(selection) => Ok(selection@),
        Err(e) => Err(e),
    }
}

/// Copies what a verdict reads out of the selected values.
fn read_selection(found: &Vec<&serde_json::Value>) -> (r: Selection)
    ensures
        r@ == selection_of(values_of(found@)),
{
    let mut texts: Vec<Option<String>> = Vec::new();
    let mut i: usize = 0;
    while i < found.len()
        invariant
            i <= found.len(),
            texts.len() == i,
            forall|j: int|
                0 <= j < i ==> crate::model::text_of(#[trigger] texts@[j]) == string_content(
                    *found@[j],
                ),
        decreases found.len() - i,
    {
        let text = match value_as_str(found[i]) {
            Some(s) => Some(s.to_owned()),
            None => None,
        };
        texts.push(text);
        i = i + 1;
    }
    let rendering = render_values(found);
    let r = Selection { texts, rendering };
    assert(r@.texts =~= selection_of(values_of(found@)).texts);
    r
}

/// Parses `body` as JSON and evaluates the JSONPath expression `path` on it.
pub fn select(body: &str, path: &str) -> (r: Result<Selection, ValidateError>)
    ensures
        selection_view(r) == selection_in(body@, path@),
{
    let doc = match parse_document(body) {
        Ok(doc) => doc,
        Err(_) => {
            return Err(ValidateError::MalformedJson);
        },
    };
    if !path_is_supported(path) {
        return Err(ValidateError::UnsupportedPath);
    }
    match select_values(&doc, path) {
        Ok(found) => Ok(read_selection(&found)),
        Err(_) => Err(ValidateError::MalformedPath),
    }
}

impl Expectation {
    /// Decides whether `selection` meets the expectation, and says what was
    /// found in its place.
    pub fn judge(&self, selection: &Selection) -> (r: (bool, String))
        ensures
            r.0 == self@.holds(selection@),
            r.1@ == self@.actual(selection@),
    {
        match self {
            Expectation::Length(n) => {
                let found: usize = selection.texts.len();
                (*n == found, render_count(found))
            },
            Expectation::Value(v) => {
                let passed = selection.texts.len() == 1 && match &selection.texts[0] {
                    Some(t) => *t == *v,
                    None => false,
                };
                (passed, selection.rendering.clone())
            },
        }
    }
}

impl Match {
    /// Decides the kind of the expectation, reading the declared count where
    /// one is asked for.
    pub fn expectation(&self) -> (r: Result<Expectation, ValidateError>)
        ensures
            match r {
                Ok(e) => self@.expectation() == Some(e@),
                Err(e) => e == ValidateError::ExpectedNotCount && self@.expectation().is_none(),
            },
    {
        let counts = match self.is_length {
            Some(flag) => flag,
            None => false,
        };
        if counts {
            match parse_count(self.value.as_str()) {
                Some(n) => Ok(Expectation::Length(n)),
                None => Err(ValidateError::ExpectedNotCount),
            }
        } else {
            Ok(Expectation::Value(self.value.clone()))
        }
    }

    /// The verdict of this assertion on a selection that was already made.
    pub fn check(&self, selection: &Selection) -> (r: Result<(bool, String), ValidateError>)
        ensures
            verdict_view(r) == self@.verdict_on(selection@),
    {
        match self.expectation() {
            Ok(e) => Ok(e.judge(selection)),
            Err(e) => Err(e),
        }
    }

    /// Evaluates this assertion against a response body: whether it passes,
    /// and what was found.
    pub fn validate(&self, json_resp_str: &String) -> (r: Result<(bool, String), ValidateError>)
        ensures
            verdict_view(r) == self@.validate(json_resp_str@),
    {
        match select(json_resp_str.as_str(), self.path.as_str()) {
            Ok(selection) => self.check(&selection),
            Err(e) => Err(e),
        }
    }
}

/// An assertion gets a verdict unless one of four things holds, and each
/// gives its own error: the body is not JSON; the expression is one that the
/// evaluator cannot survive; the evaluator refuses the expression; a count is
/// asked for and the declared value is none.
pub proof fn lemma_validate_errors(m: MatchView, body: Seq<char>)
    ensures
        m.validate(body) == Err::<(bool, Seq<char>), ValidateError>(ValidateError::MalformedJson)
            <==> json_document(body).is_none(),
        m.validate(body) == Err::<(bool, Seq<char>), ValidateError>(ValidateError::UnsupportedPath)
            <==> json_document(body).is_some() && !path_supported(m.path),
        m.validate(body) == Err::<(bool, Seq<char>), ValidateError>(ValidateError::MalformedPath)
            <==> json_document(body).is_some() && path_supported(m.path) && path_selection(
            json_document(body).unwrap(),
            m.path,
        ).is_none(),
        m.validate(body) == Err::<(bool, Seq<char>), ValidateError>(
            ValidateError::ExpectedNotCount,
        ) <==> json_document(body).is_some() && path_supported(m.path) && path_selection(
            json_document(body).unwrap(),
            m.path,
        ).is_some() && m.counts() && count_of(m.value).is_none(),
{
}

/// A count assertion passes exactly when the expression selects that many
/// values: for every document, every expression that is handed to the
/// evaluator and accepted by it, and every declared count `n`, the verdict
/// is `values.len() == n`, and what is reported as found is the number of
/// selected values.
pub proof fn lemma_length_assertion(
    m: MatchView,
    n: usize,
    body: Seq<char>,
    doc: serde_json::Value,
    values: Seq<serde_json::Value>,
)
    requires
        m.counts(),
        count_of(m.value) == Some(n),
        path_supported(m.path),
        json_document(body) == Some(doc),
        path_selection(doc, m.path) == Some(values),
    ensures
        m.validate(body) == Ok::<(bool, Seq<char>), ValidateError>(
            (values.len() == n, decimal_text(values.len())),
        ),
{
}

/// A text assertion passes exactly when the expression selects one value and
/// that value is a JSON string whose text is the declared value, character
/// for character. No value, several values, or a value that is not a string
/// fail it. What is reported as found is the selected values written out,
/// `[]` where there is none.
pub proof fn lemma_value_assertion(
    m: MatchView,
    body: Seq<char>,
    doc: serde_json::Value,
    values: Seq<serde_json::Value>,
)
    requires
        !m.counts(),
        path_supported(m.path),
        json_document(body) == Some(doc),
        path_selection(doc, m.path) == Some(values),
    ensures
        m.validate(body) == Ok::<(bool, Seq<char>), ValidateError>(
            (values.len() == 1 && string_content(values[0]) == Some(m.value), rendering_of(values)),
        ),
{
}

} // verus!
