//! The declared suite: cases, request bodies and assertions, with the
//! mathematical values that the contracts speak of.

use vstd::prelude::*;
use vstd::string::*;

verus! {

/// The method of a case that declares none.
pub const DEFAULT_HTTP_METHOD: &'static str = "GET";

/// The text inside an optional string.
pub open spec fn text_of(s: Option<String>) -> Option<Seq<char>> {
    match s {
        Some(t) => Some(t@),
        None => None,
    }
}

/// A payload that is sent exactly as written.
#[derive(Debug, Clone)]
pub struct JsonTestData {
    pub raw: String,
}

impl View for JsonTestData {
    type V = Seq<char>;

    open spec fn view(&self) -> Seq<char> {
        self.raw@
    }
}

/// One expectation about the response body: a JSONPath expression and either
/// the single text it must select or the number of values it must select.
#[derive(Debug, Clone)]
pub struct Match {
    pub path: String,
    pub value: String,
    pub is_length: Option<bool>,
}

/// What a `Match` declares, as plain values.
pub struct MatchView {
    pub path: Seq<char>,
    pub value: Seq<char>,
    pub is_length: Option<bool>,
}

impl MatchView {
    /// Whether the expectation is about how many values are selected; an
    /// absent flag means it is not.
    pub open spec fn counts(self) -> bool {
        self.is_length == Some(true)
    }
}

impl View for Match {
    type V = MatchView;

    open spec fn view(&self) -> MatchView {
        MatchView { path: self.path@, value: self.value@, is_length: self.is_length }
    }
}

/// The plain values of a list of assertions.
pub open spec fn match_views(matches: Seq<Match>) -> Seq<MatchView> {
    matches.map_values(|m: Match| m@)
}

/// One case: a request and what its response must look like.
#[derive(Debug, Clone)]
pub struct TestItem {
    pub description: String,
    pub path: Option<String>,
    pub method: Option<String>,
    pub json_data: Option<JsonTestData>,
    pub status: i16,
    pub matches: Option<Vec<Match>>,
}

/// What a `TestItem` declares, as plain values.
pub struct TestItemView {
    pub description: Seq<char>,
    pub path: Option<Seq<char>>,
    pub method: Option<Seq<char>>,
    pub json_data: Option<Seq<char>>,
    pub status: int,
    pub matches: Option<Seq<MatchView>>,
}

impl TestItemView {
    /// The target of the case: the base address with the case's path written
    /// directly behind it, or the base address alone.
    pub open spec fn full_path(self, base: Seq<char>) -> Seq<char> {
        match self.path {
            Some(rel) => base + rel,
            None => base,
        }
    }

    /// The method the request is made with.
    pub open spec fn effective_method(self) -> Seq<char> {
        match self.method {
            Some(m) => m,
            None => DEFAULT_HTTP_METHOD@,
        }
    }

    /// The assertions to evaluate, none where the case declares no list.
    pub open spec fn declared_matches(self) -> Seq<MatchView> {
        match self.matches {
            Some(ms) => ms,
            None => Seq::empty(),
        }
    }
}

impl View for TestItem {
    type V = TestItemView;

    open spec fn view(&self) -> TestItemView {
        TestItemView {
            description: self.description@,
            path: text_of(self.path),
            method: text_of(self.method),
            json_data: match self.json_data {
                Some(d) => Some(d@),
                None => None,
            },
            status: self.status as int,
            matches: match self.matches {
                Some(ms) => Some(match_views(ms@)),
                None => None,
            },
        }
    }
}

impl TestItem {
    /// The address the case is sent to: `abs_path` followed by the case's own
    /// path, with nothing put between them or taken away.
    pub fn full_path(&self, abs_path: &String) -> (r: String)
        ensures
            r@ == self@.full_path(abs_path@),
    {
        match &self.path {
            Some(rel) => abs_path.clone().concat(rel.as_str()),
            None => abs_path.clone(),
        }
    }

    /// The method the case is sent with: its own, or `GET`.
    pub fn effective_method(&self) -> (r: String)
        ensures
            r@ == self@.effective_method(),
    {
        match &self.method {
            Some(m) => m.clone(),
            None => String::from_str(DEFAULT_HTTP_METHOD),
        }
    }
}

/// The plain values of a list of cases.
pub open spec fn item_views(items: Seq<TestItem>) -> Seq<TestItemView> {
    items.map_values(|t: TestItem| t@)
}

/// A suite: a base address and its cases in the order they run.
#[derive(Debug, Clone)]
pub struct TestCollection {
    pub base_url: String,
    pub tests: Vec<TestItem>,
}

/// What a `TestCollection` declares, as plain values.
pub struct TestCollectionView {
    pub base_url: Seq<char>,
    pub tests: Seq<TestItemView>,
}

impl View for TestCollection {
    type V = TestCollectionView;

    open spec fn view(&self) -> TestCollectionView {
        TestCollectionView {
            base_url: self.base_url@,
            tests: item_views(self.tests@),
        }
    }
}

} // verus!
