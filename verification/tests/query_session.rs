use core_foundation_utils::error::MetadataError;
use core_foundation_utils::index::{Request, Response};
use core_foundation_utils::prelude::KMDItemTypes;
use core_foundation_utils::spotlight::{QueryRun, SpotlightApi};
use core_foundation_utils::value::{Number, RawValue};

/// One position of a result set: no item, an item without the attribute, or
/// an item with it.
enum Row {
    NoItem,
    NoAttribute,
    Value(RawValue),
}

/// An index in memory that counts the handles it hands out and gets back.
struct FakeIndex {
    create_ok: bool,
    execute_ok: bool,
    rows: Vec<Row>,
    predicates: Vec<String>,
    value_lists: Vec<Vec<String>>,
    sortings: Vec<Vec<String>>,
    selectors: Vec<String>,
    fetched: Vec<usize>,
    current: Option<usize>,
    queries_open: i64,
    queries_created: u64,
    queries_released: u64,
    values_open: i64,
    values_copied: u64,
    values_released: u64,
}

impl FakeIndex {
    fn new(rows: Vec<Row>) -> FakeIndex {
        FakeIndex {
            create_ok: true,
            execute_ok: true,
            rows,
            predicates: vec![],
            value_lists: vec![],
            sortings: vec![],
            selectors: vec![],
            fetched: vec![],
            current: None,
            queries_open: 0,
            queries_created: 0,
            queries_released: 0,
            values_open: 0,
            values_copied: 0,
            values_released: 0,
        }
    }

    fn perform(&mut self, request: Request) -> Response {
        match request {
            Request::CreateQuery { predicate, value_list_attrs, sorting_attrs } => {
                self.predicates.push(predicate);
                self.value_lists.push(value_list_attrs);
                self.sortings.push(sorting_attrs);
                if self.create_ok {
                    self.queries_open += 1;
                    self.queries_created += 1;
                }
                Response::QueryCreated { ok: self.create_ok }
            }
            Request::ExecuteQuery => {
                assert_eq!(self.queries_open, 1, "executed without a live query");
                Response::QueryExecuted { ok: self.execute_ok }
            }
            Request::ResultCount => {
                assert_eq!(self.queries_open, 1, "counted without a live query");
                Response::ResultCount { count: self.rows.len() as isize }
            }
            Request::ResultAt { index } => {
                assert_eq!(self.queries_open, 1, "fetched without a live query");
                assert!(index < self.rows.len(), "fetched past the result set");
                self.fetched.push(index);
                self.current = Some(index);
                Response::Item { present: !matches!(self.rows[index], Row::NoItem) }
            }
            Request::ResolveItem { .. } => panic!("a query resolves no path"),
            Request::CopyAttribute { name } => {
                assert_eq!(self.queries_open, 1, "item used without a live query");
                assert_eq!(self.values_open, 0, "a second value copied before the first was released");
                self.selectors.push(name);
                let at = self.current.expect("attribute copied without an item");
                match &self.rows[at] {
                    Row::NoItem => panic!("attribute copied from a null item"),
                    Row::NoAttribute => Response::Attribute { value: None },
                    Row::Value(raw) => {
                        self.values_open += 1;
                        self.values_copied += 1;
                        Response::Attribute { value: Some(raw.clone()) }
                    }
                }
            }
            Request::ReleaseValue => {
                assert_eq!(self.values_open, 1, "released a value that is not held");
                self.values_open -= 1;
                self.values_released += 1;
                Response::Released
            }
            Request::ReleaseQuery => {
                assert_eq!(self.queries_open, 1, "released a query that is not held");
                assert_eq!(self.values_open, 0, "query released while a value is held");
                self.queries_open -= 1;
                self.queries_released += 1;
                self.current = None;
                Response::Released
            }
            Request::Finish => panic!("finish is not performed"),
        }
    }

    fn run(&mut self, mut run: QueryRun) -> Result<Vec<String>, MetadataError> {
        let mut steps = 0;
        loop {
            let request = run.request();
            if request == Request::Finish {
                assert!(run.is_finished());
                break;
            }
            assert!(!run.is_finished());
            let response = self.perform(request);
            run = run.step(response);
            steps += 1;
            assert!(steps <= 3 * self.rows.len() + 4, "session did not end in time");
        }
        run.outcome().expect("a finished session has an outcome")
    }

    fn assert_nothing_leaked(&self) {
        assert_eq!(self.queries_open, 0);
        assert_eq!(self.values_open, 0);
        assert_eq!(self.queries_created, self.queries_released);
        assert_eq!(self.values_copied, self.values_released);
    }
}

fn text(s: &str) -> Row {
    Row::Value(RawValue::Text(s.to_string()))
}

fn strings(items: &[&str]) -> Vec<String> {
    items.iter().map(|s| s.to_string()).collect()
}

fn create(predicate: &str) -> Request {
    Request::CreateQuery {
        predicate: predicate.to_string(),
        value_list_attrs: vec![],
        sorting_attrs: vec![],
    }
}

#[test]
fn one_matching_item_yields_its_path() {
    let mut index = FakeIndex::new(vec![text("/docs/report.pdf")]);
    let run = SpotlightApi::raw_query("display_name contains 'report'", KMDItemTypes::Path);
    assert_eq!(index.run(run), Ok(strings(&["/docs/report.pdf"])));
    assert_eq!(index.predicates, strings(&["display_name contains 'report'"]));
    assert_eq!(index.value_lists, vec![Vec::<String>::new()]);
    assert_eq!(index.sortings, vec![Vec::<String>::new()]);
    assert_eq!(index.selectors, strings(&["kMDItemPath"]));
    index.assert_nothing_leaked();
}

#[test]
fn results_keep_the_order_of_the_index() {
    let mut index = FakeIndex::new(vec![text("/c"), text("/a"), text("/b"), text("/a")]);
    let run = SpotlightApi::raw_query("*", KMDItemTypes::Path);
    assert_eq!(index.run(run), Ok(strings(&["/c", "/a", "/b", "/a"])));
    assert_eq!(index.fetched, vec![0, 1, 2, 3]);
    index.assert_nothing_leaked();
}

#[test]
fn rerunning_the_query_yields_the_same_sequence() {
    let mut index = FakeIndex::new(vec![text("/x"), Row::NoItem, text("/y")]);
    let first = index.run(SpotlightApi::raw_query("q", KMDItemTypes::Path));
    let second = index.run(SpotlightApi::raw_query("q", KMDItemTypes::Path));
    assert_eq!(first, Ok(strings(&["/x", "/y"])));
    assert_eq!(first, second);
    assert_eq!(index.queries_created, 2);
    index.assert_nothing_leaked();
}

#[test]
fn empty_result_set_yields_nothing() {
    let mut index = FakeIndex::new(vec![]);
    assert_eq!(index.run(SpotlightApi::raw_query("q", KMDItemTypes::Path)), Ok(vec![]));
    assert!(index.fetched.is_empty());
    assert_eq!(index.queries_created, 1);
    index.assert_nothing_leaked();
}

#[test]
fn null_items_are_skipped() {
    let mut index = FakeIndex::new(vec![Row::NoItem, text("/a"), Row::NoItem, Row::NoItem, text("/b")]);
    assert_eq!(
        index.run(SpotlightApi::raw_query("q", KMDItemTypes::Path)),
        Ok(strings(&["/a", "/b"]))
    );
    assert_eq!(index.fetched, vec![0, 1, 2, 3, 4]);
    assert_eq!(index.values_copied, 2);
    index.assert_nothing_leaked();
}

#[test]
fn items_without_the_attribute_are_skipped() {
    let mut index = FakeIndex::new(vec![text("/a"), Row::NoAttribute, text("/b"), Row::NoAttribute]);
    assert_eq!(
        index.run(SpotlightApi::raw_query("q", KMDItemTypes::Path)),
        Ok(strings(&["/a", "/b"]))
    );
    assert_eq!(index.selectors.len(), 4);
    assert_eq!(index.values_copied, 2);
    index.assert_nothing_leaked();
}

#[test]
fn values_that_are_not_text_are_skipped_and_released() {
    let mut index = FakeIndex::new(vec![
        Row::Value(RawValue::Number(Number { integer: 7, real: 7.0f64.to_bits() })),
        text("/a"),
        Row::Value(RawValue::Sequence(vec![RawValue::Text("/nested".to_string())])),
        Row::Value(RawValue::Boolean(true)),
        Row::Value(RawValue::Unknown),
        text("/b"),
    ]);
    assert_eq!(
        index.run(SpotlightApi::raw_query("q", KMDItemTypes::Path)),
        Ok(strings(&["/a", "/b"]))
    );
    assert_eq!(index.values_copied, 6);
    assert_eq!(index.values_released, 6);
    index.assert_nothing_leaked();
}

#[test]
fn a_result_set_of_bad_items_only_yields_nothing() {
    let mut index = FakeIndex::new(vec![Row::NoItem, Row::NoAttribute, Row::Value(RawValue::Unknown)]);
    assert_eq!(index.run(SpotlightApi::raw_query("q", KMDItemTypes::UserTags)), Ok(vec![]));
    assert_eq!(index.selectors, strings(&["kMDItemUserTags", "kMDItemUserTags"]));
    index.assert_nothing_leaked();
}

#[test]
fn long_text_is_cut_to_the_buffer() {
    let long = format!("/{}", "p".repeat(2000));
    let mut index = FakeIndex::new(vec![text(&long), text("/short")]);
    let found = index.run(SpotlightApi::raw_query("q", KMDItemTypes::Path)).unwrap();
    assert_eq!(found.len(), 2);
    assert_eq!(found[0], long[..1023].to_string());
    assert_eq!(found[1], "/short");
    index.assert_nothing_leaked();
}

#[test]
fn creation_failure_is_an_error_and_holds_nothing() {
    let mut index = FakeIndex::new(vec![text("/a")]);
    index.create_ok = false;
    assert_eq!(
        index.run(SpotlightApi::raw_query("not a predicate", KMDItemTypes::Path)),
        Err(MetadataError::QueryCreationFailed)
    );
    assert_eq!(index.queries_created, 0);
    assert!(index.fetched.is_empty());
    index.assert_nothing_leaked();
}

#[test]
fn execution_failure_is_an_error_and_releases_the_query() {
    let mut index = FakeIndex::new(vec![text("/a")]);
    index.execute_ok = false;
    assert_eq!(
        index.run(SpotlightApi::raw_query("q", KMDItemTypes::Path)),
        Err(MetadataError::QueryExecutionFailed)
    );
    assert_eq!(index.queries_created, 1);
    assert_eq!(index.queries_released, 1);
    assert!(index.fetched.is_empty());
    index.assert_nothing_leaked();
}

#[test]
fn nothing_leaks_whichever_item_fails() {
    for bad in 0..5 {
        for kind in 0..3 {
            let mut rows = vec![];
            for i in 0..5 {
                if i == bad {
                    rows.push(match kind {
                        0 => Row::NoItem,
                        1 => Row::NoAttribute,
                        _ => Row::Value(RawValue::Boolean(false)),
                    });
                } else {
                    rows.push(text(&format!("/item{}", i)));
                }
            }
            let mut index = FakeIndex::new(rows);
            let found = index.run(SpotlightApi::raw_query("q", KMDItemTypes::Path)).unwrap();
            let expected: Vec<String> =
                (0..5).filter(|i| *i != bad).map(|i| format!("/item{}", i)).collect();
            assert_eq!(found, expected);
            assert_eq!(index.queries_created, 1);
            index.assert_nothing_leaked();
        }
    }
}

#[test]
fn negative_result_count_is_an_empty_result_set() {
    let run = SpotlightApi::raw_query("q", KMDItemTypes::Path);
    let run = run.step(Response::QueryCreated { ok: true });
    let run = run.step(Response::QueryExecuted { ok: true });
    let run = run.step(Response::ResultCount { count: -3 });
    assert_eq!(run.request(), Request::ReleaseQuery);
    let run = run.step(Response::Released);
    assert_eq!(run.request(), Request::Finish);
    assert_eq!(run.outcome(), Some(Ok(vec![])));
}

#[test]
fn requests_follow_the_protocol() {
    let run = SpotlightApi::raw_query("q", KMDItemTypes::Path);
    assert_eq!(run.request(), create("q"));
    let run = run.step(Response::QueryCreated { ok: true });
    assert_eq!(run.request(), Request::ExecuteQuery);
    let run = run.step(Response::QueryExecuted { ok: true });
    assert_eq!(run.request(), Request::ResultCount);
    let run = run.step(Response::ResultCount { count: 2 });
    assert_eq!(run.request(), Request::ResultAt { index: 0 });
    let run = run.step(Response::Item { present: true });
    assert_eq!(run.request(), Request::CopyAttribute { name: "kMDItemPath".to_string() });
    let run = run.step(Response::Attribute { value: Some(RawValue::Text("/a".to_string())) });
    assert_eq!(run.request(), Request::ReleaseValue);
    let run = run.step(Response::Released);
    assert_eq!(run.request(), Request::ResultAt { index: 1 });
    let run = run.step(Response::Item { present: false });
    assert_eq!(run.request(), Request::ReleaseQuery);
    assert!(!run.is_finished());
    let run = run.step(Response::Released);
    assert_eq!(run.request(), Request::Finish);
    assert!(run.is_finished());
    assert_eq!(run.outcome(), Some(Ok(vec!["/a".to_string()])));
}

#[test]
fn outcome_is_withheld_until_the_session_is_over() {
    let run = SpotlightApi::raw_query("q", KMDItemTypes::Path);
    assert_eq!(run.outcome(), None);
    let run = SpotlightApi::raw_query("q", KMDItemTypes::Path)
        .step(Response::QueryCreated { ok: true })
        .step(Response::QueryExecuted { ok: true })
        .step(Response::ResultCount { count: 1 });
    assert_eq!(run.outcome(), None);
}

#[test]
fn a_finished_session_ignores_further_responses() {
    let run = SpotlightApi::raw_query("q", KMDItemTypes::Path)
        .step(Response::QueryCreated { ok: true })
        .step(Response::QueryExecuted { ok: true })
        .step(Response::ResultCount { count: 0 })
        .step(Response::Released);
    assert!(run.is_finished());
    let run = run.step(Response::Item { present: true }).step(Response::Released);
    assert!(run.is_finished());
    assert_eq!(run.outcome(), Some(Ok(vec![])));
}

#[test]
fn a_wrong_response_before_creation_ends_the_session() {
    let run = SpotlightApi::raw_query("q", KMDItemTypes::Path).step(Response::Released);
    assert_eq!(run.request(), Request::Finish);
    assert_eq!(run.outcome(), Some(Err(MetadataError::Unknown)));
}

#[test]
fn a_wrong_response_with_a_live_query_releases_it() {
    let run = SpotlightApi::raw_query("q", KMDItemTypes::Path)
        .step(Response::QueryCreated { ok: true })
        .step(Response::Item { present: true });
    assert_eq!(run.request(), Request::ReleaseQuery);
    let run = run.step(Response::Released);
    assert_eq!(run.outcome(), Some(Err(MetadataError::Unknown)));
}

#[test]
fn a_wrong_response_with_a_held_value_releases_value_then_query() {
    let run = SpotlightApi::raw_query("q", KMDItemTypes::Path)
        .step(Response::QueryCreated { ok: true })
        .step(Response::QueryExecuted { ok: true })
        .step(Response::ResultCount { count: 3 })
        .step(Response::Item { present: true })
        .step(Response::Attribute { value: Some(RawValue::Text("/a".to_string())) });
    assert_eq!(run.request(), Request::ReleaseValue);
    let run = run.step(Response::QueryCreated { ok: true });
    assert_eq!(run.request(), Request::ReleaseValue);
    let run = run.step(Response::Released);
    assert_eq!(run.request(), Request::ReleaseQuery);
    let run = run.step(Response::Released);
    assert_eq!(run.request(), Request::Finish);
    assert_eq!(run.outcome(), Some(Err(MetadataError::Unknown)));
}

#[test]
fn an_earlier_failure_is_kept_over_a_later_wrong_response() {
    let run = SpotlightApi::raw_query("q", KMDItemTypes::Path)
        .step(Response::QueryCreated { ok: true })
        .step(Response::QueryExecuted { ok: false });
    assert_eq!(run.request(), Request::ReleaseQuery);
    let run = run.step(Response::Item { present: true });
    assert_eq!(run.request(), Request::ReleaseQuery);
    let run = run.step(Response::Released);
    assert_eq!(run.outcome(), Some(Err(MetadataError::QueryExecutionFailed)));
}

#[test]
fn search_asks_for_display_names_and_paths() {
    let run = SpotlightApi::search("report");
    assert_eq!(run.request(), create("kMDItemDisplayName = '*report*'"));
    let mut index = FakeIndex::new(vec![text("/docs/report.pdf"), text("/old/report-2.txt")]);
    assert_eq!(
        index.run(SpotlightApi::search("report")),
        Ok(strings(&["/docs/report.pdf", "/old/report-2.txt"]))
    );
    assert_eq!(index.predicates, strings(&["kMDItemDisplayName = '*report*'"]));
    assert_eq!(index.selectors, strings(&["kMDItemPath", "kMDItemPath"]));
    index.assert_nothing_leaked();
}

#[test]
fn search_hands_the_keyword_on_as_it_is() {
    let run = SpotlightApi::search("");
    assert_eq!(run.request(), create("kMDItemDisplayName = '**'"));
    let run = SpotlightApi::search("it's é");
    assert_eq!(run.request(), create("kMDItemDisplayName = '*it's é*'"));
}

#[test]
fn begin_takes_any_selector() {
    let mut index = FakeIndex::new(vec![text("Report")]);
    let run = QueryRun::begin("q", "kMDItemDisplayName");
    assert_eq!(index.run(run), Ok(strings(&["Report"])));
    assert_eq!(index.selectors, strings(&["kMDItemDisplayName"]));
    index.assert_nothing_leaked();
}

#[test]
fn begin_with_hands_on_the_attribute_lists() {
    let run = QueryRun::begin_with(
        "q",
        "kMDItemPath",
        strings(&["kMDItemKind", "kMDItemFSSize"]),
        strings(&["kMDItemFSName"]),
    );
    assert_eq!(
        run.request(),
        Request::CreateQuery {
            predicate: "q".to_string(),
            value_list_attrs: strings(&["kMDItemKind", "kMDItemFSSize"]),
            sorting_attrs: strings(&["kMDItemFSName"]),
        }
    );
    let mut index = FakeIndex::new(vec![text("/b"), text("/a")]);
    assert_eq!(index.run(run), Ok(strings(&["/b", "/a"])));
    assert_eq!(index.value_lists, vec![strings(&["kMDItemKind", "kMDItemFSSize"])]);
    assert_eq!(index.sortings, vec![strings(&["kMDItemFSName"])]);
    index.assert_nothing_leaked();
}
