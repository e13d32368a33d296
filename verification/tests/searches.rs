use securelog::models::{ClientSearchResult, Search, SearchType};
use securelog::patterns::{matches_line, Matcher};
use securelog::searchrunner::{
    check_file_can_read, run_once, run_search, scan_targets, SearchError, SearchScan,
};
use securelog::time::Timestamp;

fn lines(items: &[&str]) -> Vec<String> {
    items.iter().map(|s| s.to_string()).collect()
}

fn search(id: i32, stype: SearchType, pattern: &str, locations: &[&str]) -> Search {
    Search::new(id, format!("search {}", id), stype, pattern.to_string(), lines(locations))
}

fn started() -> Timestamp {
    Timestamp::new(1_700_000_000, 250)
}

#[test]
fn contains_yields_exactly_the_matching_lines() {
    let s = search(1, SearchType::Contains, "foo", &["/var/log/a"]);
    let r = run_search("/var/log/a", &s, Some(false), &lines(&["foo bar", "baz"]), started())
        .unwrap();
    assert_eq!(r.found, vec!["foo bar".to_string()]);
    assert_eq!(r.search_id, 1);
    assert_eq!(r.search_name, "search 1");
    assert_eq!(r.location, "/var/log/a");
    assert_eq!(r.started, started());
}

#[test]
fn contains_keeps_file_order_and_every_match() {
    let s = search(2, SearchType::Contains, "err", &["x"]);
    let input = lines(&["err 1", "fine", "an err", "", "ERR", "err 1"]);
    let r = run_search("x", &s, None, &input, started()).unwrap();
    assert_eq!(r.found, lines(&["err 1", "an err", "err 1"]));
}

#[test]
fn contains_does_not_fold_case() {
    assert_eq!(matches_line(SearchType::Contains, "foo", "FOO bar"), Some(false));
    assert_eq!(matches_line(SearchType::Contains, "foo", "a foo"), Some(true));
    assert_eq!(matches_line(SearchType::Contains, "foo", "fo"), Some(false));
    assert_eq!(matches_line(SearchType::Contains, "", "anything"), Some(true));
    assert_eq!(matches_line(SearchType::Contains, "", ""), Some(true));
    assert_eq!(matches_line(SearchType::Contains, "b", "a"), Some(false));
}

#[test]
fn wildcard_is_anchored_to_the_whole_line() {
    assert_eq!(matches_line(SearchType::Wildcard, "ERROR *", "ERROR disk full"), Some(true));
    assert_eq!(matches_line(SearchType::Wildcard, "ERROR *", "disk full ERROR"), Some(false));
}

#[test]
fn wildcard_star_and_question_mark() {
    assert_eq!(matches_line(SearchType::Wildcard, "c?t", "cat"), Some(true));
    assert_eq!(matches_line(SearchType::Wildcard, "c?t", "ct"), Some(false));
    assert_eq!(matches_line(SearchType::Wildcard, "c?t", "caat"), Some(false));
    assert_eq!(matches_line(SearchType::Wildcard, "c*t", "ct"), Some(true));
    assert_eq!(matches_line(SearchType::Wildcard, "c*t", "caaat"), Some(true));
    assert_eq!(matches_line(SearchType::Wildcard, "*", ""), Some(true));
    assert_eq!(matches_line(SearchType::Wildcard, "", ""), Some(true));
    assert_eq!(matches_line(SearchType::Wildcard, "", "a"), Some(false));
    assert_eq!(matches_line(SearchType::Wildcard, "?", ""), Some(false));
    assert_eq!(matches_line(SearchType::Wildcard, "a**b", "ab"), Some(true));
    assert_eq!(matches_line(SearchType::Wildcard, "*a*b", "xaybzab"), Some(true));
    assert_eq!(matches_line(SearchType::Wildcard, "*a*b", "xaybza"), Some(false));
    assert_eq!(matches_line(SearchType::Wildcard, "cat", "Cat"), Some(false));
    assert_eq!(matches_line(SearchType::Wildcard, "cat", "a cat"), Some(false));
}

#[test]
fn wildcard_search_reports_whole_lines() {
    let s = search(3, SearchType::Wildcard, "ERROR *", &["x"]);
    let input = lines(&["ERROR disk full", "disk full ERROR", "ERROR ", "ERROR"]);
    let r = run_search("x", &s, Some(false), &input, started()).unwrap();
    assert_eq!(r.found, lines(&["ERROR disk full", "ERROR "]));
}

#[test]
fn regex_matches_anywhere_in_the_line() {
    assert_eq!(matches_line(SearchType::Regex, r"\d{3}", "code 404 seen"), Some(true));
    assert_eq!(matches_line(SearchType::Regex, r"^\d{3}$", "code 404 seen"), Some(false));
    assert_eq!(matches_line(SearchType::Regex, r"fo+", "fooo"), Some(true));
    assert_eq!(matches_line(SearchType::Regex, r"fo+", "f"), Some(false));
}

#[test]
fn regex_search_reports_matching_lines() {
    let s = search(4, SearchType::Regex, r"^(WARN|ERROR) ", &["x"]);
    let input = lines(&["INFO ok", "WARN low", "ERROR out", "x ERROR "]);
    let r = run_search("x", &s, Some(false), &input, started()).unwrap();
    assert_eq!(r.found, lines(&["WARN low", "ERROR out"]));
}

#[test]
fn invalid_regex_is_rejected() {
    assert_eq!(matches_line(SearchType::Regex, "foo(bar", "foo(bar"), None);
    assert!(Matcher::compile(SearchType::Regex, "foo(bar").is_err());
    assert!(Matcher::compile(SearchType::Regex, "foo(bar)").is_ok());
    assert!(Matcher::compile(SearchType::Contains, "foo(bar").is_ok());
    assert!(Matcher::compile(SearchType::Wildcard, "foo(bar").is_ok());
    let s = search(5, SearchType::Regex, "foo(bar", &["x"]);
    let r = run_search("x", &s, Some(false), &lines(&["foo(bar"]), started());
    assert!(matches!(r, Err(SearchError::Regex(_))));
}

#[test]
fn invalid_regex_fails_only_its_own_search() {
    let bad = search(5, SearchType::Regex, "foo(bar", &["x"]);
    let good = search(6, SearchType::Contains, "foo", &["x"]);
    let input = lines(&["foo(bar", "other"]);
    let outcomes = vec![
        run_search("x", &bad, Some(false), &input, started()),
        run_search("x", &good, Some(false), &input, started()),
    ];
    assert!(matches!(outcomes[0], Err(SearchError::Regex(_))));
    let batch = run_once(outcomes).expect("the sibling reports");
    assert_eq!(batch.len(), 1);
    assert_eq!(batch[0].search_id, 6);
    assert_eq!(batch[0].found, lines(&["foo(bar"]));
}

#[test]
fn read_only_location_is_refused_before_anything_else() {
    let s = search(7, SearchType::Regex, "foo(bar", &["/ro"]);
    let r = run_search("/ro", &s, Some(true), &lines(&["foo"]), started());
    match r {
        Err(SearchError::FileReadOnly(path)) => assert_eq!(path, "/ro"),
        other => panic!("unexpected {:?}", other),
    }
    assert!(check_file_can_read("/rw", Some(false)).is_ok());
    assert!(check_file_can_read("/unknown", None).is_ok());
    assert!(matches!(
        check_file_can_read("/ro", Some(true)),
        Err(SearchError::FileReadOnly(_))
    ));
}

#[test]
fn scan_takes_lines_one_at_a_time() {
    let s = search(8, SearchType::Contains, "a", &["x"]);
    let mut scan = SearchScan::begin("x", &s, None, started()).unwrap();
    for line in ["a", "b", "ba", "c"] {
        scan = scan.feed(line.to_string());
    }
    let r = scan.finish();
    assert_eq!(r.found, lines(&["a", "ba"]));
    assert_eq!(r.location, "x");
    let whole = run_search("x", &s, None, &lines(&["a", "b", "ba", "c"]), started()).unwrap();
    assert_eq!(whole.found, r.found);
}

#[test]
fn scan_without_lines_finds_nothing() {
    let s = search(9, SearchType::Wildcard, "*", &["x"]);
    let r = SearchScan::begin("x", &s, Some(false), started()).unwrap().finish();
    assert!(r.found.is_empty());
    assert_eq!(r.search_id, 9);
}

#[test]
fn new_result_is_empty() {
    let r = ClientSearchResult::new(3, "name", "/loc", started());
    assert_eq!(r.search_id, 3);
    assert_eq!(r.search_name, "name");
    assert_eq!(r.location, "/loc");
    assert!(r.found.is_empty());
    assert_eq!(r.started, started());
}

#[test]
fn all_clear_run_sends_nothing() {
    let s = search(10, SearchType::Contains, "zzz", &["a", "b"]);
    let outcomes = vec![
        run_search("a", &s, Some(false), &lines(&["one", "two"]), started()),
        run_search("b", &s, Some(false), &lines(&[]), started()),
    ];
    assert!(outcomes.iter().all(|o| o.is_ok()));
    assert!(run_once(outcomes).is_none());
    assert!(run_once(Vec::new()).is_none());
}

#[test]
fn run_with_only_failures_sends_nothing() {
    let outcomes = vec![
        Err(SearchError::IO("permission denied".to_string())),
        Err(SearchError::FileReadOnly("/ro".to_string())),
    ];
    assert!(run_once(outcomes).is_none());
}

#[test]
fn batch_holds_only_results_with_matches_in_order() {
    let s1 = search(11, SearchType::Contains, "x", &["a", "b", "c"]);
    let s2 = search(12, SearchType::Contains, "y", &["a"]);
    let outcomes = vec![
        run_search("a", &s1, None, &lines(&["x1"]), started()),
        Err(SearchError::IO("gone".to_string())),
        run_search("c", &s1, None, &lines(&["nothing"]), started()),
        run_search("a", &s2, None, &lines(&["y1", "y2"]), started()),
    ];
    let batch = run_once(outcomes).unwrap();
    assert_eq!(batch.len(), 2);
    assert_eq!((batch[0].search_id, batch[0].location.as_str()), (11, "a"));
    assert_eq!(batch[0].found, lines(&["x1"]));
    assert_eq!((batch[1].search_id, batch[1].location.as_str()), (12, "a"));
    assert_eq!(batch[1].found, lines(&["y1", "y2"]));
}

#[test]
fn targets_visit_each_location_of_each_search_in_order() {
    let searches = vec![
        search(1, SearchType::Contains, "a", &["p", "q"]),
        search(2, SearchType::Contains, "a", &[]),
        search(3, SearchType::Contains, "a", &["r"]),
    ];
    assert_eq!(scan_targets(&searches), vec![(0, 0), (0, 1), (2, 0)]);
    assert_eq!(scan_targets(&Vec::new()), Vec::<(usize, usize)>::new());
}

#[test]
fn search_without_locations_produces_no_result() {
    let searches = vec![search(1, SearchType::Contains, "a", &[])];
    assert!(scan_targets(&searches).is_empty());
    assert!(run_once(Vec::new()).is_none());
}
