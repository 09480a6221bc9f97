use web_mcp::operations::search::{collapse_ws, finish_search, parse_results};
use web_mcp::error::WebError;

const FIXTURE: &str = r#"
    <html><body>
      <ul class="results-standard">
        <li class="r1">
          <a title="https://rust-lang.org/" href="https://rust-lang.org/" class="ob">
            <p class="i"><span class="url">https://rust-lang.org/</span></p>
          </a>
          <h2><a class="title" title="https://rust-lang.org/" href="https://rust-lang.org/">Rust   Programming Language</a></h2>
          <p class="s">In 2018, the <strong>Rust</strong> community improved
          the <strong>programming</strong> experience.</p>
          <p class="more"><a href="/search?q=site:rust-lang.org">See more &raquo;</a></p>
        </li>
        <li class="r2">
          <h2><a class="title" href="https://doc.rust-lang.org/book/">The Rust Book</a></h2>
          <p class="s">The official book.</p>
        </li>
        <li class="r3">
          <h2><a class="title" href="/internal/relative">Should be skipped</a></h2>
        </li>
      </ul>
    </body></html>
    "#;

#[test]
fn parses_titles_urls_and_snippets() {
    let results = parse_results(FIXTURE, 10);
    assert_eq!(results.len(), 2, "relative URL must be skipped: {results:?}");
    assert_eq!(results[0].title, "Rust Programming Language");
    assert_eq!(results[0].url, "https://rust-lang.org/");
    assert_eq!(
        results[0].snippet.as_deref(),
        Some("In 2018, the Rust community improved the programming experience.")
    );
    assert_eq!(results[1].url, "https://doc.rust-lang.org/book/");
}

#[test]
fn respects_limit() {
    assert_eq!(parse_results(FIXTURE, 1).len(), 1);
}

#[test]
fn empty_html_yields_no_results() {
    assert!(parse_results("<html><body></body></html>", 10).is_empty());
}

#[test]
fn zero_limit_still_keeps_the_first_result() {
    let results = parse_results(FIXTURE, 0);
    assert_eq!(results.len(), 1);
    assert_eq!(results[0].url, "https://rust-lang.org/");
}

#[test]
fn collapse_ws_joins_words_with_single_spaces() {
    assert_eq!(collapse_ws("  a \n\t b  c  "), "a b c");
    assert_eq!(collapse_ws(""), "");
    assert_eq!(collapse_ws(" \u{3000}\u{a0} "), "");
    assert_eq!(collapse_ws("x\u{2003}y"), "x y");
    assert_eq!(collapse_ws("already normal"), "already normal");
}

#[test]
fn search_outcomes() {
    match finish_search(false, "403 Forbidden", FIXTURE, "rust", 5) {
        Err(WebError::SearchFailed(m)) => assert_eq!(m, "search backend returned HTTP 403 Forbidden"),
        other => panic!("unexpected {other:?}"),
    }
    match finish_search(true, "200 OK", "<html></html>", "rust", 5) {
        Err(WebError::SearchFailed(m)) => assert_eq!(m, "no results for query: rust"),
        other => panic!("unexpected {other:?}"),
    }
    assert_eq!(finish_search(true, "200 OK", FIXTURE, "rust", 0).unwrap().len(), 1);
    assert_eq!(finish_search(true, "200 OK", FIXTURE, "rust", 100).unwrap().len(), 2);
}

#[test]
fn collapsing_twice_changes_nothing_more() {
    for s in ["  a \n\t b  c  ", "", " \u{3000} ", "x\u{2003}y", "one\r\ntwo   three", "lone"] {
        let once = collapse_ws(s);
        assert_eq!(collapse_ws(&once), once);
    }
}

#[test]
fn collapsed_text_is_the_words_joined_by_one_space() {
    for s in ["  a \n\t b  c  ", "", "\u{a0}tab\tand\u{2028}line ", "solo"] {
        let expected = s.split_whitespace().collect::<Vec<_>>().join(" ");
        assert_eq!(collapse_ws(s), expected);
    }
}
