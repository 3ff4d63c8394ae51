use gscholar::config::FetchConfig;
use gscholar::decode::{parse_page, PageRole};
use gscholar::error::{FetchError, MergeError, ParseError};
use gscholar::model::GoogleScholarResponse;
use gscholar::run::{replay, Replay};
use gscholar::pager::{
    FetchEvent, FetchSession, FetchStep, PageBound, PageRequest, GOOGLE_SCHOLAR_AUTHOR_ENDPOINT,
};

fn config() -> FetchConfig {
    FetchConfig { author_id: "abc123".to_string(), api_key: "secret".to_string() }
}

fn pair(name: &str, value: &str) -> (String, String) {
    (name.to_string(), value.to_string())
}

/// The body of page `number` of the author `author_id`, with one article and,
/// where `linked`, a link to the page after it.
fn body(author_id: &str, number: usize, linked: bool) -> String {
    let pagination = if linked {
        format!(r#","serpapi_pagination":{{"next":"https://example.org/page/{}"}}"#, number + 1)
    } else {
        String::new()
    };
    format!(
        r#"{{"author":{{"name":"A. Author","affiliations":"U"}},"search_parameters":{{"author_id":"{}"}},"cited_by":{{"table":[{{"citations":{{"all":{}}}}},{{"h_index":{{"all":5}}}}]}},"articles":[{{"title":"Paper {}","link":"l","authors":"a","citation_id":"c","year":"2019","cited_by":{{"value":10}}}}]{}}}"#,
        author_id,
        100 + number,
        number,
        pagination
    )
}

/// Runs a fetch against an upstream that answers request `i` with
/// `upstream(i)`; gives the number of requests made, the addresses asked
/// for, and the end of the fetch.
fn fetch(
    bound: PageBound,
    upstream: &dyn Fn(usize) -> FetchEvent,
) -> (usize, Vec<String>, Result<GoogleScholarResponse, FetchError>) {
    let (mut session, mut request) = FetchSession::start(config(), bound);
    let mut urls = Vec::new();
    loop {
        urls.push(request.url.clone());
        let event = upstream(urls.len());
        match session.step(event) {
            FetchStep::Continue(next, wanted) => {
                session = next;
                request = wanted;
            }
            FetchStep::Done(snapshot) => return (urls.len(), urls, Ok(snapshot)),
            FetchStep::Failed(error) => return (urls.len(), urls, Err(error)),
        }
    }
}

fn titles(snapshot: &GoogleScholarResponse) -> Vec<String> {
    snapshot.articles.iter().map(|a| a.title.clone()).collect()
}

#[test]
fn first_request_names_engine_author_credential_and_order() {
    let (session, request) = FetchSession::start(config(), PageBound::Count(3));
    assert_eq!(GOOGLE_SCHOLAR_AUTHOR_ENDPOINT, "https://serpapi.com/search");
    assert_eq!(request.url, "https://serpapi.com/search");
    assert_eq!(
        request.query,
        vec![
            pair("engine", "google_scholar_author"),
            pair("author_id", "abc123"),
            pair("api_key", "secret"),
            pair("sort", "pubdate"),
        ]
    );
    assert_eq!(request, PageRequest::first(&config()));
    assert_eq!(session.api_key, "secret");
    assert_eq!(session.remaining, PageBound::Count(2));
    assert_eq!(session.snapshot, None);
    assert_eq!(session.role(), PageRole::First);
}

#[test]
fn next_request_carries_credential_and_order_only() {
    let request = PageRequest::next("https://example.org/page/2".to_string(), &"secret".to_string());
    assert_eq!(request.url, "https://example.org/page/2");
    assert_eq!(request.query, vec![pair("api_key", "secret"), pair("sort", "pubdate")]);
}

#[test]
fn page_bound_from_pages() {
    assert_eq!(PageBound::from_pages(-1), PageBound::Unbounded);
    assert_eq!(PageBound::from_pages(0), PageBound::Count(0));
    assert_eq!(PageBound::from_pages(1), PageBound::Count(1));
    assert_eq!(PageBound::from_pages(i16::MAX), PageBound::Count(32767));
    assert_eq!(PageBound::from_pages(-2), PageBound::Count(0));
    assert_eq!(PageBound::from_pages(i16::MIN), PageBound::Count(0));
}

#[test]
fn page_bound_spends_down_to_zero() {
    assert_eq!(PageBound::Count(2).spend(), PageBound::Count(1));
    assert_eq!(PageBound::Count(1).spend(), PageBound::Count(0));
    assert_eq!(PageBound::Count(0).spend(), PageBound::Count(0));
    assert_eq!(PageBound::Unbounded.spend(), PageBound::Unbounded);
    assert!(PageBound::Unbounded.permits());
    assert!(PageBound::Count(1).permits());
    assert!(!PageBound::Count(0).permits());
}

#[test]
fn bounded_fetch_makes_exactly_n_requests() {
    for n in 1..=6u64 {
        let (requests, _, end) =
            fetch(PageBound::Count(n), &|i| FetchEvent::Body(body("abc123", i, true)));
        assert_eq!(requests as u64, n);
        let snapshot = end.unwrap();
        let expected: Vec<String> = (1..=n).map(|i| format!("Paper {}", i)).collect();
        assert_eq!(titles(&snapshot), expected);
        assert_eq!(snapshot.author.author_id, "abc123");
        assert_eq!(snapshot.author.citations, 101);
        assert_eq!(
            snapshot.pagination.next,
            Some(format!("https://example.org/page/{}", n + 1))
        );
    }
}

#[test]
fn bound_of_zero_fetches_the_first_page() {
    let (requests, _, end) =
        fetch(PageBound::Count(0), &|i| FetchEvent::Body(body("abc123", i, true)));
    assert_eq!(requests, 1);
    assert_eq!(titles(&end.unwrap()), vec!["Paper 1"]);
}

#[test]
fn unbounded_fetch_stops_at_fourth_page_without_next() {
    let (requests, urls, end) =
        fetch(PageBound::Unbounded, &|i| FetchEvent::Body(body("abc123", i, i < 4)));
    assert_eq!(requests, 4);
    assert_eq!(
        urls,
        vec![
            "https://serpapi.com/search",
            "https://example.org/page/2",
            "https://example.org/page/3",
            "https://example.org/page/4",
        ]
    );
    let snapshot = end.unwrap();
    assert_eq!(titles(&snapshot), vec!["Paper 1", "Paper 2", "Paper 3", "Paper 4"]);
    assert_eq!(snapshot.pagination.next, None);
}

#[test]
fn page_without_pagination_ends_fetch_whatever_the_bound() {
    for bound in [PageBound::Unbounded, PageBound::Count(0), PageBound::Count(1), PageBound::Count(9)] {
        let (requests, _, end) = fetch(bound, &|i| FetchEvent::Body(body("abc123", i, false)));
        assert_eq!(requests, 1);
        assert_eq!(titles(&end.unwrap()), vec!["Paper 1"]);
    }
    let (requests, _, end) =
        fetch(PageBound::Count(9), &|i| FetchEvent::Body(body("abc123", i, i < 2)));
    assert_eq!(requests, 2);
    assert_eq!(titles(&end.unwrap()), vec!["Paper 1", "Paper 2"]);
}

#[test]
fn first_page_without_h_index_fails_before_second_request() {
    let first = body("abc123", 1, true).replace(r#",{"h_index":{"all":5}}"#, "");
    let (requests, urls, end) = fetch(PageBound::Unbounded, &|i| {
        FetchEvent::Body(if i == 1 { first.clone() } else { body("abc123", i, true) })
    });
    assert_eq!(requests, 1);
    assert_eq!(urls, vec!["https://serpapi.com/search"]);
    assert_eq!(end, Err(FetchError::Parse(ParseError::MissingHIndex)));
}

#[test]
fn following_page_may_lack_the_aggregates() {
    let second = body("abc123", 2, false).replace(r#""cited_by":{"table""#, r#""cited":{"table""#);
    let (requests, _, end) = fetch(PageBound::Unbounded, &|i| {
        FetchEvent::Body(if i == 2 { second.clone() } else { body("abc123", i, true) })
    });
    assert_eq!(requests, 2);
    let snapshot = end.unwrap();
    assert_eq!(titles(&snapshot), vec!["Paper 1", "Paper 2"]);
    assert_eq!(snapshot.author.citations, 101);
    assert_eq!(snapshot.author.h_index, 5);
}

#[test]
fn malformed_following_page_fails_the_whole_fetch() {
    let (requests, _, end) = fetch(PageBound::Unbounded, &|i| {
        FetchEvent::Body(if i == 3 { "not json".to_string() } else { body("abc123", i, true) })
    });
    assert_eq!(requests, 3);
    assert_eq!(end, Err(FetchError::Parse(ParseError::Syntax)));
}

#[test]
fn page_of_another_author_fails_the_fetch() {
    let (requests, _, end) = fetch(PageBound::Unbounded, &|i| {
        FetchEvent::Body(body(if i == 2 { "someone-else" } else { "abc123" }, i, i < 5))
    });
    assert_eq!(requests, 2);
    assert_eq!(end, Err(FetchError::Merge(MergeError::AuthorMismatch)));
}

#[test]
fn transport_failure_fails_the_fetch() {
    let (requests, _, end) = fetch(PageBound::Unbounded, &|i| {
        if i == 2 {
            FetchEvent::TransportFailure("503 Service Unavailable".to_string())
        } else {
            FetchEvent::Body(body("abc123", i, true))
        }
    });
    assert_eq!(requests, 2);
    assert_eq!(end, Err(FetchError::Transport("503 Service Unavailable".to_string())));
}

#[test]
fn snapshot_keeps_the_author_of_the_first_page_and_the_cursor_of_the_last() {
    let (_, _, end) = fetch(PageBound::Count(3), &|i| FetchEvent::Body(body("abc123", i, true)));
    let snapshot = end.unwrap();
    assert_eq!(snapshot.author.citations, 101);
    assert_eq!(snapshot.pagination.next.as_deref(), Some("https://example.org/page/4"));
}

#[test]
fn absorb_takes_pages_that_were_read_elsewhere() {
    let (session, _) = FetchSession::start(config(), PageBound::Unbounded);
    let first = parse_page(&body("abc123", 1, true), PageRole::First);
    let (session, request) = match session.absorb(first) {
        FetchStep::Continue(session, request) => (session, request),
        other => panic!("{:?}", other),
    };
    assert_eq!(request.url, "https://example.org/page/2");
    assert_eq!(request.query, vec![pair("api_key", "secret"), pair("sort", "pubdate")]);
    assert_eq!(session.role(), PageRole::Following);
    assert_eq!(session.remaining, PageBound::Unbounded);
    let step = session.absorb(Err(ParseError::Year(4)));
    assert_eq!(step, FetchStep::Failed(FetchError::Parse(ParseError::Year(4))));
}

#[test]
fn end_to_end_example() {
    let first = r#"{
        "search_parameters": {"author_id": "abc123"},
        "author": {"name": "A. Author", "affiliations": "Some University"},
        "cited_by": {"table": [{"citations": {"all": 100}}, {"h_index": {"all": 5}}]},
        "articles": [{"title": "Paper 1", "link": "https://example.org/1",
                      "authors": "A. Author", "citation_id": "abc123:1", "year": "2019",
                      "cited_by": {"value": 10}}],
        "serpapi_pagination": {"next": null}
    }"#;
    let (requests, urls, end) = fetch(PageBound::Unbounded, &|_| FetchEvent::Body(first.to_string()));
    assert_eq!(requests, 1);
    assert_eq!(urls.len(), 1);
    let snapshot = end.unwrap();
    assert_eq!(snapshot.author.name, "A. Author");
    assert_eq!(snapshot.author.citations, 100);
    assert_eq!(snapshot.author.h_index, 5);
    assert_eq!(snapshot.author.author_id, "abc123");
    assert_eq!(snapshot.articles.len(), 1);
    assert_eq!(snapshot.articles[0].title, "Paper 1");
    assert_eq!(snapshot.articles[0].year, 2019);
    assert_eq!(snapshot.articles[0].cited_by.as_ref().unwrap().citations, Some(10));
}

#[test]
fn replay_reads_recorded_bodies() {
    let bodies: Vec<String> = (1..=5).map(|i| body("abc123", i, i < 3)).collect();
    let replayed = replay(config(), PageBound::Unbounded, &bodies);
    assert_eq!(replayed.requests, 3);
    assert_eq!(titles(&replayed.outcome.unwrap().unwrap()), vec!["Paper 1", "Paper 2", "Paper 3"]);

    let bodies: Vec<String> = (1..=5).map(|i| body("abc123", i, true)).collect();
    let replayed = replay(config(), PageBound::Count(2), &bodies);
    assert_eq!(replayed.requests, 2);
    assert_eq!(titles(&replayed.outcome.unwrap().unwrap()), vec!["Paper 1", "Paper 2"]);
}

#[test]
fn replay_that_runs_out_of_bodies_has_no_end() {
    let bodies: Vec<String> = (1..=2).map(|i| body("abc123", i, true)).collect();
    let replayed = replay(config(), PageBound::Unbounded, &bodies);
    assert_eq!(replayed, Replay { requests: 2, outcome: None });
    assert_eq!(replay(config(), PageBound::Count(1), &vec![]), Replay { requests: 0, outcome: None });
}

#[test]
fn replay_fails_where_a_body_is_not_accepted() {
    let bodies = vec![body("abc123", 1, true), "{}".to_string(), body("abc123", 3, true)];
    let replayed = replay(config(), PageBound::Unbounded, &bodies);
    assert_eq!(
        replayed,
        Replay { requests: 2, outcome: Some(Err(FetchError::Parse(ParseError::Author))) }
    );
    let first_without_aggregates = vec![body("abc123", 1, true).replace("\"cited_by\":{\"table\"", "\"c\":{\"t\"")];
    let replayed = replay(config(), PageBound::Unbounded, &first_without_aggregates);
    assert_eq!(
        replayed,
        Replay { requests: 1, outcome: Some(Err(FetchError::Parse(ParseError::MissingCitations))) }
    );
}
