use gscholar::config::FetchConfig;
use gscholar::error::{ConfigKey, Feature, FetchError, MergeError, ParseError};
use gscholar::model::{Article, ArticlesCiteInfo, Author, GoogleScholarResponse, Pagination};
use gscholar::pager::PageBound;
use gscholar::show::{
    article_info_table, article_table_titles, author_level_info_table, log_checkpoint, plan_show,
    rank_by_citations,
    ArticleRow, CellValue, InfoRow, OutputFormat, ShowPlan,
};

fn settings(pairs: &[(&str, &str)]) -> Vec<(String, String)> {
    pairs.iter().map(|(k, v)| (k.to_string(), v.to_string())).collect()
}

fn both() -> Vec<(String, String)> {
    settings(&[("GOOGLE_SCHOLAR_ID", "abc123"), ("SERP_API_KEY", "secret")])
}

fn article(title: &str, year: u64, cited_by: Option<Option<u64>>) -> Article {
    Article {
        title: title.to_string(),
        link: String::new(),
        authors: String::new(),
        citation_id: String::new(),
        year,
        cited_by: cited_by.map(|citations| ArticlesCiteInfo { citations, link: None }),
    }
}

fn snapshot(articles: Vec<Article>) -> GoogleScholarResponse {
    GoogleScholarResponse {
        author: Author {
            name: "A. Author".to_string(),
            author_id: "abc123".to_string(),
            affiliation: "Some University".to_string(),
            citations: 100,
            h_index: 5,
        },
        articles,
        pagination: Pagination::none(),
    }
}

#[test]
fn plan_follows_the_options() {
    let plan = plan_show(3, false, None, OutputFormat::CliTable, &both()).unwrap();
    assert_eq!(
        plan,
        ShowPlan {
            config: FetchConfig { author_id: "abc123".to_string(), api_key: "secret".to_string() },
            bound: PageBound::Count(3),
            show_author: true,
            show_articles: true,
            output_format: OutputFormat::CliTable,
        }
    );
    let plan = plan_show(-1, true, None, OutputFormat::Json, &both()).unwrap();
    assert_eq!(plan.bound, PageBound::Unbounded);
    assert!(!plan.show_author);
    assert!(plan.show_articles);
    assert_eq!(plan.output_format, OutputFormat::Json);
}

#[test]
fn page_count_of_zero_suppresses_the_article_table_only() {
    let plan = plan_show(0, false, None, OutputFormat::CliTable, &both()).unwrap();
    assert_eq!(plan.bound, PageBound::Count(0));
    assert!(plan.show_author);
    assert!(!plan.show_articles);
    let plan = plan_show(-5, false, None, OutputFormat::CliTable, &both()).unwrap();
    assert_eq!(plan.bound, PageBound::Count(0));
    assert!(plan.show_articles);
}

#[test]
fn author_lookup_is_not_implemented() {
    let plan = plan_show(1, false, Some("Someone".to_string()), OutputFormat::CliTable, &both());
    assert_eq!(plan, Err(FetchError::Unimplemented(Feature::FindAuthor)));
    let plan = plan_show(1, false, Some("Someone".to_string()), OutputFormat::Json, &settings(&[]));
    assert_eq!(plan, Err(FetchError::Unimplemented(Feature::FindAuthor)));
}

#[test]
fn plan_needs_author_and_credential() {
    let only_key = settings(&[("SERP_API_KEY", "secret")]);
    assert_eq!(
        plan_show(1, false, None, OutputFormat::CliTable, &only_key),
        Err(FetchError::Configuration(ConfigKey::AuthorId))
    );
    let only_author = settings(&[("GOOGLE_SCHOLAR_ID", "abc123")]);
    assert_eq!(
        plan_show(1, false, None, OutputFormat::CliTable, &only_author),
        Err(FetchError::Configuration(ConfigKey::ApiKey))
    );
}

#[test]
fn log_checkpoint_fails_loudly() {
    assert_eq!(log_checkpoint(), Err(FetchError::Unimplemented(Feature::LogCheckpoint)));
}

#[test]
fn author_table_has_four_rows() {
    let rows = author_level_info_table(&snapshot(vec![]));
    assert_eq!(
        rows,
        vec![
            InfoRow { label: "Name".to_string(), value: CellValue::Text("A. Author".to_string()) },
            InfoRow { label: "Author Id".to_string(), value: CellValue::Text("abc123".to_string()) },
            InfoRow { label: "Citations".to_string(), value: CellValue::Count(100) },
            InfoRow { label: "h-index".to_string(), value: CellValue::Count(5) },
        ]
    );
}

#[test]
fn article_table_leaves_out_articles_without_citation_record() {
    let response = snapshot(vec![
        article("one", 2019, Some(Some(10))),
        article("two", 2020, None),
        article("three", 0, Some(None)),
        article("four", 2021, Some(Some(0))),
        article("five", 2022, None),
    ]);
    assert_eq!(
        article_info_table(&response),
        vec![
            ArticleRow { title: "one".to_string(), year: 2019, citations: 10 },
            ArticleRow { title: "three".to_string(), year: 0, citations: 0 },
            ArticleRow { title: "four".to_string(), year: 2021, citations: 0 },
        ]
    );
    assert_eq!(response.articles.len(), 5);
    assert_eq!(article_info_table(&snapshot(vec![])), vec![]);
    assert_eq!(article_info_table(&snapshot(vec![article("x", 1, None)])), vec![]);
}

#[test]
fn article_table_titles_are_three() {
    assert_eq!(article_table_titles(), vec!["Title", "Year", "Citations"]);
}

#[test]
fn error_messages() {
    assert_eq!(ParseError::MissingCitations.message(), "missing citations.all");
    assert_eq!(ParseError::MissingHIndex.message(), "missing h_index.all");
    assert_eq!(ParseError::Syntax.message(), "response is not a JSON document");
    assert_eq!(ParseError::Author.message(), "missing or malformed author");
    assert_eq!(ParseError::MissingAuthorId.message(), "missing search_parameters.author_id");
    assert_eq!(ParseError::Articles.message(), "missing or malformed article list");
    assert_eq!(ParseError::Article(2).message(), "malformed article");
    assert_eq!(ParseError::Year(2).message(), "article year is not a number");
    assert_eq!(
        FetchError::Configuration(ConfigKey::AuthorId).message(),
        "Can not found GOOGLE_SCHOLAR_ID env variable."
    );
    assert_eq!(
        FetchError::Configuration(ConfigKey::ApiKey).message(),
        "Can not found SERP_API_KEY env variable."
    );
    assert_eq!(FetchError::Transport("timed out".to_string()).message(), "timed out");
    assert_eq!(
        FetchError::Parse(ParseError::MissingHIndex).message(),
        "Failed to parse response: missing h_index.all"
    );
    assert_eq!(FetchError::Merge(MergeError::AuthorMismatch).message(), "Author ID is not the same!");
    assert_eq!(
        FetchError::Unimplemented(Feature::FindAuthor).message(),
        "Finding author is not yet implemented."
    );
    assert_eq!(
        FetchError::Unimplemented(Feature::LogCheckpoint).message(),
        "Logging a checkpoint is not yet implemented."
    );
}

#[test]
fn ranking_puts_the_most_cited_first_and_keeps_ties_in_order() {
    let rows = vec![
        ArticleRow { title: "a".to_string(), year: 2019, citations: 3 },
        ArticleRow { title: "b".to_string(), year: 2020, citations: 10 },
        ArticleRow { title: "c".to_string(), year: 2021, citations: 3 },
        ArticleRow { title: "d".to_string(), year: 2022, citations: 0 },
        ArticleRow { title: "e".to_string(), year: 2023, citations: 10 },
        ArticleRow { title: "f".to_string(), year: 2024, citations: 7 },
    ];
    let ranked = rank_by_citations(&rows);
    let order: Vec<&str> = ranked.iter().map(|r| r.title.as_str()).collect();
    assert_eq!(order, vec!["b", "e", "f", "a", "c", "d"]);
    let counts: Vec<u64> = ranked.iter().map(|r| r.citations).collect();
    assert_eq!(counts, vec![10, 10, 7, 3, 3, 0]);
    assert_eq!(ranked[3], rows[0]);
    assert_eq!(rows.len(), 6);
}

#[test]
fn ranking_leaves_ranked_rows_as_they_are() {
    let rows = vec![
        ArticleRow { title: "a".to_string(), year: 1, citations: 9 },
        ArticleRow { title: "b".to_string(), year: 2, citations: 9 },
        ArticleRow { title: "c".to_string(), year: 3, citations: 1 },
    ];
    assert_eq!(rank_by_citations(&rows), rows);
    assert_eq!(rank_by_citations(&rank_by_citations(&rows)), rows);
    assert_eq!(rank_by_citations(&vec![]), vec![]);
}
