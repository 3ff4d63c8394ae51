//! What the `show` command does with its options, and what its tables hold.
//!
//! Nothing is printed here: a table is a list of rows of plain values, for
//! the caller to render.

use crate::config::{resolve_config, resolved, setting_views, ConfigView, FetchConfig};
use crate::decode::count_or;
use crate::error::{Feature, FetchError, FetchErrorView};
use crate::model::{text_of, ArticleView, AuthorView, GoogleScholarResponse};
use crate::pager::PageBound;
use vstd::prelude::*;

verus! {

/// The form in which the citation data is put out.
#[derive(Clone, Copy, Debug, PartialEq, Eq, Structural)]
pub enum OutputFormat {
    /// Tables on the terminal.
    CliTable,
    /// The snapshot as a JSON document, without its cursor.
    Json,
}

/// What a `show` command is to do.
#[derive(Clone, Debug, PartialEq, Eq)]
pub struct ShowPlan {
    pub config: FetchConfig,
    pub bound: PageBound,
    pub show_author: bool,
    pub show_articles: bool,
    pub output_format: OutputFormat,
}

pub struct PlanView {
    pub config: ConfigView,
    pub bound: PageBound,
    pub show_author: bool,
    pub show_articles: bool,
    pub output_format: OutputFormat,
}

impl View for ShowPlan {
    type V = PlanView;

    open spec fn view(&self) -> PlanView {
        PlanView {
            config: self.config@,
            bound: self.bound,
            show_author: self.show_author,
            show_articles: self.show_articles,
            output_format: self.output_format,
        }
    }
}

/// The plan that the options of a `show` command stand for.
///
/// Looking an author up is not implemented: asking for it fails, whatever
/// the settings hold. Else the author and the credential come from the
/// settings. The author block is shown unless it is suppressed; the article
/// table is shown unless the page count is exactly 0.
pub open spec fn planned(
    pages: i16,
    suppress_author: bool,
    find_author: Option<Seq<char>>,
    output_format: OutputFormat,
    settings: Seq<(Seq<char>, Seq<char>)>,
) -> Result<PlanView, FetchErrorView> {
    match find_author {
        Some(_) => Err(FetchErrorView::Unimplemented(Feature::FindAuthor)),
        None => match resolved(None, settings) {
            Err(error) => Err(error),
            Ok(config) => Ok(
                PlanView {
                    config,
                    bound: PageBound::of_pages(pages),
                    show_author: !suppress_author,
                    show_articles: pages != 0,
                    output_format,
                },
            ),
        },
    }
}

/// Plans a `show` command from its options and the settings.
pub fn plan_show(
    pages: i16,
    suppress_author: bool,
    find_author: Option<String>,
    output_format: OutputFormat,
    settings: &Vec<(String, String)>,
) -> (plan: Result<ShowPlan, FetchError>)
    ensures
        match plan {
            Ok(p) => planned(
                pages,
                suppress_author,
                text_of(find_author),
                output_format,
                setting_views(settings@),
            ) == Ok::<PlanView, FetchErrorView>(p@),
            Err(e) => planned(
                pages,
                suppress_author,
                text_of(find_author),
                output_format,
                setting_views(settings@),
            ) == Err::<PlanView, FetchErrorView>(e@),
        },
{
    if find_author.is_some() {
        return Err(FetchError::Unimplemented(Feature::FindAuthor));
    }
    match resolve_config(None, settings) {
        Err(error) => Err(error),
        Ok(config) => Ok(
            ShowPlan {
                config,
                bound: PageBound::from_pages(pages),
                show_author: !suppress_author,
                show_articles: pages != 0,
                output_format,
            },
        ),
    }
}

/// Recording a checkpoint is not implemented: the command fails and says so.
pub fn log_checkpoint() -> (outcome: Result<(), FetchError>)
    ensures
        outcome matches Err(error) && error@ == FetchErrorView::Unimplemented(
            Feature::LogCheckpoint,
        ),
{
    Err(FetchError::Unimplemented(Feature::LogCheckpoint))
}

/// What a cell of a table holds.
#[derive(Clone, Debug, PartialEq, Eq)]
pub enum CellValue {
    Text(String),
    Count(u64),
}

pub enum CellView {
    Text(Seq<char>),
    Count(u64),
}

impl View for CellValue {
    type V = CellView;

    open spec fn view(&self) -> CellView {
        match self {
            CellValue::Text(text) => CellView::Text(text@),
            CellValue::Count(count) => CellView::Count(*count),
        }
    }
}

/// One row of the author table: a label and a value.
#[derive(Clone, Debug, PartialEq, Eq)]
pub struct InfoRow {
    pub label: String,
    pub value: CellValue,
}

pub struct InfoRowView {
    pub label: Seq<char>,
    pub value: CellView,
}

impl View for InfoRow {
    type V = InfoRowView;

    open spec fn view(&self) -> InfoRowView {
        InfoRowView { label: self.label@, value: self.value@ }
    }
}

/// The views of the rows of an author table.
pub open spec fn info_row_views(rows: Seq<InfoRow>) -> Seq<InfoRowView> {
    rows.map_values(|row: InfoRow| row@)
}

/// The rows of the author table: name, identifier, citations, h-index.
pub open spec fn author_rows(author: AuthorView) -> Seq<InfoRowView> {
    seq![
        InfoRowView { label: "Name"@, value: CellView::Text(author.name) },
        InfoRowView { label: "Author Id"@, value: CellView::Text(author.author_id) },
        InfoRowView { label: "Citations"@, value: CellView::Count(author.citations) },
        InfoRowView { label: "h-index"@, value: CellView::Count(author.h_index) },
    ]
}

/// Lists the rows of the author table of a snapshot.
pub fn author_level_info_table(response: &GoogleScholarResponse) -> (rows: Vec<InfoRow>)
    ensures
        info_row_views(rows@) == author_rows(response@.author),
{
    let author = &response.author;
    let mut rows: Vec<InfoRow> = Vec::new();
    rows.push(InfoRow { label: "Name".to_owned(), value: CellValue::Text(author.name.clone()) });
    rows.push(
        InfoRow { label: "Author Id".to_owned(), value: CellValue::Text(author.author_id.clone()) },
    );
    rows.push(InfoRow { label: "Citations".to_owned(), value: CellValue::Count(author.citations) });
    rows.push(InfoRow { label: "h-index".to_owned(), value: CellValue::Count(author.h_index) });
    assert(info_row_views(rows@) == author_rows(response@.author));
    rows
}

/// One row of the article table.
#[derive(Clone, Debug, PartialEq, Eq)]
pub struct ArticleRow {
    pub title: String,
    pub year: u64,
    pub citations: u64,
}

pub struct ArticleRowView {
    pub title: Seq<char>,
    pub year: u64,
    pub citations: u64,
}

impl View for ArticleRow {
    type V = ArticleRowView;

    open spec fn view(&self) -> ArticleRowView {
        ArticleRowView { title: self.title@, year: self.year, citations: self.citations }
    }
}

/// The views of the rows of an article table.
pub open spec fn article_row_views(rows: Seq<ArticleRow>) -> Seq<ArticleRowView> {
    rows.map_values(|row: ArticleRow| row@)
}

/// The row of an article in the article table: none for an article without a
/// citation record; a record without a count shows as 0.
pub open spec fn row_of(article: ArticleView) -> Option<ArticleRowView> {
    match article.cited_by {
        Some(info) => Some(
            ArticleRowView {
                title: article.title,
                year: article.year,
                citations: count_or(info.citations, 0),
            },
        ),
        None => None,
    }
}

/// The rows of the article table: the articles that have a citation record,
/// in the order of the snapshot.
pub open spec fn article_rows(articles: Seq<ArticleView>) -> Seq<ArticleRowView> {
    articles.filter_map(|article: ArticleView| row_of(article))
}

/// The titles of the columns of the article table.
pub open spec fn article_titles() -> Seq<Seq<char>> {
    seq!["Title"@, "Year"@, "Citations"@]
}

/// Lists the titles of the columns of the article table.
pub fn article_table_titles() -> (titles: Vec<String>)
    ensures
        titles@.map_values(|title: String| title@) == article_titles(),
{
    let mut titles: Vec<String> = Vec::new();
    titles.push("Title".to_owned());
    titles.push("Year".to_owned());
    titles.push("Citations".to_owned());
    assert(titles@.map_values(|title: String| title@) == article_titles());
    titles
}

/// Lists the rows of the article table of a snapshot.
pub fn article_info_table(response: &GoogleScholarResponse) -> (rows: Vec<ArticleRow>)
    ensures
        article_row_views(rows@) == article_rows(response@.articles),
{
    let articles = &response.articles;
    let ghost views = response@.articles;
    let mut rows: Vec<ArticleRow> = Vec::new();
    let mut i: usize = 0;
    assert(article_row_views(rows@) == article_rows(views.take(0)));
    while i < articles.len()
        invariant
            i <= articles.len(),
            views == response@.articles,
            views.len() == articles.len(),
            forall|j: int| 0 <= j < articles.len() ==> views[j] == articles[j]@,
            article_row_views(rows@) == article_rows(views.take(i as int)),
        decreases articles.len() - i,
    {
        let article = &articles[i];
        let ghost seen = views.take(i + 1);
        assert(seen.drop_last() == views.take(i as int));
        assert(seen.last() == article@);
        match &article.cited_by {
            Some(info) => {
                let citations: u64 = match info.citations {
                    Some(count) => count,
                    None => 0,
                };
                let row = ArticleRow { title: article.title.clone(), year: article.year, citations };
                assert(article_row_views(rows@.push(row)) == article_row_views(rows@).push(row@));
                assert(article_row_views(rows@) + seq![row@] == article_row_views(rows@).push(
                    row@,
                ));
                rows.push(row);
            },
            None => {},
        }
        i = i + 1;
    }
    assert(views.take(articles.len() as int) == views);
    rows
}

/// Whether the rows stand in the order of their citation counts, highest
/// first.
pub open spec fn is_ranked(rows: Seq<ArticleRowView>) -> bool {
    forall|i: int, j: int|
        0 <= i <= j < rows.len() ==> (#[trigger] rows[i]).citations >= (#[trigger] rows[j]).citations
}

/// The number of rows at the head of `rows` that have `citations` citations
/// or more.
pub open spec fn place_of(rows: Seq<ArticleRowView>, citations: u64) -> int
    decreases rows.len(),
{
    if rows.len() == 0 || rows[0].citations < citations {
        0
    } else {
        1 + place_of(rows.drop_first(), citations)
    }
}

/// The rows with `row` put in behind the rows at their head that have as
/// many citations as `row` or more.
pub open spec fn placed(rows: Seq<ArticleRowView>, row: ArticleRowView) -> Seq<ArticleRowView> {
    rows.insert(place_of(rows, row.citations), row)
}

/// The rows by citation count, highest first; rows with the same count keep
/// the order that they came in.
pub open spec fn rank(rows: Seq<ArticleRowView>) -> Seq<ArticleRowView>
    decreases rows.len(),
{
    if rows.len() == 0 {
        rows
    } else {
        placed(rank(rows.drop_last()), rows.last())
    }
}

/// The place of a row is where the rows with as many citations end.
pub proof fn lemma_place_of(rows: Seq<ArticleRowView>, citations: u64, k: int)
    requires
        0 <= k <= rows.len(),
        forall|j: int| 0 <= j < k ==> (#[trigger] rows[j]).citations >= citations,
        k == rows.len() || rows[k].citations < citations,
    ensures
        place_of(rows, citations) == k,
    decreases rows.len(),
{
    if k > 0 {
        let rest = rows.drop_first();
        assert forall|j: int| 0 <= j < k - 1 implies (#[trigger] rest[j]).citations
            >= citations by {
            assert(rest[j] == rows[j + 1]);
        }
        if k - 1 < rest.len() {
            assert(rest[k - 1] == rows[k]);
        }
        lemma_place_of(rest, citations, k - 1);
    }
}

/// Every row before the place of a row has as many citations or more, and
/// the row at the place, if there is one, has fewer.
pub proof fn lemma_place_bounds(rows: Seq<ArticleRowView>, citations: u64)
    ensures
        0 <= place_of(rows, citations) <= rows.len(),
        forall|j: int|
            0 <= j < place_of(rows, citations) ==> (#[trigger] rows[j]).citations >= citations,
        place_of(rows, citations) < rows.len() ==> rows[place_of(rows, citations)].citations
            < citations,
    decreases rows.len(),
{
    if !(rows.len() == 0 || rows[0].citations < citations) {
        let rest = rows.drop_first();
        lemma_place_bounds(rest, citations);
        let p = place_of(rest, citations);
        assert forall|j: int| 0 <= j < p + 1 implies (#[trigger] rows[j]).citations
            >= citations by {
            if j > 0 {
                assert(rows[j] == rest[j - 1]);
            }
        }
        if p < rest.len() {
            assert(rest[p] == rows[p + 1]);
        }
    }
}

/// Ranking puts the rows in the order of their citation counts, highest
/// first, and neither drops a row nor adds one.
pub proof fn law_rank_orders_the_same_rows(rows: Seq<ArticleRowView>)
    ensures
        is_ranked(rank(rows)),
        rank(rows).len() == rows.len(),
        rank(rows).to_multiset() == rows.to_multiset(),
    decreases rows.len(),
{
    if rows.len() > 0 {
        let before = rank(rows.drop_last());
        let row = rows.last();
        let p = place_of(before, row.citations);
        let after = before.insert(p, row);
        law_rank_orders_the_same_rows(rows.drop_last());
        lemma_place_bounds(before, row.citations);
        before.insert_ensures(p, row);
        assert forall|i: int, j: int| 0 <= i <= j < after.len() implies (#[trigger] after[i]).citations
            >= (#[trigger] after[j]).citations by {
            if i < p {
                assert(after[i] == before[i]);
            } else if i > p {
                assert(after[i] == before[i - 1]);
            }
            if j < p {
                assert(after[j] == before[j]);
            } else if j > p {
                assert(after[j] == before[j - 1]);
                assert(before[p].citations >= before[j - 1].citations);
            }
        }
        vstd::seq_lib::to_multiset_insert(before, p, row);
        vstd::seq_lib::to_multiset_build(rows.drop_last(), row);
        assert(rows.drop_last().push(row) == rows);
    }
}

/// Rows that are in the order of their citation counts stay as they are.
pub proof fn law_ranked_rows_stay(rows: Seq<ArticleRowView>)
    requires
        is_ranked(rows),
    ensures
        rank(rows) == rows,
    decreases rows.len(),
{
    if rows.len() > 0 {
        let head = rows.drop_last();
        assert forall|i: int, j: int| 0 <= i <= j < head.len() implies (#[trigger] head[i]).citations
            >= (#[trigger] head[j]).citations by {
            assert(head[i] == rows[i] && head[j] == rows[j]);
        }
        law_ranked_rows_stay(head);
        assert forall|j: int| 0 <= j < head.len() implies (#[trigger] head[j]).citations
            >= rows.last().citations by {
            assert(head[j] == rows[j]);
        }
        lemma_place_of(head, rows.last().citations, head.len() as int);
        assert(head.insert(head.len() as int, rows.last()) == rows);
    }
}

/// Puts the rows of an article table in the order of their citation counts,
/// highest first. Rows with the same count keep their order.
pub fn rank_by_citations(rows: &Vec<ArticleRow>) -> (ranked: Vec<ArticleRow>)
    ensures
        article_row_views(ranked@) == rank(article_row_views(rows@)),
{
    let ghost views = article_row_views(rows@);
    let mut ranked: Vec<ArticleRow> = Vec::new();
    let mut i: usize = 0;
    assert(article_row_views(ranked@) == rank(views.take(0)));
    while i < rows.len()
        invariant
            i <= rows.len(),
            views == article_row_views(rows@),
            ranked.len() == i,
            article_row_views(ranked@) == rank(views.take(i as int)),
        decreases rows.len() - i,
    {
        let row = &rows[i];
        let ghost before = article_row_views(ranked@);
        let mut k: usize = 0;
        while k < ranked.len() && ranked[k].citations >= row.citations
            invariant
                k <= ranked.len(),
                before == article_row_views(ranked@),
                forall|j: int| 0 <= j < k ==> (#[trigger] before[j]).citations >= row.citations,
            decreases ranked.len() - k,
        {
            k = k + 1;
        }
        let copy = ArticleRow { title: row.title.clone(), year: row.year, citations: row.citations };
        proof {
            lemma_place_of(before, row.citations, k as int);
            let seen = views.take(i + 1);
            assert(seen.drop_last() == views.take(i as int));
            assert(seen.last() == copy@);
            assert(article_row_views(ranked@.insert(k as int, copy)) == before.insert(
                k as int,
                copy@,
            ));
        }
        ranked.insert(k, copy);
        i = i + 1;
    }
    assert(views.take(rows.len() as int) == views);
    ranked
}

} // verus!
