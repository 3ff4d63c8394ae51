//! From a JSON document to a page: which members are read, which may be
//! missing, and which are fatal to miss.

use crate::decimal::{parse_unsigned, unsigned_of};
use crate::error::ParseError;
use crate::json::{
    document_of, element, lemma_array_value, member, text_at, unsigned_at, value_at, Json,
    JsonValue,
};
use crate::model::{
    article_views, text_of, Article, ArticleView, ArticlesCiteInfo, Author, AuthorView,
    CiteInfoView, GoogleScholarResponse, Pagination, PaginationView, SnapshotView,
};
use vstd::prelude::*;

verus! {

/// What a missing or `null` member means for the value that holds it.
#[derive(Clone, Copy, Debug, PartialEq, Eq, Structural)]
pub enum FieldPolicy {
    /// The member must be there, with a value of its type.
    Required,
    /// A missing member stands for the default of its type; `null` does not.
    Defaulted,
    /// A missing member and `null` both stand for no value.
    Optional,
}

/// Where a page stands in a fetch.
#[derive(Clone, Copy, Debug, PartialEq, Eq, Structural)]
pub enum PageRole {
    /// The page that fixes the author and the author's aggregates: it must
    /// carry both aggregates.
    First,
    /// A later page: an aggregate that it lacks is taken from its author
    /// block, where it defaults to 0.
    Following,
}

/// Why one element of the article list was not accepted.
#[derive(Clone, Copy, Debug, PartialEq, Eq, Structural)]
pub enum ArticleFault {
    /// Not an object, or a member is missing or of the wrong type.
    Malformed,
    /// The year is neither empty nor a decimal number.
    Year,
}

/// The policy under which a page of this role reads its aggregates.
pub open spec fn aggregate_policy(role: PageRole) -> FieldPolicy {
    match role {
        PageRole::First => FieldPolicy::Required,
        PageRole::Following => FieldPolicy::Defaulted,
    }
}

impl PageRole {
    /// The policy under which a page of this role reads its aggregates.
    pub fn aggregate_policy(&self) -> (policy: FieldPolicy)
        ensures
            policy == aggregate_policy(*self),
    {
        match self {
            PageRole::First => FieldPolicy::Required,
            PageRole::Following => FieldPolicy::Defaulted,
        }
    }
}

/// The string member `key` of `object` under `policy`. The outer `None` is a
/// failure; `Some(None)` is a member that is allowed to have no value.
pub open spec fn text_member(object: JsonValue, key: Seq<char>, policy: FieldPolicy) -> Option<
    Option<Seq<char>>,
> {
    match object.field(key) {
        None => if policy is Required {
            None
        } else {
            Some(None)
        },
        Some(value) => if value is Null && policy is Optional {
            Some(None)
        } else {
            match value.as_text() {
                Some(text) => Some(Some(text)),
                None => None,
            }
        },
    }
}

/// The non-negative integer member `key` of `object` under `policy`, read as
/// [`text_member`] reads a string.
pub open spec fn count_member(object: JsonValue, key: Seq<char>, policy: FieldPolicy) -> Option<
    Option<u64>,
> {
    match object.field(key) {
        None => if policy is Required {
            None
        } else {
            Some(None)
        },
        Some(value) => if value is Null && policy is Optional {
            Some(None)
        } else {
            match value.as_unsigned() {
                Some(count) => Some(Some(count)),
                None => None,
            }
        },
    }
}

/// The text, or the empty text where there is none.
pub open spec fn text_or_empty(text: Option<Seq<char>>) -> Seq<char> {
    match text {
        Some(t) => t,
        None => Seq::empty(),
    }
}

/// The count, or `default` where there is none.
pub open spec fn count_or(count: Option<u64>, default: u64) -> u64 {
    match count {
        Some(n) => n,
        None => default,
    }
}

/// The author that an author block describes: name and affiliation are
/// required; identifier, citation count and h-index default.
pub open spec fn author_of(block: JsonValue) -> Option<AuthorView> {
    match (
        text_member(block, "name"@, FieldPolicy::Required),
        text_member(block, "author_id"@, FieldPolicy::Defaulted),
        text_member(block, "affiliations"@, FieldPolicy::Required),
        count_member(block, "citations"@, FieldPolicy::Defaulted),
        count_member(block, "h_index"@, FieldPolicy::Defaulted),
    ) {
        (
            Some(Some(name)),
            Some(author_id),
            Some(Some(affiliation)),
            Some(citations),
            Some(h_index),
        ) => Some(
            AuthorView {
                name,
                author_id: text_or_empty(author_id),
                affiliation,
                citations: count_or(citations, 0),
                h_index: count_or(h_index, 0),
            },
        ),
        _ => None,
    }
}

/// The citation record that a `cited_by` object describes; both of its
/// members are optional.
pub open spec fn cite_info_of(block: JsonValue) -> Option<CiteInfoView> {
    if block is Object {
        match (
            count_member(block, "value"@, FieldPolicy::Optional),
            text_member(block, "serpapi_link"@, FieldPolicy::Optional),
        ) {
            (Some(citations), Some(link)) => Some(CiteInfoView { citations, link }),
            _ => None,
        }
    } else {
        None
    }
}

/// The optional citation record of an article.
pub open spec fn cited_by_of(article: JsonValue) -> Option<Option<CiteInfoView>> {
    match article.field("cited_by"@) {
        None => Some(None),
        Some(block) => if block is Null {
            Some(None)
        } else {
            match cite_info_of(block) {
                Some(info) => Some(Some(info)),
                None => None,
            }
        },
    }
}

/// The year that the text of a year member denotes: 0 for the empty text,
/// else the decimal number written there.
pub open spec fn year_of(text: Seq<char>) -> Option<u64> {
    if text.len() == 0 {
        Some(0)
    } else {
        unsigned_of(text)
    }
}

/// The article that one element of the article list describes.
pub open spec fn article_of(item: JsonValue) -> Result<ArticleView, ArticleFault> {
    match (
        text_member(item, "title"@, FieldPolicy::Required),
        text_member(item, "link"@, FieldPolicy::Required),
        text_member(item, "authors"@, FieldPolicy::Required),
        text_member(item, "citation_id"@, FieldPolicy::Required),
        text_member(item, "year"@, FieldPolicy::Required),
        cited_by_of(item),
    ) {
        (
            Some(Some(title)),
            Some(Some(link)),
            Some(Some(authors)),
            Some(Some(citation_id)),
            Some(Some(year)),
            Some(cited_by),
        ) => match year_of(year) {
            Some(year) => Ok(ArticleView { title, link, authors, citation_id, year, cited_by }),
            None => Err(ArticleFault::Year),
        },
        _ => Err(ArticleFault::Malformed),
    }
}

/// The error that stands for `fault` in the article at `index`.
pub open spec fn fault_at(fault: ArticleFault, index: usize) -> ParseError {
    match fault {
        ArticleFault::Malformed => ParseError::Article(index),
        ArticleFault::Year => ParseError::Year(index),
    }
}

/// The first `n` articles of `items`, or the error of the first among them
/// that is not accepted.
pub open spec fn articles_upto(items: Seq<JsonValue>, n: int) -> Result<
    Seq<ArticleView>,
    ParseError,
>
    decreases n,
{
    if n <= 0 {
        Ok(Seq::empty())
    } else {
        match articles_upto(items, n - 1) {
            Err(error) => Err(error),
            Ok(articles) => match article_of(items[n - 1]) {
                Ok(article) => Ok(articles.push(article)),
                Err(fault) => Err(fault_at(fault, (n - 1) as usize)),
            },
        }
    }
}

/// Once an article was not accepted, its error stands however many more
/// are read.
pub proof fn lemma_first_failure_stands(items: Seq<JsonValue>, k: int, n: int)
    requires
        0 <= k <= n,
        articles_upto(items, k) is Err,
    ensures
        articles_upto(items, n) == articles_upto(items, k),
    decreases n - k,
{
    if k < n {
        lemma_first_failure_stands(items, k, n - 1);
    }
}

/// The articles that an article list describes.
pub open spec fn articles_of(list: Option<JsonValue>) -> Result<Seq<ArticleView>, ParseError> {
    match list {
        Some(JsonValue::Array(items)) => articles_upto(items, items.len() as int),
        _ => Err(ParseError::Articles),
    }
}

/// The aggregate that the table of a page holds at `index` under `name`.
pub open spec fn aggregate_of(page: JsonValue, index: int, name: Seq<char>) -> Option<u64> {
    let table = member(member(Some(page), "cited_by"@), "table"@);
    unsigned_at(member(member(element(table, index), name), "all"@))
}

/// The author identifier that the search parameters of a page name; an
/// empty identifier is none.
pub open spec fn author_id_of(page: JsonValue) -> Option<Seq<char>> {
    match text_at(member(member(Some(page), "search_parameters"@), "author_id"@)) {
        Some(id) => if id.len() > 0 {
            Some(id)
        } else {
            None
        },
        None => None,
    }
}

/// The cursor of a page. A link that is missing or is not a string is no
/// link, and so is every link of a page without a pagination block.
pub open spec fn pagination_of(page: JsonValue) -> PaginationView {
    let block = member(Some(page), "serpapi_pagination"@);
    PaginationView {
        next: text_at(member(block, "next"@)),
        current: text_at(member(block, "current"@)),
        previous: text_at(member(block, "previous"@)),
    }
}

/// The aggregate that a page goes by: the one found in its table; where the
/// table has none, `fallback` under a policy that lets it default, and none
/// under one that requires it.
pub open spec fn aggregate_under(policy: FieldPolicy, found: Option<u64>, fallback: u64) -> Option<
    u64,
> {
    match found {
        Some(total) => Some(total),
        None => if policy is Required {
            None
        } else {
            Some(fallback)
        },
    }
}

/// The page that a document describes, read in the role `role`.
///
/// The members are examined in this order, and the first failure is the
/// error: the author block, the citation total, the h-index, the author
/// identifier, the articles.
pub open spec fn page_of(page: JsonValue, role: PageRole) -> Result<SnapshotView, ParseError> {
    let policy = aggregate_policy(role);
    match author_of(page.field_or_null("author"@)) {
        None => Err(ParseError::Author),
        Some(author) => match aggregate_under(
            policy,
            aggregate_of(page, 0, "citations"@),
            author.citations,
        ) {
            None => Err(ParseError::MissingCitations),
            Some(citations) => match aggregate_under(
                policy,
                aggregate_of(page, 1, "h_index"@),
                author.h_index,
            ) {
                None => Err(ParseError::MissingHIndex),
                Some(h_index) => match author_id_of(page) {
                    None => Err(ParseError::MissingAuthorId),
                    Some(author_id) => match articles_of(member(Some(page), "articles"@)) {
                        Err(error) => Err(error),
                        Ok(articles) => Ok(
                            SnapshotView {
                                author: AuthorView { author_id, citations, h_index, ..author },
                                articles,
                                pagination: pagination_of(page),
                            },
                        ),
                    },
                },
            },
        },
    }
}

/// The articles of a list are accepted together or not at all: where the
/// list is accepted, each article is the one that its element describes, in
/// order; where it is not, the error is that of the first element that is not
/// accepted.
pub proof fn law_articles_all_or_first_failure(items: Seq<JsonValue>, n: int)
    requires
        0 <= n <= items.len(),
    ensures
        match articles_upto(items, n) {
            Ok(articles) => articles.len() == n && forall|i: int|
                0 <= i < n ==> (#[trigger] article_of(items[i])) == Ok::<ArticleView, ArticleFault>(
                    articles[i],
                ),
            Err(error) => exists|k: int|
                0 <= k < n && (#[trigger] article_of(items[k])) is Err && error == fault_at(
                    article_of(items[k])->Err_0,
                    k as usize,
                ) && forall|j: int| 0 <= j < k ==> (#[trigger] article_of(items[j])) is Ok,
        },
    decreases n,
{
    if n > 0 {
        law_articles_all_or_first_failure(items, n - 1);
        match articles_upto(items, n - 1) {
            Ok(articles) => {
                if article_of(items[n - 1]) is Err {
                    assert(article_of(items[n - 1]) is Err && forall|j: int|
                        0 <= j < n - 1 ==> (#[trigger] article_of(items[j])) is Ok);
                }
            },
            Err(error) => {},
        }
    }
}

/// A page read as the first of a fetch is not accepted unless its table
/// holds the citation total and the h-index: with an author block that
/// reads, the lack of the one or the other is the error.
pub proof fn law_first_page_needs_aggregates(page: JsonValue)
    ensures
        aggregate_of(page, 0, "citations"@) is None || aggregate_of(page, 1, "h_index"@) is None
            ==> page_of(page, PageRole::First) is Err,
        author_of(page.field_or_null("author"@)) is Some && aggregate_of(page, 0, "citations"@)
            is None ==> page_of(page, PageRole::First) == Err::<SnapshotView, ParseError>(
            ParseError::MissingCitations,
        ),
        author_of(page.field_or_null("author"@)) is Some && aggregate_of(page, 0, "citations"@)
            is Some && aggregate_of(page, 1, "h_index"@) is None ==> page_of(page, PageRole::First)
            == Err::<SnapshotView, ParseError>(ParseError::MissingHIndex),
{
}

/// A later page is read as the first one is, but for the aggregates: what
/// the first role accepts, the following role accepts with the same result.
pub proof fn law_following_role_accepts_more(page: JsonValue)
    ensures
        page_of(page, PageRole::First) is Ok ==> page_of(page, PageRole::Following) == page_of(
            page,
            PageRole::First,
        ),
{
}

/// An accepted page names its author: the identifier is not empty, and it
/// is the one in the search parameters, whatever the author block holds.
pub proof fn law_accepted_page_names_its_author(page: JsonValue, role: PageRole)
    ensures
        page_of(page, role) matches Ok(snapshot) ==> snapshot.author.author_id.len() > 0
            && author_id_of(page) == Some(snapshot.author.author_id),
{
}

/// A page without a pagination block, or with `null` in its place, has no
/// cursor.
pub proof fn law_page_without_pagination_block(page: JsonValue)
    requires
        page.field("serpapi_pagination"@) is None || page.field("serpapi_pagination"@) == Some(
            JsonValue::Null,
        ),
    ensures
        pagination_of(page) == PaginationView::none(),
{
}

/// An empty year is the year 0, and a year that ends in anything but a digit
/// is no year.
pub proof fn law_year_coercion(text: Seq<char>)
    ensures
        text.len() == 0 ==> year_of(text) == Some(0u64),
        text.len() > 0 && !crate::decimal::is_digit(text.last()) ==> year_of(text) is None,
{
    if text.len() > 0 && !crate::decimal::is_digit(text.last()) {
        let digits = crate::decimal::after_sign(text);
        if digits.len() > 0 {
            assert(digits.last() == text.last());
            assert(!crate::decimal::all_digits(digits));
        }
    }
}

/// The view of the outcome of reading a page.
pub open spec fn outcome_view(outcome: Result<GoogleScholarResponse, ParseError>) -> Result<
    SnapshotView,
    ParseError,
> {
    match outcome {
        Ok(page) => Ok(page@),
        Err(error) => Err(error),
    }
}

/// Reads the string member `key` of `object` under `policy`.
pub fn read_text(object: &Json, key: &str, policy: FieldPolicy) -> (found: Option<Option<String>>)
    ensures
        match found {
            Some(text) => text_member(object@, key@, policy) == Some(text_of(text)),
            None => text_member(object@, key@, policy) is None,
        },
{
    match object.get(key) {
        None => match policy {
            FieldPolicy::Required => None,
            _ => Some(None),
        },
        Some(value) => {
            if value.is_null() && policy == FieldPolicy::Optional {
                Some(None)
            } else {
                match value.as_str() {
                    Some(text) => Some(Some(text.to_owned())),
                    None => None,
                }
            }
        },
    }
}

/// Reads the non-negative integer member `key` of `object` under `policy`.
pub fn read_count(object: &Json, key: &str, policy: FieldPolicy) -> (found: Option<Option<u64>>)
    ensures
        found == count_member(object@, key@, policy),
{
    match object.get(key) {
        None => match policy {
            FieldPolicy::Required => None,
            _ => Some(None),
        },
        Some(value) => {
            if value.is_null() && policy == FieldPolicy::Optional {
                Some(None)
            } else {
                match value.as_u64() {
                    Some(count) => Some(Some(count)),
                    None => None,
                }
            }
        },
    }
}

/// Reads a string member that must be there.
pub fn read_required_text(object: &Json, key: &str) -> (found: Option<String>)
    ensures
        match found {
            Some(text) => text_member(object@, key@, FieldPolicy::Required) == Some(Some(text@)),
            None => text_member(object@, key@, FieldPolicy::Required) is None,
        },
{
    match read_text(object, key, FieldPolicy::Required) {
        Some(Some(text)) => Some(text),
        _ => None,
    }
}

/// Reads an author block.
pub fn decode_author(block: &Json) -> (author: Option<Author>)
    ensures
        match author {
            Some(a) => author_of(block@) == Some(a@),
            None => author_of(block@) is None,
        },
{
    let name = match read_required_text(block, "name") {
        Some(text) => text,
        None => return None,
    };
    let author_id = match read_text(block, "author_id", FieldPolicy::Defaulted) {
        Some(Some(text)) => text,
        Some(None) => String::new(),
        None => return None,
    };
    let affiliation = match read_required_text(block, "affiliations") {
        Some(text) => text,
        None => return None,
    };
    let citations: u64 = match read_count(block, "citations", FieldPolicy::Defaulted) {
        Some(Some(count)) => count,
        Some(None) => 0,
        None => return None,
    };
    let h_index: u64 = match read_count(block, "h_index", FieldPolicy::Defaulted) {
        Some(Some(count)) => count,
        Some(None) => 0,
        None => return None,
    };
    Some(Author { name, author_id, affiliation, citations, h_index })
}

/// Reads a `cited_by` object.
pub fn decode_cite_info(block: &Json) -> (info: Option<ArticlesCiteInfo>)
    ensures
        match info {
            Some(i) => cite_info_of(block@) == Some(i@),
            None => cite_info_of(block@) is None,
        },
{
    match block {
        Json::Object(_) => {},
        _ => return None,
    }
    let citations = match read_count(block, "value", FieldPolicy::Optional) {
        Some(count) => count,
        None => return None,
    };
    let link = match read_text(block, "serpapi_link", FieldPolicy::Optional) {
        Some(text) => text,
        None => return None,
    };
    Some(ArticlesCiteInfo { citations, link })
}

/// Reads the year of an article from the text of its year member.
pub fn parse_year(text: &str) -> (year: Option<u64>)
    ensures
        year == year_of(text@),
{
    if text.unicode_len() == 0 {
        Some(0)
    } else {
        parse_unsigned(text)
    }
}

/// Reads one element of the article list.
pub fn decode_article(item: &Json) -> (article: Result<Article, ArticleFault>)
    ensures
        match article {
            Ok(a) => article_of(item@) == Ok::<ArticleView, ArticleFault>(a@),
            Err(fault) => article_of(item@) == Err::<ArticleView, ArticleFault>(fault),
        },
{
    let title = match read_required_text(item, "title") {
        Some(text) => text,
        None => return Err(ArticleFault::Malformed),
    };
    let link = match read_required_text(item, "link") {
        Some(text) => text,
        None => return Err(ArticleFault::Malformed),
    };
    let authors = match read_required_text(item, "authors") {
        Some(text) => text,
        None => return Err(ArticleFault::Malformed),
    };
    let citation_id = match read_required_text(item, "citation_id") {
        Some(text) => text,
        None => return Err(ArticleFault::Malformed),
    };
    let year_text = match read_required_text(item, "year") {
        Some(text) => text,
        None => return Err(ArticleFault::Malformed),
    };
    let cited_by = match item.get("cited_by") {
        None => None,
        Some(block) => if block.is_null() {
            None
        } else {
            match decode_cite_info(block) {
                Some(info) => Some(info),
                None => return Err(ArticleFault::Malformed),
            }
        },
    };
    match parse_year(year_text.as_str()) {
        Some(year) => Ok(Article { title, link, authors, citation_id, year, cited_by }),
        None => Err(ArticleFault::Year),
    }
}

/// Reads the article list of a page.
pub fn decode_articles(list: Option<&Json>) -> (articles: Result<Vec<Article>, ParseError>)
    ensures
        match articles {
            Ok(a) => articles_of(value_at(list)) == Ok::<Seq<ArticleView>, ParseError>(
                article_views(a@),
            ),
            Err(error) => articles_of(value_at(list)) == Err::<Seq<ArticleView>, ParseError>(
                error,
            ),
        },
{
    match list {
        Some(Json::Array(items)) => {
            proof {
                lemma_array_value(*items);
            }
            let ghost values = Json::Array(*items)@->Array_0;
            let mut articles: Vec<Article> = Vec::new();
            let mut i: usize = 0;
            assert(article_views(articles@) == Seq::<ArticleView>::empty());
            while i < items.len()
                invariant
                    i <= items.len(),
                    value_at(list) == Some(JsonValue::Array(values)),
                    values.len() == items.len(),
                    forall|j: int| 0 <= j < items.len() ==> values[j] == items[j]@,
                    articles_upto(values, i as int) == Ok::<Seq<ArticleView>, ParseError>(
                        article_views(articles@),
                    ),
                decreases items.len() - i,
            {
                match decode_article(&items[i]) {
                    Ok(article) => {
                        assert(article_views(articles@.push(article)) == article_views(
                            articles@,
                        ).push(article@));
                        articles.push(article);
                    },
                    Err(fault) => {
                        proof {
                            lemma_first_failure_stands(values, i + 1, values.len() as int);
                        }
                        return Err(
                            match fault {
                                ArticleFault::Malformed => ParseError::Article(i),
                                ArticleFault::Year => ParseError::Year(i),
                            },
                        );
                    },
                }
                i = i + 1;
            }
            Ok(articles)
        },
        _ => Err(ParseError::Articles),
    }
}

/// Reads the aggregate that the table of a page holds at `index` under
/// `name`.
pub fn read_aggregate(page: &Json, index: usize, name: &str) -> (total: Option<u64>)
    ensures
        total == aggregate_of(page@, index as int, name@),
{
    let table = Json::get_member(Json::get_member(Some(page), "cited_by"), "table");
    let place = Json::get_member(Json::get_member(Json::get_element(table, index), name), "all");
    match place {
        Some(value) => value.as_u64(),
        None => None,
    }
}

/// Reads the text at a place that may not exist.
pub fn read_text_at(place: Option<&Json>) -> (text: Option<String>)
    ensures
        text_of(text) == text_at(value_at(place)),
{
    match place {
        Some(value) => match value.as_str() {
            Some(text) => Some(text.to_owned()),
            None => None,
        },
        None => None,
    }
}

/// Reads the author identifier from the search parameters of a page.
pub fn read_author_id(page: &Json) -> (author_id: Option<String>)
    ensures
        text_of(author_id) == author_id_of(page@),
{
    let place = Json::get_member(Json::get_member(Some(page), "search_parameters"), "author_id");
    match read_text_at(place) {
        Some(id) => if id.as_str().unicode_len() > 0 {
            Some(id)
        } else {
            None
        },
        None => None,
    }
}

/// Reads the cursor of a page.
pub fn decode_pagination(page: &Json) -> (cursor: Pagination)
    ensures
        cursor@ == pagination_of(page@),
{
    let block = Json::get_member(Some(page), "serpapi_pagination");
    Pagination {
        next: read_text_at(Json::get_member(block, "next")),
        current: read_text_at(Json::get_member(block, "current")),
        previous: read_text_at(Json::get_member(block, "previous")),
    }
}

/// Picks the aggregate that a page goes by.
pub fn pick_aggregate(policy: FieldPolicy, found: Option<u64>, fallback: u64) -> (aggregate: Option<
    u64,
>)
    ensures
        aggregate == aggregate_under(policy, found, fallback),
{
    match found {
        Some(total) => Some(total),
        None => match policy {
            FieldPolicy::Required => None,
            _ => Some(fallback),
        },
    }
}

/// Reads a page from a document, in the role `role`.
pub fn decode_page(page: &Json, role: PageRole) -> (outcome: Result<
    GoogleScholarResponse,
    ParseError,
>)
    ensures
        outcome_view(outcome) == page_of(page@, role),
{
    let block = Json::get_member(Some(page), "author");
    let author = match block {
        Some(json) => decode_author(json),
        None => decode_author(&Json::Null),
    };
    let author = match author {
        Some(a) => a,
        None => return Err(ParseError::Author),
    };
    let pagination = decode_pagination(page);
    let policy = role.aggregate_policy();
    let found = read_aggregate(page, 0, "citations");
    let citations: u64 = match pick_aggregate(policy, found, author.citations) {
        Some(total) => total,
        None => return Err(ParseError::MissingCitations),
    };
    let found = read_aggregate(page, 1, "h_index");
    let h_index: u64 = match pick_aggregate(policy, found, author.h_index) {
        Some(total) => total,
        None => return Err(ParseError::MissingHIndex),
    };
    let author_id = match read_author_id(page) {
        Some(id) => id,
        None => return Err(ParseError::MissingAuthorId),
    };
    let articles = match decode_articles(Json::get_member(Some(page), "articles")) {
        Ok(list) => list,
        Err(error) => return Err(error),
    };
    Ok(
        GoogleScholarResponse {
            author: Author {
                name: author.name,
                author_id,
                affiliation: author.affiliation,
                citations,
                h_index,
            },
            articles,
            pagination,
        },
    )
}

/// Reads a page from the text of a response body, in the role `role`.
pub fn parse_page(body: &str, role: PageRole) -> (outcome: Result<
    GoogleScholarResponse,
    ParseError,
>)
    ensures
        outcome_view(outcome) == match document_of(body@) {
            Some(document) => page_of(document, role),
            None => Err(ParseError::Syntax),
        },
{
    match Json::parse(body) {
        Ok(document) => decode_page(&document, role),
        Err(error) => Err(error),
    }
}

} // verus!
