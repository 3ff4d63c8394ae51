//! A shorter reading of one author page: the citation total and the list of
//! papers, straight from the document.

use crate::config::{ConfigView, FetchConfig};
use crate::json::{element, lemma_array_value, member, unsigned_at, Json, JsonValue};
use crate::model::text_of;
use crate::pager::{PageRequest, RequestView, GOOGLE_SCHOLAR_AUTHOR_ENDPOINT};
use vstd::prelude::*;

verus! {

/// Why an author page did not give what was asked of it.
#[derive(Clone, Copy, Debug, PartialEq, Eq, Structural)]
pub enum AuthorInfoError {
    /// The page has no `cited_by` member.
    NoCitedBy,
    /// The page has no `articles` member.
    NoArticles,
    /// A member that was looked for is missing further down, or is of the
    /// wrong type.
    Malformed,
}

impl AuthorInfoError {
    /// The text that describes the error.
    pub open spec fn message_text(self) -> Seq<char> {
        match self {
            AuthorInfoError::NoCitedBy => "No cited by field found in response."@,
            AuthorInfoError::NoArticles => "No paper found in response."@,
            AuthorInfoError::Malformed => "Unexpected shape of the response."@,
        }
    }

    /// Describes the error.
    pub fn message(&self) -> (text: String)
        ensures
            text@ == self.message_text(),
    {
        match self {
            AuthorInfoError::NoCitedBy => "No cited by field found in response.".to_owned(),
            AuthorInfoError::NoArticles => "No paper found in response.".to_owned(),
            AuthorInfoError::Malformed => "Unexpected shape of the response.".to_owned(),
        }
    }
}

/// The request for an author's page with twenty articles.
pub open spec fn author_page_request(config: ConfigView) -> RequestView {
    RequestView {
        url: GOOGLE_SCHOLAR_AUTHOR_ENDPOINT@,
        query: seq![
            ("engine"@, "google_scholar_author"@),
            ("author_id"@, config.author_id),
            ("serp_api_key"@, config.api_key),
            ("nums"@, "20"@),
        ],
    }
}

/// Builds the request for an author's page with twenty articles.
pub fn get_author_page(config: &FetchConfig) -> (request: PageRequest)
    ensures
        request@ == author_page_request(config@),
{
    let mut query: Vec<(String, String)> = Vec::new();
    query.push(("engine".to_owned(), "google_scholar_author".to_owned()));
    query.push(("author_id".to_owned(), config.author_id.clone()));
    query.push(("serp_api_key".to_owned(), config.api_key.clone()));
    query.push(("nums".to_owned(), "20".to_owned()));
    let request = PageRequest { url: GOOGLE_SCHOLAR_AUTHOR_ENDPOINT.to_owned(), query };
    assert(request@.query == author_page_request(config@).query);
    request
}

/// The citation total of an author page: what the first entry of the
/// aggregate table holds under `citations.all`.
pub open spec fn citation_num_of(author_info: JsonValue) -> Result<u64, AuthorInfoError> {
    match author_info.field("cited_by"@) {
        None => Err(AuthorInfoError::NoCitedBy),
        Some(cited_by) => {
            let entry = element(member(Some(cited_by), "table"@), 0);
            match unsigned_at(member(member(entry, "citations"@), "all"@)) {
                Some(total) => Ok(total),
                None => Err(AuthorInfoError::Malformed),
            }
        },
    }
}

/// Reads the citation total of an author page.
pub fn get_citation_num_from_author_info(author_info: &Json) -> (total: Result<
    u64,
    AuthorInfoError,
>)
    ensures
        total == citation_num_of(author_info@),
{
    match author_info.get("cited_by") {
        None => Err(AuthorInfoError::NoCitedBy),
        Some(cited_by) => {
            let entry = Json::get_element(Json::get_member(Some(cited_by), "table"), 0);
            let place = Json::get_member(Json::get_member(entry, "citations"), "all");
            match place {
                Some(value) => match value.as_u64() {
                    Some(total) => Ok(total),
                    None => Err(AuthorInfoError::Malformed),
                },
                None => Err(AuthorInfoError::Malformed),
            }
        },
    }
}

/// A paper as the paper list shows it.
#[derive(Clone, Debug, PartialEq, Eq)]
pub struct PaperInfo {
    pub title: String,
    pub num_citations: u16,
    pub cited_link: Option<String>,
}

pub struct PaperView {
    pub title: Seq<char>,
    pub num_citations: u16,
    pub cited_link: Option<Seq<char>>,
}

impl View for PaperInfo {
    type V = PaperView;

    open spec fn view(&self) -> PaperView {
        PaperView {
            title: self.title@,
            num_citations: self.num_citations,
            cited_link: text_of(self.cited_link),
        }
    }
}

/// The views of a list of papers.
pub open spec fn paper_views(papers: Seq<PaperInfo>) -> Seq<PaperView> {
    papers.map_values(|paper: PaperInfo| paper@)
}

/// The citation count that a paper shows: the low sixteen bits of the count
/// in its citation record, and 0 where there is no record, no count, or a
/// count that is not a non-negative integer.
pub open spec fn shown_citations(paper: JsonValue) -> u16 {
    match unsigned_at(member(paper.field("cited_by"@), "value"@)) {
        Some(count) => (count % 0x1_0000) as u16,
        None => 0,
    }
}

/// The link to the citing works of a paper: `Some(None)` where the paper has
/// no citation record or the record has no link, `None` where the link is
/// not a string.
pub open spec fn shown_link(paper: JsonValue) -> Option<Option<Seq<char>>> {
    match member(paper.field("cited_by"@), "serpapi_link"@) {
        None => Some(None),
        Some(link) => match link.as_text() {
            Some(text) => Some(Some(text)),
            None => None,
        },
    }
}

/// The paper that one element of the article list shows, if its title is a
/// string and its link, where it has one, is too.
pub open spec fn paper_of(paper: JsonValue) -> Option<PaperView> {
    match (paper.field_or_null("title"@).as_text(), shown_link(paper)) {
        (Some(title), Some(cited_link)) => Some(
            PaperView { title, num_citations: shown_citations(paper), cited_link },
        ),
        _ => None,
    }
}

/// The first `n` papers of `items`, if each of them can be shown.
pub open spec fn papers_upto(items: Seq<JsonValue>, n: int) -> Option<Seq<PaperView>>
    decreases n,
{
    if n <= 0 {
        Some(Seq::empty())
    } else {
        match (papers_upto(items, n - 1), paper_of(items[n - 1])) {
            (Some(papers), Some(paper)) => Some(papers.push(paper)),
            _ => None,
        }
    }
}

/// The paper list of an author page.
pub open spec fn paper_list_of(author_info: JsonValue) -> Result<Seq<PaperView>, AuthorInfoError> {
    match author_info.field("articles"@) {
        None => Err(AuthorInfoError::NoArticles),
        Some(JsonValue::Array(items)) => match papers_upto(items, items.len() as int) {
            Some(papers) => Ok(papers),
            None => Err(AuthorInfoError::Malformed),
        },
        Some(_) => Err(AuthorInfoError::Malformed),
    }
}

/// Once a paper cannot be shown, no longer list can.
pub proof fn lemma_unshown_paper_stands(items: Seq<JsonValue>, k: int, n: int)
    requires
        0 <= k <= n,
        papers_upto(items, k) is None,
    ensures
        papers_upto(items, n) is None,
    decreases n - k,
{
    if k < n {
        lemma_unshown_paper_stands(items, k, n - 1);
    }
}

/// Reads one paper from an element of the article list.
pub fn read_paper(paper: &Json) -> (shown: Option<PaperInfo>)
    ensures
        match shown {
            Some(p) => paper_of(paper@) == Some(p@),
            None => paper_of(paper@) is None,
        },
{
    let title = match paper.get("title") {
        Some(value) => match value.as_str() {
            Some(text) => text.to_owned(),
            None => return None,
        },
        None => return None,
    };
    let record = paper.get("cited_by");
    let num_citations: u16 = match Json::get_member(record, "value") {
        Some(value) => match value.as_u64() {
            Some(count) => (count % 0x1_0000) as u16,
            None => 0,
        },
        None => 0,
    };
    let cited_link = match Json::get_member(record, "serpapi_link") {
        None => None,
        Some(link) => match link.as_str() {
            Some(text) => Some(text.to_owned()),
            None => return None,
        },
    };
    Some(PaperInfo { title, num_citations, cited_link })
}

/// Reads the paper list of an author page.
pub fn get_paper_list_from_author_info(author_info: &Json) -> (papers: Result<
    Vec<PaperInfo>,
    AuthorInfoError,
>)
    ensures
        match papers {
            Ok(list) => paper_list_of(author_info@) == Ok::<Seq<PaperView>, AuthorInfoError>(
                paper_views(list@),
            ),
            Err(error) => paper_list_of(author_info@) == Err::<Seq<PaperView>, AuthorInfoError>(
                error,
            ),
        },
{
    match author_info.get("articles") {
        None => Err(AuthorInfoError::NoArticles),
        Some(Json::Array(items)) => {
            proof {
                lemma_array_value(*items);
            }
            let ghost values = Json::Array(*items)@->Array_0;
            let mut paper_list: Vec<PaperInfo> = Vec::new();
            let mut i: usize = 0;
            assert(paper_views(paper_list@) == Seq::<PaperView>::empty());
            while i < items.len()
                invariant
                    i <= items.len(),
                    author_info@.field("articles"@) == Some(JsonValue::Array(values)),
                    values.len() == items.len(),
                    forall|j: int| 0 <= j < items.len() ==> values[j] == items[j]@,
                    papers_upto(values, i as int) == Some(paper_views(paper_list@)),
                decreases items.len() - i,
            {
                match read_paper(&items[i]) {
                    Some(paper) => {
                        assert(paper_views(paper_list@.push(paper)) == paper_views(
                            paper_list@,
                        ).push(paper@));
                        paper_list.push(paper);
                    },
                    None => {
                        proof {
                            lemma_unshown_paper_stands(values, i + 1, values.len() as int);
                        }
                        return Err(AuthorInfoError::Malformed);
                    },
                }
                i = i + 1;
            }
            Ok(paper_list)
        },
        Some(_) => Err(AuthorInfoError::Malformed),
    }
}

} // verus!
