//! One page of an author's record, and the snapshot that pages merge into.

use crate::error::MergeError;
use vstd::prelude::*;

verus! {

/// The text of an optional string.
pub open spec fn text_of(text: Option<String>) -> Option<Seq<char>> {
    match text {
        Some(s) => Some(s@),
        None => None,
    }
}

/// Copies an optional string.
pub fn copy_text(text: &Option<String>) -> (copy: Option<String>)
    ensures
        copy == *text,
{
    match text {
        Some(s) => Some(s.clone()),
        None => None,
    }
}

/// The links by which the service connects a page to its neighbours.
#[derive(Clone, Debug, PartialEq, Eq)]
pub struct Pagination {
    pub next: Option<String>,
    pub current: Option<String>,
    pub previous: Option<String>,
}

pub struct PaginationView {
    pub next: Option<Seq<char>>,
    pub current: Option<Seq<char>>,
    pub previous: Option<Seq<char>>,
}

impl View for Pagination {
    type V = PaginationView;

    open spec fn view(&self) -> PaginationView {
        PaginationView {
            next: text_of(self.next),
            current: text_of(self.current),
            previous: text_of(self.previous),
        }
    }
}

impl PaginationView {
    /// The cursor of a page that carries no pagination block.
    pub open spec fn none() -> PaginationView {
        PaginationView { next: None, current: None, previous: None }
    }
}

impl Pagination {
    /// The cursor of a page that carries no pagination block.
    pub fn none() -> (cursor: Pagination)
        ensures
            cursor@ == PaginationView::none(),
    {
        Pagination { next: None, current: None, previous: None }
    }

    /// Copies the cursor.
    pub fn duplicate(&self) -> (copy: Pagination)
        ensures
            copy == *self,
    {
        Pagination {
            next: copy_text(&self.next),
            current: copy_text(&self.current),
            previous: copy_text(&self.previous),
        }
    }
}

/// An author's profile. The identifier is the key by which pages are
/// recognised as belonging together.
#[derive(Clone, Debug, PartialEq, Eq)]
pub struct Author {
    pub name: String,
    pub author_id: String,
    pub affiliation: String,
    pub citations: u64,
    pub h_index: u64,
}

pub struct AuthorView {
    pub name: Seq<char>,
    pub author_id: Seq<char>,
    pub affiliation: Seq<char>,
    pub citations: u64,
    pub h_index: u64,
}

impl View for Author {
    type V = AuthorView;

    open spec fn view(&self) -> AuthorView {
        AuthorView {
            name: self.name@,
            author_id: self.author_id@,
            affiliation: self.affiliation@,
            citations: self.citations,
            h_index: self.h_index,
        }
    }
}

/// How often an article was cited, and where the citing works are listed.
#[derive(Clone, Debug, PartialEq, Eq)]
pub struct ArticlesCiteInfo {
    pub citations: Option<u64>,
    pub link: Option<String>,
}

pub struct CiteInfoView {
    pub citations: Option<u64>,
    pub link: Option<Seq<char>>,
}

impl View for ArticlesCiteInfo {
    type V = CiteInfoView;

    open spec fn view(&self) -> CiteInfoView {
        CiteInfoView { citations: self.citations, link: text_of(self.link) }
    }
}

/// One publication. A year of 0 stands for a year that the service left
/// empty.
#[derive(Clone, Debug, PartialEq, Eq)]
pub struct Article {
    pub title: String,
    pub link: String,
    pub authors: String,
    pub citation_id: String,
    pub year: u64,
    pub cited_by: Option<ArticlesCiteInfo>,
}

pub struct ArticleView {
    pub title: Seq<char>,
    pub link: Seq<char>,
    pub authors: Seq<char>,
    pub citation_id: Seq<char>,
    pub year: u64,
    pub cited_by: Option<CiteInfoView>,
}

impl View for Article {
    type V = ArticleView;

    open spec fn view(&self) -> ArticleView {
        ArticleView {
            title: self.title@,
            link: self.link@,
            authors: self.authors@,
            citation_id: self.citation_id@,
            year: self.year,
            cited_by: match self.cited_by {
                Some(info) => Some(info@),
                None => None,
            },
        }
    }
}

/// The views of a list of articles, in order.
pub open spec fn article_views(articles: Seq<Article>) -> Seq<ArticleView> {
    articles.map_values(|article: Article| article@)
}

/// One page as the service sent it, or the snapshot that several pages were
/// merged into: the author, the articles in the order in which they were
/// first seen, and the cursor of the page fetched last.
#[derive(Clone, Debug, PartialEq, Eq)]
pub struct GoogleScholarResponse {
    pub author: Author,
    pub articles: Vec<Article>,
    pub pagination: Pagination,
}

pub struct SnapshotView {
    pub author: AuthorView,
    pub articles: Seq<ArticleView>,
    pub pagination: PaginationView,
}

impl View for GoogleScholarResponse {
    type V = SnapshotView;

    open spec fn view(&self) -> SnapshotView {
        SnapshotView {
            author: self.author@,
            articles: article_views(self.articles@),
            pagination: self.pagination@,
        }
    }
}

impl SnapshotView {
    /// Whether two pages name the same author.
    pub open spec fn same_author(self, other: SnapshotView) -> bool {
        self.author.author_id == other.author.author_id
    }

    /// The snapshot after `incoming` was merged into it: the articles of
    /// `incoming` follow its own, and nothing else changes.
    pub open spec fn merged(self, incoming: SnapshotView) -> SnapshotView {
        SnapshotView { articles: self.articles + incoming.articles, ..self }
    }
}

impl GoogleScholarResponse {
    /// Whether both pages name the same author.
    pub fn check_if_author_equals(&self, another_response_result: &GoogleScholarResponse) -> (same:
        bool)
        ensures
            same == self@.same_author(another_response_result@),
    {
        self.author.author_id == another_response_result.author.author_id
    }

    /// Appends the articles of `another_response_result` to this snapshot.
    ///
    /// Pages of different authors are not merged: the call fails and the
    /// snapshot stays as it was. On success the author and the cursor stay
    /// as they were; nothing is deduplicated.
    pub fn merge_articles(&mut self, another_response_result: GoogleScholarResponse) -> (outcome:
        Result<(), MergeError>)
        ensures
            old(self)@.same_author(another_response_result@) ==> outcome is Ok && final(self)@
                == old(self)@.merged(another_response_result@) && final(self).author == old(
                self,
            ).author && final(self).pagination == old(self).pagination,
            !old(self)@.same_author(another_response_result@) ==> outcome == Err::<
                (),
                MergeError,
            >(MergeError::AuthorMismatch) && *final(self) == *old(self),
    {
        if !self.check_if_author_equals(&another_response_result) {
            return Err(MergeError::AuthorMismatch);
        }
        let mut incoming = another_response_result.articles;
        self.articles.append(&mut incoming);
        assert(article_views(self.articles@) == article_views(old(self).articles@) + article_views(
            another_response_result.articles@,
        ));
        Ok(())
    }
}

} // verus!
