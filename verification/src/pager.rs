//! The decisions of a fetch: which request opens it, what a response leads
//! to, and when it ends.
//!
//! A session never sends anything. It names the next request; the caller
//! sends it and hands the response back. Pages are fetched one after the
//! other, since only a page says where the next one is.

use crate::config::{ConfigView, FetchConfig};
use crate::decode::{outcome_view, page_of, parse_page, PageRole};
use crate::error::{FetchError, FetchErrorView, MergeError, ParseError};
use crate::json::document_of;
use crate::model::{copy_text, GoogleScholarResponse, SnapshotView};
use vstd::prelude::*;

verus! {

/// The address that the first request of a fetch goes to.
pub const GOOGLE_SCHOLAR_AUTHOR_ENDPOINT: &'static str = "https://serpapi.com/search";

/// How many pages a fetch may ask for.
///
/// The first page is always asked for, so `Count(0)` and `Count(1)` both end
/// a fetch after one page.
#[derive(Clone, Copy, Debug, PartialEq, Eq, Structural)]
pub enum PageBound {
    /// As many as the service links together.
    Unbounded,
    /// At most this many.
    Count(u64),
}

impl PageBound {
    /// The bound that a page count on the command line stands for: `-1` is
    /// no bound, and any other negative count is a bound of 0.
    pub open spec fn of_pages(pages: i16) -> PageBound {
        if pages == -1 {
            PageBound::Unbounded
        } else if pages < 0 {
            PageBound::Count(0)
        } else {
            PageBound::Count(pages as u64)
        }
    }

    /// Whether one more page may be asked for.
    pub open spec fn allows_request(self) -> bool {
        match self {
            PageBound::Unbounded => true,
            PageBound::Count(n) => n > 0,
        }
    }

    /// What is left of the bound once one more page was asked for.
    pub open spec fn after_request(self) -> PageBound {
        match self {
            PageBound::Unbounded => PageBound::Unbounded,
            PageBound::Count(n) => PageBound::Count(
                if n > 0 {
                    (n - 1) as u64
                } else {
                    0
                },
            ),
        }
    }

    /// Reads a bound from a page count on the command line.
    pub fn from_pages(pages: i16) -> (bound: PageBound)
        ensures
            bound == PageBound::of_pages(pages),
    {
        if pages == -1 {
            PageBound::Unbounded
        } else if pages < 0 {
            PageBound::Count(0)
        } else {
            PageBound::Count(pages as u64)
        }
    }

    /// Whether one more page may be asked for.
    pub fn permits(&self) -> (allowed: bool)
        ensures
            allowed == self.allows_request(),
    {
        match self {
            PageBound::Unbounded => true,
            PageBound::Count(n) => *n > 0,
        }
    }

    /// Takes one page off the bound.
    pub fn spend(&self) -> (left: PageBound)
        ensures
            left == self.after_request(),
    {
        match self {
            PageBound::Unbounded => PageBound::Unbounded,
            PageBound::Count(n) => PageBound::Count(
                if *n > 0 {
                    *n - 1
                } else {
                    0
                },
            ),
        }
    }
}

/// A request for one page: an address and the query parameters to send
/// with it, in order.
#[derive(Clone, Debug, PartialEq, Eq)]
pub struct PageRequest {
    pub url: String,
    pub query: Vec<(String, String)>,
}

pub struct RequestView {
    pub url: Seq<char>,
    pub query: Seq<(Seq<char>, Seq<char>)>,
}

impl View for PageRequest {
    type V = RequestView;

    open spec fn view(&self) -> RequestView {
        RequestView {
            url: self.url@,
            query: self.query@.map_values(|pair: (String, String)| (pair.0@, pair.1@)),
        }
    }
}

/// The request that opens a fetch.
pub open spec fn first_request(config: ConfigView) -> RequestView {
    RequestView {
        url: GOOGLE_SCHOLAR_AUTHOR_ENDPOINT@,
        query: seq![
            ("engine"@, "google_scholar_author"@),
            ("author_id"@, config.author_id),
            ("api_key"@, config.api_key),
            ("sort"@, "pubdate"@),
        ],
    }
}

/// The request for the page that a cursor links to. The link says which page
/// is meant; only the credential and the sort order go with it.
pub open spec fn next_request(url: Seq<char>, api_key: Seq<char>) -> RequestView {
    RequestView { url, query: seq![("api_key"@, api_key), ("sort"@, "pubdate"@)] }
}

impl PageRequest {
    /// Builds the request that opens a fetch.
    pub fn first(config: &FetchConfig) -> (request: PageRequest)
        ensures
            request@ == first_request(config@),
    {
        let mut query: Vec<(String, String)> = Vec::new();
        query.push(("engine".to_owned(), "google_scholar_author".to_owned()));
        query.push(("author_id".to_owned(), config.author_id.clone()));
        query.push(("api_key".to_owned(), config.api_key.clone()));
        query.push(("sort".to_owned(), "pubdate".to_owned()));
        let request = PageRequest { url: GOOGLE_SCHOLAR_AUTHOR_ENDPOINT.to_owned(), query };
        assert(request@.query == first_request(config@).query);
        request
    }

    /// Builds the request for the page that a cursor links to.
    pub fn next(url: String, api_key: &String) -> (request: PageRequest)
        ensures
            request@ == next_request(url@, api_key@),
    {
        let mut query: Vec<(String, String)> = Vec::new();
        query.push(("api_key".to_owned(), api_key.clone()));
        query.push(("sort".to_owned(), "pubdate".to_owned()));
        let request = PageRequest { url, query };
        assert(request@.query == next_request(url@, api_key@).query);
        request
    }
}

/// A fetch between two requests: the credential, what is left of the bound,
/// and the pages merged so far.
#[derive(Clone, Debug, PartialEq, Eq)]
pub struct FetchSession {
    pub api_key: String,
    /// How many more pages may be asked for.
    pub remaining: PageBound,
    /// The merge of the pages absorbed so far; `None` until the first page
    /// is in.
    pub snapshot: Option<GoogleScholarResponse>,
}

pub struct SessionView {
    pub api_key: Seq<char>,
    pub remaining: PageBound,
    pub snapshot: Option<SnapshotView>,
}

impl View for FetchSession {
    type V = SessionView;

    open spec fn view(&self) -> SessionView {
        SessionView {
            api_key: self.api_key@,
            remaining: self.remaining,
            snapshot: match self.snapshot {
                Some(snapshot) => Some(snapshot@),
                None => None,
            },
        }
    }
}

/// What a response led to.
#[derive(Clone, Debug, PartialEq, Eq)]
pub enum FetchStep {
    /// Another page is wanted: send the request and hand the response to the
    /// session.
    Continue(FetchSession, PageRequest),
    /// The fetch is complete.
    Done(GoogleScholarResponse),
    /// The fetch failed; what was merged so far is gone.
    Failed(FetchError),
}

pub enum StepView {
    Continue(SessionView, RequestView),
    Done(SnapshotView),
    Failed(FetchErrorView),
}

impl View for FetchStep {
    type V = StepView;

    open spec fn view(&self) -> StepView {
        match self {
            FetchStep::Continue(session, request) => StepView::Continue(session@, request@),
            FetchStep::Done(snapshot) => StepView::Done(snapshot@),
            FetchStep::Failed(error) => StepView::Failed(error@),
        }
    }
}

/// What came back for a request.
#[derive(Clone, Debug, PartialEq, Eq)]
pub enum FetchEvent {
    /// A response with a success status, and its body.
    Body(String),
    /// No response, or one with a failure status; the text says which.
    TransportFailure(String),
}

pub enum EventView {
    Body(Seq<char>),
    TransportFailure(Seq<char>),
}

impl View for FetchEvent {
    type V = EventView;

    open spec fn view(&self) -> EventView {
        match self {
            FetchEvent::Body(text) => EventView::Body(text@),
            FetchEvent::TransportFailure(text) => EventView::TransportFailure(text@),
        }
    }
}

/// The session of a fetch whose first request is on its way.
pub open spec fn started(api_key: Seq<char>, bound: PageBound) -> SessionView {
    SessionView { api_key, remaining: bound.after_request(), snapshot: None }
}

/// The snapshot after `page` came in: the first page is the snapshot; a later
/// page of the same author adds its articles and brings the cursor. `None`
/// where the page is another author's.
pub open spec fn merged_into(snapshot: Option<SnapshotView>, page: SnapshotView) -> Option<
    SnapshotView,
> {
    match snapshot {
        None => Some(page),
        Some(so_far) => if so_far.same_author(page) {
            Some(SnapshotView { pagination: page.pagination, ..so_far.merged(page) })
        } else {
            None
        },
    }
}

/// The role in which the next response of a session is read.
pub open spec fn role_of(session: SessionView) -> PageRole {
    if session.snapshot is None {
        PageRole::First
    } else {
        PageRole::Following
    }
}

/// What the outcome of reading a response leads to.
///
/// A page that was not accepted fails the fetch, and so does a page of
/// another author. Else the page is merged, and the fetch goes on if the
/// page links to a next one and the bound allows another request; if not,
/// it is complete.
pub open spec fn absorbed(session: SessionView, page: Result<SnapshotView, ParseError>) -> StepView {
    match page {
        Err(error) => StepView::Failed(FetchErrorView::Parse(error)),
        Ok(page) => match merged_into(session.snapshot, page) {
            None => StepView::Failed(FetchErrorView::Merge(MergeError::AuthorMismatch)),
            Some(snapshot) => match page.pagination.next {
                Some(url) => if session.remaining.allows_request() {
                    StepView::Continue(
                        SessionView {
                            api_key: session.api_key,
                            remaining: session.remaining.after_request(),
                            snapshot: Some(snapshot),
                        },
                        next_request(url, session.api_key),
                    )
                } else {
                    StepView::Done(snapshot)
                },
                None => StepView::Done(snapshot),
            },
        },
    }
}

/// The page that a response body is read as, in the role `role`.
pub open spec fn page_in(body: Seq<char>, role: PageRole) -> Result<SnapshotView, ParseError> {
    match document_of(body) {
        Some(document) => page_of(document, role),
        None => Err(ParseError::Syntax),
    }
}

/// What an event leads to.
pub open spec fn stepped(session: SessionView, event: EventView) -> StepView {
    match event {
        EventView::Body(body) => absorbed(session, page_in(body, role_of(session))),
        EventView::TransportFailure(text) => StepView::Failed(FetchErrorView::Transport(text)),
    }
}

impl FetchSession {
    /// Opens a fetch: the session, and the request to send first.
    pub fn start(config: FetchConfig, bound: PageBound) -> (opened: (FetchSession, PageRequest))
        ensures
            opened.0@ == started(config@.api_key, bound),
            opened.1@ == first_request(config@),
    {
        let request = PageRequest::first(&config);
        (FetchSession { api_key: config.api_key, remaining: bound.spend(), snapshot: None }, request)
    }

    /// The role in which the next response is read.
    pub fn role(&self) -> (role: PageRole)
        ensures
            role == role_of(self@),
    {
        match self.snapshot {
            None => PageRole::First,
            Some(_) => PageRole::Following,
        }
    }

    /// Takes in the outcome of reading a response.
    pub fn absorb(self, page: Result<GoogleScholarResponse, ParseError>) -> (step: FetchStep)
        ensures
            step@ == absorbed(self@, outcome_view(page)),
    {
        let page = match page {
            Ok(page) => page,
            Err(error) => return FetchStep::Failed(FetchError::Parse(error)),
        };
        let FetchSession { api_key, remaining, snapshot } = self;
        let next = copy_text(&page.pagination.next);
        let snapshot = match snapshot {
            None => page,
            Some(mut so_far) => {
                let cursor = page.pagination.duplicate();
                match so_far.merge_articles(page) {
                    Ok(()) => {},
                    Err(error) => return FetchStep::Failed(FetchError::Merge(error)),
                }
                so_far.pagination = cursor;
                so_far
            },
        };
        match next {
            Some(url) => if remaining.permits() {
                let request = PageRequest::next(url, &api_key);
                FetchStep::Continue(
                    FetchSession { api_key, remaining: remaining.spend(), snapshot: Some(snapshot) },
                    request,
                )
            } else {
                FetchStep::Done(snapshot)
            },
            None => FetchStep::Done(snapshot),
        }
    }

    /// Takes in what came back for the request that the session asked for.
    pub fn step(self, event: FetchEvent) -> (step: FetchStep)
        ensures
            step@ == stepped(self@, event@),
    {
        match event {
            FetchEvent::Body(body) => {
                let page = parse_page(body.as_str(), self.role());
                self.absorb(page)
            },
            FetchEvent::TransportFailure(text) => FetchStep::Failed(FetchError::Transport(text)),
        }
    }
}

} // verus!
