//! A fetch against a given upstream: how many requests it makes and what it
//! ends with, for every upstream and every bound.

use crate::config::FetchConfig;
use crate::decode::{parse_page, PageRole};
use crate::error::{FetchError, FetchErrorView, ParseError};
use crate::model::{ArticleView, GoogleScholarResponse, SnapshotView};
use crate::pager::{
    absorbed, merged_into, page_in, role_of, started, FetchSession, FetchStep, PageBound,
    SessionView, StepView,
};
use vstd::prelude::*;

verus! {

/// How a fetch went: the number of requests that were answered, and the
/// end it came to. The end is `None` where the upstream ran out of answers
/// while the fetch still asked for pages.
pub struct RunView {
    pub requests: nat,
    pub outcome: Option<Result<SnapshotView, FetchErrorView>>,
}

/// The run of `session` against `upstream`, whose element `i` is what the
/// answer to the request `i` from now is read as.
pub open spec fn run(session: SessionView, upstream: Seq<Result<SnapshotView, ParseError>>) -> RunView
    decreases upstream.len(),
{
    if upstream.len() == 0 {
        RunView { requests: 0, outcome: None }
    } else {
        match absorbed(session, upstream[0]) {
            StepView::Continue(next, _) => {
                let rest = run(next, upstream.drop_first());
                RunView { requests: rest.requests + 1, outcome: rest.outcome }
            },
            StepView::Done(snapshot) => RunView { requests: 1, outcome: Some(Ok(snapshot)) },
            StepView::Failed(error) => RunView { requests: 1, outcome: Some(Err(error)) },
        }
    }
}

/// The run of a new fetch against `upstream`.
pub open spec fn fetch(
    api_key: Seq<char>,
    bound: PageBound,
    upstream: Seq<Result<SnapshotView, ParseError>>,
) -> RunView {
    run(started(api_key, bound), upstream)
}

/// What the bodies of a recorded run of answers are read as: the first in the
/// role of a first page, the others as following pages.
pub open spec fn answers(bodies: Seq<Seq<char>>) -> Seq<Result<SnapshotView, ParseError>> {
    Seq::new(
        bodies.len(),
        |i: int|
            page_in(
                bodies[i],
                if i == 0 {
                    PageRole::First
                } else {
                    PageRole::Following
                },
            ),
    )
}

/// The texts of a list of bodies.
pub open spec fn body_views(bodies: Seq<String>) -> Seq<Seq<char>> {
    bodies.map_values(|body: String| body@)
}

/// How a replayed fetch went.
#[derive(Debug, PartialEq, Eq)]
pub struct Replay {
    /// The number of bodies that were read.
    pub requests: usize,
    /// The end that the fetch came to; `None` where the bodies ran out while
    /// the fetch still asked for pages.
    pub outcome: Option<Result<GoogleScholarResponse, FetchError>>,
}

impl View for Replay {
    type V = RunView;

    open spec fn view(&self) -> RunView {
        RunView {
            requests: self.requests as nat,
            outcome: match self.outcome {
                Some(Ok(snapshot)) => Some(Ok(snapshot@)),
                Some(Err(error)) => Some(Err(error@)),
                None => None,
            },
        }
    }
}

/// Runs a fetch against recorded answers: body `i` is taken as the answer to
/// request `i`. Nothing is sent.
pub fn replay(config: FetchConfig, bound: PageBound, bodies: &Vec<String>) -> (replay: Replay)
    ensures
        replay@ == fetch(config@.api_key, bound, answers(body_views(bodies@))),
{
    let ghost upstream = answers(body_views(bodies@));
    let ghost api_key = config@.api_key;
    let ghost whole = fetch(api_key, bound, upstream);
    let opened = FetchSession::start(config, bound);
    let mut session = opened.0;
    let mut i: usize = 0;
    assert(upstream.skip(0) == upstream);
    loop
        invariant
            i <= bodies.len(),
            upstream == answers(body_views(bodies@)),
            whole == fetch(api_key, bound, upstream),
            api_key == config@.api_key,
            (i == 0) == (session@.snapshot is None),
            whole.requests == i + run(session@, upstream.skip(i as int)).requests,
            whole.outcome == run(session@, upstream.skip(i as int)).outcome,
        decreases bodies.len() - i,
    {
        if i == bodies.len() {
            return Replay { requests: i, outcome: None };
        }
        let ghost rest = upstream.skip(i as int);
        assert(rest[0] == page_in(bodies[i as int]@, role_of(session@)));
        assert(rest.drop_first() == upstream.skip(i + 1));
        let page = parse_page(bodies[i].as_str(), session.role());
        match session.absorb(page) {
            FetchStep::Continue(next, _) => {
                session = next;
                i = i + 1;
            },
            FetchStep::Done(snapshot) => {
                return Replay { requests: i + 1, outcome: Some(Ok(snapshot)) };
            },
            FetchStep::Failed(error) => {
                return Replay { requests: i + 1, outcome: Some(Err(error)) };
            },
        }
    }
}

/// An upstream that answers with these pages, each of them accepted.
pub open spec fn served(pages: Seq<SnapshotView>) -> Seq<Result<SnapshotView, ParseError>> {
    pages.map_values(|page: SnapshotView| Ok::<SnapshotView, ParseError>(page))
}

/// The articles of all the pages, in order.
pub open spec fn all_articles(pages: Seq<SnapshotView>) -> Seq<ArticleView>
    decreases pages.len(),
{
    if pages.len() == 0 {
        Seq::empty()
    } else {
        pages[0].articles + all_articles(pages.drop_first())
    }
}

/// Whether the first `n` pages all name the author `author_id`.
pub open spec fn all_of_author(pages: Seq<SnapshotView>, n: int, author_id: Seq<char>) -> bool {
    forall|i: int| 0 <= i < n ==> (#[trigger] pages[i]).author.author_id == author_id
}

/// Whether each of the first `n` pages links to a next one.
pub open spec fn all_linked(pages: Seq<SnapshotView>, n: int) -> bool {
    forall|i: int| 0 <= i < n ==> (#[trigger] pages[i]).pagination.next is Some
}

/// The snapshot that the merge of the first `n` pages into `so_far` gives.
pub open spec fn merge_of(so_far: Option<SnapshotView>, pages: Seq<SnapshotView>, n: int) -> SnapshotView {
    match so_far {
        Some(snapshot) => SnapshotView {
            author: snapshot.author,
            articles: snapshot.articles + all_articles(pages.take(n)),
            pagination: pages[n - 1].pagination,
        },
        None => SnapshotView {
            author: pages[0].author,
            articles: all_articles(pages.take(n)),
            pagination: pages[n - 1].pagination,
        },
    }
}

/// A session that is served pages of its author, each linked to the next,
/// makes `k` requests and ends with their merge, where `k` is the number of
/// pages that the bound still allows or the position of the first page that
/// links no further, whichever comes first.
proof fn lemma_run_ends(session: SessionView, pages: Seq<SnapshotView>, k: int)
    requires
        1 <= k <= pages.len(),
        all_of_author(
            pages,
            k,
            match session.snapshot {
                Some(snapshot) => snapshot.author.author_id,
                None => pages[0].author.author_id,
            },
        ),
        all_linked(pages, k - 1),
        session.remaining matches PageBound::Count(left) ==> left >= k - 1,
        pages[k - 1].pagination.next is None || session.remaining == PageBound::Count(
            (k - 1) as u64,
        ),
    ensures
        run(session, served(pages)) == (RunView {
            requests: k as nat,
            outcome: Some(Ok(merge_of(session.snapshot, pages, k))),
        }),
    decreases k,
{
    let upstream = served(pages);
    let first = pages[0];
    assert(upstream[0] == Ok::<SnapshotView, ParseError>(first));
    let merged = merged_into(session.snapshot, first)->0;
    assert(pages.take(k).drop_first() == pages.drop_first().take(k - 1));
    assert(pages.take(k)[0] == first);
    if k == 1 {
        assert(all_articles(pages.drop_first().take(0)) == Seq::<ArticleView>::empty());
        assert(first.articles + Seq::<ArticleView>::empty() == first.articles);
        assert(all_articles(pages.take(1)) == first.articles);
        assert(merged == merge_of(session.snapshot, pages, 1));
    } else {
        let rest = pages.drop_first();
        let next = SessionView {
            api_key: session.api_key,
            remaining: session.remaining.after_request(),
            snapshot: Some(merged),
        };
        assert(absorbed(session, upstream[0]) is Continue);
        assert(absorbed(session, upstream[0])->Continue_0 == next);
        assert(upstream.drop_first() == served(rest));
        assert forall|i: int| 0 <= i < k - 1 implies (#[trigger] rest[i]).author.author_id
            == merged.author.author_id by {
            assert(rest[i] == pages[i + 1]);
            assert(pages[0].author.author_id == merged.author.author_id);
        }
        assert forall|i: int| 0 <= i < k - 2 implies (#[trigger] rest[i]).pagination.next is Some by {
            assert(rest[i] == pages[i + 1]);
        }
        assert(rest[k - 2] == pages[k - 1]);
        lemma_run_ends(next, rest, k - 1);
        let all = all_articles(rest.take(k - 1));
        match session.snapshot {
            Some(snapshot) => {
                assert((snapshot.articles + first.articles) + all == snapshot.articles + (
                first.articles + all));
            },
            None => {},
        }
        assert(merge_of(Some(merged), rest, k - 1) == merge_of(session.snapshot, pages, k));
    }
}

/// A fetch bounded by `n` pages, served pages of one author that always
/// link to a next one, makes exactly `n` requests and ends with the articles
/// of exactly the first `n` pages, in order, under the author of the first.
pub proof fn law_bounded_fetch_makes_n_requests(
    api_key: Seq<char>,
    n: u64,
    pages: Seq<SnapshotView>,
)
    requires
        1 <= n <= pages.len(),
        all_linked(pages, n as int),
        all_of_author(pages, n as int, pages[0].author.author_id),
    ensures
        fetch(api_key, PageBound::Count(n), served(pages)) == (RunView {
            requests: n as nat,
            outcome: Some(
                Ok(
                    SnapshotView {
                        author: pages[0].author,
                        articles: all_articles(pages.take(n as int)),
                        pagination: pages[n - 1].pagination,
                    },
                ),
            ),
        }),
{
    lemma_run_ends(started(api_key, PageBound::Count(n)), pages, n as int);
}

/// A fetch ends with the first page that links no further, where the bound
/// lets it come that far: served pages of one author of which page `k` is
/// the first without a next link, an unbounded fetch, or one bounded by `k`
/// pages or more, makes exactly `k` requests and ends with the articles of
/// those `k` pages.
pub proof fn law_fetch_ends_where_links_end(
    api_key: Seq<char>,
    bound: PageBound,
    pages: Seq<SnapshotView>,
    k: int,
)
    requires
        1 <= k <= pages.len(),
        all_linked(pages, k - 1),
        pages[k - 1].pagination.next is None,
        all_of_author(pages, k, pages[0].author.author_id),
        bound matches PageBound::Count(n) ==> n >= k,
    ensures
        fetch(api_key, bound, served(pages)) == (RunView {
            requests: k as nat,
            outcome: Some(
                Ok(
                    SnapshotView {
                        author: pages[0].author,
                        articles: all_articles(pages.take(k)),
                        pagination: pages[k - 1].pagination,
                    },
                ),
            ),
        }),
{
    lemma_run_ends(started(api_key, bound), pages, k);
}

/// A bound of 0 still lets the first page in: the fetch makes one request
/// and ends with that page.
pub proof fn law_bound_of_zero_fetches_first_page(api_key: Seq<char>, pages: Seq<SnapshotView>)
    requires
        pages.len() >= 1,
    ensures
        fetch(api_key, PageBound::Count(0), served(pages)) == (RunView {
            requests: 1,
            outcome: Some(Ok(pages[0])),
        }),
{
    lemma_run_ends(started(api_key, PageBound::Count(0)), pages, 1);
    assert(all_articles(pages.take(1).drop_first()) == Seq::<ArticleView>::empty());
    assert(pages.take(1)[0] == pages[0]);
    assert(pages[0].articles + Seq::<ArticleView>::empty() == pages[0].articles);
    assert(all_articles(pages.take(1)) == pages[0].articles);
}

/// A page that links to no next page ends the fetch, whatever the bound: the
/// session never asks for another.
pub proof fn law_page_without_next_ends_fetch(session: SessionView, page: SnapshotView)
    requires
        page.pagination.next is None,
    ensures
        !(absorbed(session, Ok(page)) is Continue),
        session.snapshot is None ==> absorbed(session, Ok(page)) == StepView::Done(page),
{
}

/// A first page that is not accepted fails the fetch after one request: no
/// second request is made.
pub proof fn law_rejected_first_page_fails_fetch(
    api_key: Seq<char>,
    bound: PageBound,
    upstream: Seq<Result<SnapshotView, ParseError>>,
)
    requires
        upstream.len() >= 1,
        upstream[0] is Err,
    ensures
        fetch(api_key, bound, upstream) == (RunView {
            requests: 1,
            outcome: Some(Err(FetchErrorView::Parse(upstream[0]->Err_0))),
        }),
{
}

/// A page of another author fails the fetch and is the last one asked for.
pub proof fn law_foreign_page_fails_fetch(session: SessionView, page: SnapshotView)
    requires
        session.snapshot matches Some(snapshot) && !snapshot.same_author(page),
    ensures
        absorbed(session, Ok(page)) == StepView::Failed(
            FetchErrorView::Merge(crate::error::MergeError::AuthorMismatch),
        ),
{
}

} // verus!
