//! The decisions of a search that runs over all pages of a query.
//!
//! A [`Pager`] does no fetching. It says which page to ask for next, takes
//! what that page gave, and decides whether the search goes on: the caller
//! fetches one page at a time and hands each body back.

use crate::listing::{listing_of_page, parce_news};
use crate::news::{news_views, ExtractError, News, NewsView};
use crate::query::{search_url, search_url_text, SortType};
use vstd::prelude::*;

verus! {

/// The state of a search, by its contents.
pub struct PagerView {
    /// The text searched for.
    pub query: Seq<char>,
    /// The order asked for, the same for every page.
    pub sort: SortType,
    /// While the search runs, the number of the page it waits for; once it
    /// has ended, the number of the last page it took.
    pub page: nat,
    /// The records gathered so far, page after page.
    pub news: Seq<NewsView>,
    /// Whether the search has ended.
    pub finished: bool,
}

impl PagerView {
    /// The state of a search before its first page.
    pub open spec fn start(query: Seq<char>, sort: SortType) -> PagerView {
        PagerView { query, sort, page: 1, news: Seq::empty(), finished: false }
    }

    /// The number of pages that the search has taken in so far, which is
    /// the number of fetches that were needed for them.
    pub open spec fn fetches(self) -> int {
        if self.finished {
            self.page as int
        } else {
            self.page - 1
        }
    }

    /// The address of the page that the search waits for, if it has not
    /// ended.
    pub open spec fn request(self) -> Option<Seq<char>> {
        if self.finished {
            None
        } else {
            Some(search_url_text(self.query, self.sort, self.page))
        }
    }

    /// The state after the records of the awaited page have come in. An
    /// empty page ends the search. Any other page is added to the records,
    /// and the search goes on with the next page, unless the page counter
    /// has no next value. A search that has ended takes nothing more.
    pub open spec fn absorb(self, records: Seq<NewsView>) -> PagerView {
        if self.finished {
            self
        } else if records.len() == 0 {
            PagerView { finished: true, ..self }
        } else if self.page >= u64::MAX {
            PagerView { news: self.news + records, finished: true, ..self }
        } else {
            PagerView { news: self.news + records, page: self.page + 1, ..self }
        }
    }

    /// What a search answers to the body of the awaited page: the error of
    /// the extraction, if it fails. A search that has ended does not look
    /// at the body.
    pub open spec fn outcome_of_page(self, html: Seq<char>) -> Result<(), ExtractError> {
        if self.finished {
            Ok(())
        } else {
            match listing_of_page(html) {
                Ok(_) => Ok(()),
                Err(e) => Err(e),
            }
        }
    }

    /// The state after the body of the awaited page has come in: the
    /// records of the page are taken in, and a body that gives no listing
    /// leaves the state as it is.
    pub open spec fn absorb_page(self, html: Seq<char>) -> PagerView {
        if self.finished {
            self
        } else {
            match listing_of_page(html) {
                Ok(records) => self.absorb(records),
                Err(_) => self,
            }
        }
    }

    /// The state after a run of pages has come in, one after the other.
    pub open spec fn feed(self, pages: Seq<Seq<NewsView>>) -> PagerView
        decreases pages.len(),
    {
        if pages.len() == 0 {
            self
        } else {
            self.feed(pages.drop_last()).absorb(pages.last())
        }
    }
}

/// The records of a run of pages, page after page.
pub open spec fn concat_pages(pages: Seq<Seq<NewsView>>) -> Seq<NewsView>
    decreases pages.len(),
{
    if pages.len() == 0 {
        Seq::empty()
    } else {
        concat_pages(pages.drop_last()) + pages.last()
    }
}

/// While no empty page has come in, and the page counter has room, a
/// search that has taken `n` pages holds their records in order, waits for
/// page `n + 1`, and has not ended.
pub proof fn search_goes_on_while_pages_give_records(
    query: Seq<char>,
    sort: SortType,
    pages: Seq<Seq<NewsView>>,
)
    requires
        forall|j: int| 0 <= j < pages.len() ==> (#[trigger] pages[j]).len() > 0,
        pages.len() < u64::MAX,
    ensures
        PagerView::start(query, sort).feed(pages) == (PagerView {
            query,
            sort,
            page: pages.len() + 1,
            news: concat_pages(pages),
            finished: false,
        }),
    decreases pages.len(),
{
    if pages.len() > 0 {
        search_goes_on_while_pages_give_records(query, sort, pages.drop_last());
    }
}

/// A search that has ended stays as it is, whatever comes in afterwards.
pub proof fn ended_search_takes_nothing(state: PagerView, pages: Seq<Seq<NewsView>>)
    requires
        state.finished,
    ensures
        state.feed(pages) == state,
    decreases pages.len(),
{
    if pages.len() > 0 {
        ended_search_takes_nothing(state, pages.drop_last());
    }
}

/// Feeding a run of pages is feeding its first part and then the rest.
pub proof fn feed_in_two_parts(
    state: PagerView,
    head: Seq<Seq<NewsView>>,
    tail: Seq<Seq<NewsView>>,
)
    ensures
        state.feed(head + tail) == state.feed(head).feed(tail),
    decreases tail.len(),
{
    if tail.len() == 0 {
        assert(head + tail == head);
    } else {
        feed_in_two_parts(state, head, tail.drop_last());
        assert((head + tail).drop_last() == head + tail.drop_last());
    }
}

/// A search ends at the first empty page: where page `k + 1` is the first
/// that gives no records, the search holds exactly the records of the `k`
/// pages before it, in page order, has made `k + 1` fetches, and ignores
/// whatever would come after.
pub proof fn search_ends_at_first_empty_page(
    query: Seq<char>,
    sort: SortType,
    pages: Seq<Seq<NewsView>>,
    k: int,
)
    requires
        0 <= k < pages.len(),
        pages[k].len() == 0,
        forall|j: int| 0 <= j < k ==> (#[trigger] pages[j]).len() > 0,
        k < u64::MAX,
    ensures
        PagerView::start(query, sort).feed(pages).finished,
        PagerView::start(query, sort).feed(pages).news == concat_pages(pages.take(k)),
        PagerView::start(query, sort).feed(pages).fetches() == k + 1,
        !PagerView::start(query, sort).feed(pages.take(k)).finished,
{
    let start = PagerView::start(query, sort);
    let before = pages.take(k);
    let upto = pages.take(k + 1);
    let after = pages.skip(k + 1);
    search_goes_on_while_pages_give_records(query, sort, before);
    assert(upto.drop_last() == before);
    assert(upto.last() == pages[k]);
    assert(start.feed(upto) == start.feed(before).absorb(pages[k]));
    ended_search_takes_nothing(start.feed(upto), after);
    feed_in_two_parts(start, upto, after);
    assert(upto + after == pages);
}

/// Two pages with records and then an empty one: the search ends with the
/// records of the first page followed by those of the second, after exactly
/// three fetches; it had not ended after two.
pub proof fn two_pages_then_an_empty_one(
    query: Seq<char>,
    sort: SortType,
    first: Seq<NewsView>,
    second: Seq<NewsView>,
    third: Seq<NewsView>,
)
    requires
        first.len() > 0,
        second.len() > 0,
        third.len() == 0,
    ensures
        !PagerView::start(query, sort).absorb(first).absorb(second).finished,
        PagerView::start(query, sort).absorb(first).absorb(second).absorb(third).finished,
        PagerView::start(query, sort).absorb(first).absorb(second).absorb(third).news == first
            + second,
        PagerView::start(query, sort).absorb(first).absorb(second).absorb(third).news.len()
            == first.len() + second.len(),
        PagerView::start(query, sort).absorb(first).absorb(second).absorb(third).fetches() == 3,
{
    assert(Seq::<NewsView>::empty() + first + second == first + second);
}

/// An empty first page: the search ends at once, with no records, after
/// exactly one fetch.
pub proof fn empty_first_page(query: Seq<char>, sort: SortType, first: Seq<NewsView>)
    requires
        first.len() == 0,
    ensures
        PagerView::start(query, sort).absorb(first).finished,
        PagerView::start(query, sort).absorb(first).news == Seq::<NewsView>::empty(),
        PagerView::start(query, sort).absorb(first).fetches() == 1,
{
}

/// A search over all pages of one query.
pub struct Pager {
    query: String,
    sort: SortType,
    page: u64,
    news: Vec<News>,
    finished: bool,
}

impl View for Pager {
    type V = PagerView;

    closed spec fn view(&self) -> PagerView {
        PagerView {
            query: self.query@,
            sort: self.sort,
            page: self.page as nat,
            news: news_views(self.news@),
            finished: self.finished,
        }
    }
}

impl Pager {
    /// Starts a search at page 1, with no records.
    pub fn new(query: String, sort: SortType) -> (pager: Pager)
        ensures
            pager@ == PagerView::start(query@, sort),
    {
        let pager = Pager { query, sort, page: 1, news: Vec::new(), finished: false };
        assert(pager@.news =~= Seq::empty());
        pager
    }

    /// Whether the search has ended.
    pub fn is_finished(&self) -> (finished: bool)
        ensures
            finished == self@.finished,
    {
        self.finished
    }

    /// The number of the page that the search waits for, or of the last
    /// page it took once it has ended.
    pub fn page(&self) -> (page: u64)
        ensures
            page == self@.page,
    {
        self.page
    }

    /// The address to fetch next, or `None` once the search has ended.
    pub fn next_request(&self) -> (url: Option<String>)
        ensures
            url.deep_view() == self@.request(),
    {
        if self.finished {
            None
        } else {
            Some(search_url(self.query.as_str(), self.sort, self.page))
        }
    }

    /// Takes the records of the awaited page and decides whether the search
    /// goes on.
    pub fn absorb(&mut self, records: Vec<News>)
        ensures
            final(self)@ == old(self)@.absorb(news_views(records@)),
    {
        if self.finished {
            return ;
        }
        if records.len() == 0 {
            self.finished = true;
            return ;
        }
        let ghost before = self.news@;
        let mut records = records;
        let ghost added = records@;
        self.news.append(&mut records);
        assert(news_views(before + added) == news_views(before) + news_views(added));
        if self.page == u64::MAX {
            self.finished = true;
        } else {
            self.page = self.page + 1;
        }
    }

    /// Takes the body of the awaited page: extracts its records and hands
    /// them to [`Pager::absorb`]. A search that has ended extracts nothing.
    /// Where the extraction fails, the search is left as it was.
    pub fn absorb_page(&mut self, html: String) -> (r: Result<(), ExtractError>)
        ensures
            r == old(self)@.outcome_of_page(html@),
            final(self)@ == old(self)@.absorb_page(html@),
    {
        if self.finished {
            return Ok(());
        }
        match parce_news(html) {
            Ok(records) => {
                self.absorb(records);
                Ok(())
            },
            Err(e) => Err(e),
        }
    }

    /// The records gathered so far.
    pub fn news(&self) -> (news: &Vec<News>)
        ensures
            news_views(news@) == self@.news,
    {
        &self.news
    }

    /// Ends the use of the pager and hands out the records gathered.
    pub fn into_news(self) -> (news: Vec<News>)
        ensures
            news_views(news@) == self@.news,
    {
        self.news
    }
}

} // verus!
