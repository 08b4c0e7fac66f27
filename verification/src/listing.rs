//! The extraction of all records of one result page.

use crate::markup::{document_tree, inner_html_matches, inner_html_of, parse_document};
use crate::news::{extract_fragment, news_views, ExtractError, News, NewsView};
use vstd::prelude::*;

verus! {

/// Pattern of the result fragments of a page: the chain of containers that
/// ends in the repeated result item.
pub const LISTING_PATTERN: &'static str =
    "body>div>div.lenta>div.leftContainer>div.blockSectionNews>div.newsblock-2>div.nblock";

/// The inner markup of each result fragment of a page, in the order in which
/// the parser finds them, or `None` where it does not accept the pattern.
pub open spec fn listing_fragments(html: Seq<char>) -> Option<Seq<Seq<char>>> {
    inner_html_of(document_tree(html), LISTING_PATTERN@)
}

/// What a sequence of fragments gives: the record of each fragment, in the
/// same order, where every fragment gives one; else the error of the first
/// fragment that gives none.
pub open spec fn listing_of(fragments: Seq<Seq<char>>) -> Result<Seq<NewsView>, ExtractError>
    decreases fragments.len(),
{
    if fragments.len() == 0 {
        Ok(Seq::empty())
    } else {
        match listing_of(fragments.drop_last()) {
            Err(e) => Err(e),
            Ok(front) => match extract_fragment(fragments.last()) {
                Err(e) => Err(e),
                Ok(one) => Ok(front.push(one)),
            },
        }
    }
}

/// What a page gives: the records of its result fragments. A page without
/// result fragments gives the empty sequence.
pub open spec fn listing_of_page(html: Seq<char>) -> Result<Seq<NewsView>, ExtractError> {
    match listing_fragments(html) {
        None => Err(ExtractError::InvalidPattern),
        Some(fragments) => listing_of(fragments),
    }
}

/// Whether fragment `k` is the first one that gives no record.
pub open spec fn first_failure(fragments: Seq<Seq<char>>, k: int) -> bool {
    &&& 0 <= k < fragments.len()
    &&& extract_fragment(fragments[k]) is Err
    &&& forall|j: int| 0 <= j < k ==> (#[trigger] extract_fragment(fragments[j])) is Ok
}

/// A page gives as many records as it has fragments, and record `i` is the
/// one that fragment `i` gives: the records keep the order of the fragments.
pub proof fn records_keep_the_order_of_fragments(fragments: Seq<Seq<char>>)
    requires
        listing_of(fragments) is Ok,
    ensures
        listing_of(fragments)->Ok_0.len() == fragments.len(),
        forall|i: int|
            0 <= i < fragments.len() ==> (#[trigger] extract_fragment(fragments[i])) == Ok::<
                NewsView,
                ExtractError,
            >(listing_of(fragments)->Ok_0[i]),
    decreases fragments.len(),
{
    if fragments.len() > 0 {
        let front = fragments.drop_last();
        records_keep_the_order_of_fragments(front);
        assert forall|i: int| 0 <= i < fragments.len() implies (#[trigger] extract_fragment(
            fragments[i],
        )) == Ok::<NewsView, ExtractError>(listing_of(fragments)->Ok_0[i]) by {
            if i < front.len() {
                assert(fragments[i] == front[i]);
            }
        }
    }
}

/// A page gives records exactly if each of its fragments gives one.
pub proof fn page_fails_exactly_if_a_fragment_fails(fragments: Seq<Seq<char>>)
    ensures
        listing_of(fragments) is Ok <==> forall|i: int|
            0 <= i < fragments.len() ==> (#[trigger] extract_fragment(fragments[i])) is Ok,
    decreases fragments.len(),
{
    if fragments.len() > 0 {
        let front = fragments.drop_last();
        page_fails_exactly_if_a_fragment_fails(front);
        if listing_of(fragments) is Ok {
            assert forall|i: int| 0 <= i < fragments.len() implies (#[trigger] extract_fragment(
                fragments[i],
            )) is Ok by {
                if i < front.len() {
                    assert(fragments[i] == front[i]);
                }
            }
        } else if listing_of(front) is Err {
            let i = choose|i: int|
                0 <= i < front.len() && !((#[trigger] extract_fragment(front[i])) is Ok);
            assert(fragments[i] == front[i]);
        }
    }
}

/// Where fragment `k` is the first that gives no record, the page fails with
/// the error of that fragment, whatever follows it.
pub proof fn first_failing_fragment_decides(fragments: Seq<Seq<char>>, k: int)
    requires
        first_failure(fragments, k),
    ensures
        listing_of(fragments) == Err::<Seq<NewsView>, ExtractError>(
            extract_fragment(fragments[k])->Err_0,
        ),
    decreases fragments.len(),
{
    let front = fragments.drop_last();
    if k == fragments.len() - 1 {
        page_fails_exactly_if_a_fragment_fails(front);
        assert forall|i: int| 0 <= i < front.len() implies (#[trigger] extract_fragment(
            front[i],
        )) is Ok by {
            assert(fragments[i] == front[i]);
        }
    } else {
        assert(front[k] == fragments[k]);
        assert forall|j: int| 0 <= j < k implies (#[trigger] extract_fragment(front[j])) is Ok by {
            assert(fragments[j] == front[j]);
        }
        first_failing_fragment_decides(front, k);
    }
}

/// A sequence of records, or an error, by its contents.
pub open spec fn listing_outcome(r: Result<Vec<News>, ExtractError>) -> Result<
    Seq<NewsView>,
    ExtractError,
> {
    match r {
        Ok(news) => Ok(news_views(news@)),
        Err(e) => Err(e),
    }
}

/// Extracts one record from each fragment, in order, and stops at the first
/// fragment that gives none.
pub fn extract_fragments(fragments: Vec<String>) -> (r: Result<Vec<News>, ExtractError>)
    ensures
        listing_outcome(r) == listing_of(fragments.deep_view()),
{
    let ghost texts = fragments.deep_view();
    let mut news: Vec<News> = Vec::new();
    let mut i: usize = 0;
    assert(news_views(news@) =~= Seq::empty());
    while i < fragments.len()
        invariant
            i <= fragments.len(),
            texts == fragments.deep_view(),
            listing_of(texts.take(i as int)) == Ok::<Seq<NewsView>, ExtractError>(
                news_views(news@),
            ),
            forall|j: int| 0 <= j < i ==> (#[trigger] extract_fragment(texts[j])) is Ok,
        decreases fragments.len() - i,
    {
        let ghost before = news@;
        assert(texts.take(i + 1).drop_last() == texts.take(i as int));
        match News::from_nblock(fragments[i].clone()) {
            Ok(one) => {
                news.push(one);
                assert(news_views(news@) =~= news_views(before).push(one@));
            },
            Err(e) => {
                proof {
                    first_failing_fragment_decides(texts, i as int);
                }
                return Err(e);
            },
        }
        i += 1;
    }
    assert(texts.take(i as int) == texts);
    Ok(news)
}

/// Extracts the records of one result page, in the order of the page. A
/// page without result fragments gives an empty sequence, which is how the
/// end of a search shows. One fragment that gives no record fails the whole
/// page.
pub fn parce_news(html: String) -> (r: Result<Vec<News>, ExtractError>)
    ensures
        listing_outcome(r) == listing_of_page(html@),
{
    let tree = parse_document(html.as_str());
    match inner_html_matches(&tree, LISTING_PATTERN) {
        None => Err(ExtractError::InvalidPattern),
        Some(fragments) => extract_fragments(fragments),
    }
}

} // verus!
