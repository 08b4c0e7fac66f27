//! News records, and the extraction of one record from a result fragment.

use crate::markup::{
    attr_matches, attr_of, fragment_tree, inner_html_matches, inner_html_of, parse_fragment,
};
use vstd::prelude::*;
use vstd::std_specs::cmp::PartialEqSpecImpl;

verus! {

/// Pattern of the headline link of a result fragment.
pub const TITLE_PATTERN: &'static str = "div>h3>a";

/// Pattern of the node that holds the publication time.
pub const TIME_PATTERN: &'static str = "div>div.ndt";

/// Pattern of the teaser paragraph.
pub const BODY_PATTERN: &'static str = "div>p";

/// Pattern of the thumbnail image, looked for in the whole fragment.
pub const IMAGE_PATTERN: &'static str = "a>img";

/// Name of the attribute that holds the address of a lazily loaded image.
pub const IMAGE_SOURCE: &'static str = "data-src";

/// One of the four fields of a record.
#[derive(Clone, Copy, Debug, PartialEq, Eq, Structural)]
pub enum Field {
    Title,
    TimePublished,
    Image,
    Body,
}

/// Why a piece of markup gave no record.
#[derive(Clone, Copy, Debug, PartialEq, Eq, Structural)]
pub enum ExtractError {
    /// The parser does not accept a pattern that the extraction uses.
    InvalidPattern,
    /// No node of the fragment matches the pattern of this field.
    StructuralMismatch(Field),
    /// The image node has no lazy-load source attribute.
    MalformedAttribute,
}

/// One search result. All four fields are always present; the texts are kept
/// as the markup has them, with entities left as they are.
#[derive(Debug, Eq, PartialOrd, Ord)]
pub struct News {
    body: String,
    reference_to_photo: String,
    time_string: String,
    title: String,
}

/// The contents of a [`News`] record.
pub struct NewsView {
    pub title: Seq<char>,
    pub body: Seq<char>,
    pub image_src: Seq<char>,
    pub time_published: Seq<char>,
}

impl View for News {
    type V = NewsView;

    closed spec fn view(&self) -> NewsView {
        NewsView {
            title: self.title@,
            body: self.body@,
            image_src: self.reference_to_photo@,
            time_published: self.time_string@,
        }
    }
}

impl PartialEq for News {
    /// Two records are equal where their four fields are.
    fn eq(&self, other: &News) -> (equal: bool) {
        self.body == other.body && self.reference_to_photo == other.reference_to_photo
            && self.time_string == other.time_string && self.title == other.title
    }
}

impl PartialEqSpecImpl for News {
    open spec fn obeys_eq_spec() -> bool {
        true
    }

    open spec fn eq_spec(&self, other: &News) -> bool {
        self@ == other@
    }
}

/// The contents of each record of a sequence.
pub open spec fn news_views(news: Seq<News>) -> Seq<NewsView> {
    news.map_values(|n: News| n@)
}

/// The last match of a lookup whose matches are texts: the value of the
/// field, or the reason why there is none.
pub open spec fn last_match(field: Field, found: Option<Seq<Seq<char>>>) -> Result<
    Seq<char>,
    ExtractError,
> {
    match found {
        None => Err(ExtractError::InvalidPattern),
        Some(texts) => if texts.len() == 0 {
            Err(ExtractError::StructuralMismatch(field))
        } else {
            Ok(texts.last())
        },
    }
}

/// The lazy-load source of the last image node, or the reason why there is
/// none. Only the last node counts: an earlier node that has the attribute
/// does not make up for a last one that lacks it.
pub open spec fn last_source(found: Option<Seq<Option<Seq<char>>>>) -> Result<
    Seq<char>,
    ExtractError,
> {
    match found {
        None => Err(ExtractError::InvalidPattern),
        Some(sources) => if sources.len() == 0 {
            Err(ExtractError::StructuralMismatch(Field::Image))
        } else {
            match sources.last() {
                Some(source) => Ok(source),
                None => Err(ExtractError::MalformedAttribute),
            }
        },
    }
}

/// The record that the four lookups of one fragment give. The fields are
/// taken in the order title, time, image, body, and the first one that
/// fails decides the error.
pub open spec fn assemble(
    titles: Option<Seq<Seq<char>>>,
    times: Option<Seq<Seq<char>>>,
    images: Option<Seq<Option<Seq<char>>>>,
    bodies: Option<Seq<Seq<char>>>,
) -> Result<NewsView, ExtractError> {
    match last_match(Field::Title, titles) {
        Err(e) => Err(e),
        Ok(title) => match last_match(Field::TimePublished, times) {
            Err(e) => Err(e),
            Ok(time_published) => match last_source(images) {
                Err(e) => Err(e),
                Ok(image_src) => match last_match(Field::Body, bodies) {
                    Err(e) => Err(e),
                    Ok(body) => Ok(NewsView { title, body, image_src, time_published }),
                },
            },
        },
    }
}

/// The record that a result fragment gives, or the reason why it gives
/// none, in terms of what the parser finds in the fragment.
pub open spec fn extract_fragment(block: Seq<char>) -> Result<NewsView, ExtractError> {
    let tree = fragment_tree(block);
    assemble(
        inner_html_of(tree, TITLE_PATTERN@),
        inner_html_of(tree, TIME_PATTERN@),
        attr_of(tree, IMAGE_PATTERN@, IMAGE_SOURCE@),
        inner_html_of(tree, BODY_PATTERN@),
    )
}

/// Whether the parser finds all four parts of a record in a fragment: a
/// headline, a publication time, a teaser, and an image whose last node has
/// a lazy-load source.
pub open spec fn has_all_fields(block: Seq<char>) -> bool {
    let tree = fragment_tree(block);
    &&& last_match(Field::Title, inner_html_of(tree, TITLE_PATTERN@)) is Ok
    &&& last_match(Field::TimePublished, inner_html_of(tree, TIME_PATTERN@)) is Ok
    &&& last_source(attr_of(tree, IMAGE_PATTERN@, IMAGE_SOURCE@)) is Ok
    &&& last_match(Field::Body, inner_html_of(tree, BODY_PATTERN@)) is Ok
}

/// Among the matches of a lookup the last one counts: where an outer node
/// and a later, inner node both match, the field is the inner one, never
/// the outer.
pub proof fn last_match_wins(field: Field, texts: Seq<Seq<char>>)
    requires
        texts.len() > 0,
    ensures
        last_match(field, Some(texts)) == Ok::<Seq<char>, ExtractError>(texts[texts.len() - 1]),
        forall|i: int|
            0 <= i < texts.len() - 1 && texts[i] != texts[texts.len() - 1] ==> last_match(
                field,
                Some(texts),
            ) != Ok::<Seq<char>, ExtractError>(#[trigger] texts[i]),
{
}

/// Four lookups that each found something, the last image node with its
/// lazy-load source, give a record, and each field of it is the last match
/// of its lookup.
pub proof fn four_matches_give_a_record(
    titles: Seq<Seq<char>>,
    times: Seq<Seq<char>>,
    images: Seq<Option<Seq<char>>>,
    bodies: Seq<Seq<char>>,
)
    requires
        titles.len() > 0,
        times.len() > 0,
        images.len() > 0,
        images.last() is Some,
        bodies.len() > 0,
    ensures
        assemble(Some(titles), Some(times), Some(images), Some(bodies)) == Ok::<
            NewsView,
            ExtractError,
        >(
            NewsView {
                title: titles.last(),
                body: bodies.last(),
                image_src: images.last()->0,
                time_published: times.last(),
            },
        ),
{
}

/// A fragment gives a record exactly if the parser finds all four parts
/// in it.
pub proof fn complete_fragment_gives_a_record(block: Seq<char>)
    ensures
        extract_fragment(block) is Ok <==> has_all_fields(block),
{
}

/// A text, or an error, by its contents.
pub open spec fn text_outcome(r: Result<String, ExtractError>) -> Result<Seq<char>, ExtractError> {
    match r {
        Ok(text) => Ok(text@),
        Err(e) => Err(e),
    }
}

/// A record, or an error, by its contents.
pub open spec fn news_outcome(r: Result<News, ExtractError>) -> Result<NewsView, ExtractError> {
    match r {
        Ok(news) => Ok(news@),
        Err(e) => Err(e),
    }
}

/// Takes the last of the texts that a lookup found.
pub fn pick_last(field: Field, found: Option<Vec<String>>) -> (r: Result<String, ExtractError>)
    ensures
        text_outcome(r) == last_match(field, found.deep_view()),
{
    match found {
        None => Err(ExtractError::InvalidPattern),
        Some(mut texts) => {
            let ghost all = texts;
            match texts.pop() {
                None => Err(ExtractError::StructuralMismatch(field)),
                Some(text) => {
                    assert(all.deep_view().last() == text@);
                    Ok(text)
                },
            }
        },
    }
}

/// Takes the lazy-load source of the last image node that a lookup found.
pub fn pick_last_source(found: Option<Vec<Option<String>>>) -> (r: Result<String, ExtractError>)
    ensures
        text_outcome(r) == last_source(found.deep_view()),
{
    match found {
        None => Err(ExtractError::InvalidPattern),
        Some(mut sources) => {
            let ghost all = sources;
            match sources.pop() {
                None => Err(ExtractError::StructuralMismatch(Field::Image)),
                Some(last) => {
                    assert(all.deep_view().last() == last.deep_view());
                    match last {
                        Some(source) => Ok(source),
                        None => Err(ExtractError::MalformedAttribute),
                    }
                },
            }
        },
    }
}

impl News {
    /// Makes a record of four texts.
    pub fn new(title: String, body: String, image_src: String, time_published: String) -> (news:
        News)
        ensures
            news@ == (NewsView {
                title: title@,
                body: body@,
                image_src: image_src@,
                time_published: time_published@,
            }),
    {
        News { body, reference_to_photo: image_src, time_string: time_published, title }
    }

    /// Makes a record of what the four lookups of one fragment found: for
    /// each field the last match. A lookup is `None` where its pattern was
    /// not accepted, and an image node is `None` where it has no lazy-load
    /// source.
    pub fn from_matches(
        titles: Option<Vec<String>>,
        times: Option<Vec<String>>,
        images: Option<Vec<Option<String>>>,
        bodies: Option<Vec<String>>,
    ) -> (r: Result<News, ExtractError>)
        ensures
            news_outcome(r) == assemble(
                titles.deep_view(),
                times.deep_view(),
                images.deep_view(),
                bodies.deep_view(),
            ),
    {
        let title = match pick_last(Field::Title, titles) {
            Ok(text) => text,
            Err(e) => { return Err(e); },
        };
        let time_published = match pick_last(Field::TimePublished, times) {
            Ok(text) => text,
            Err(e) => { return Err(e); },
        };
        let image_src = match pick_last_source(images) {
            Ok(text) => text,
            Err(e) => { return Err(e); },
        };
        let body = match pick_last(Field::Body, bodies) {
            Ok(text) => text,
            Err(e) => { return Err(e); },
        };
        Ok(News::new(title, body, image_src, time_published))
    }

    /// Extracts the record of one result fragment, given as its inner
    /// markup.
    pub fn from_nblock(block: String) -> (r: Result<News, ExtractError>)
        ensures
            news_outcome(r) == extract_fragment(block@),
    {
        let tree = parse_fragment(block.as_str());
        let titles = inner_html_matches(&tree, TITLE_PATTERN);
        let times = inner_html_matches(&tree, TIME_PATTERN);
        let images = attr_matches(&tree, IMAGE_PATTERN, IMAGE_SOURCE);
        let bodies = inner_html_matches(&tree, BODY_PATTERN);
        News::from_matches(titles, times, images, bodies)
    }

    /// The headline.
    pub fn title(&self) -> (text: String)
        ensures
            text@ == self@.title,
    {
        self.title.clone()
    }

    /// The teaser.
    pub fn body(&self) -> (text: String)
        ensures
            text@ == self@.body,
    {
        self.body.clone()
    }

    /// The address of the thumbnail image.
    pub fn image_src(&self) -> (text: String)
        ensures
            text@ == self@.image_src,
    {
        self.reference_to_photo.clone()
    }

    /// The publication time, as the page shows it.
    pub fn time_published(&self) -> (text: String)
        ensures
            text@ == self@.time_published,
    {
        self.time_string.clone()
    }
}

} // verus!
