//! Extraction of news records from the search listings of gazeta.uz.
//!
//! The crate turns the markup of a search-result page into [`News`] records,
//! builds the address of each page of a search, and decides, page by page,
//! when a search is exhausted. Fetching the pages is left to the caller.

pub mod listing;
pub mod markup;
pub mod news;
pub mod pager;
pub mod query;

pub use listing::parce_news;
pub use news::{ExtractError, Field, News, NewsView};
pub use pager::{Pager, PagerView};
pub use query::{search_url, SortType};
