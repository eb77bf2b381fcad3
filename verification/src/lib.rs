//! Windowed pagination over a linear result set of unknown total size,
//! with a fixed page size, plus the pure half of a media-search client:
//! mapping raw search hits to display items and replacing the current
//! window wholesale.

use vstd::prelude::*;

pub mod pagination;
pub mod search_logic;
pub mod utils;

pub use pagination::Pagination;
pub use pagination::SearchItem;
pub use search_logic::RawMediaItem;
pub use search_logic::SearchRequest;
pub use search_logic::apply_search_result;
pub use search_logic::map_raw_item;
pub use search_logic::map_search_results;
pub use search_logic::search_request;
pub use utils::format_duration;
pub use utils::timestamp_to_german_datetime;
pub use utils::u64_to_string;

verus! {

/// The fixed number of items in one page window.
pub const PAGE_SIZE: usize = 15;

} // verus!
