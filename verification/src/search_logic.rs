//! The pure half of one search round trip: the shape of the request sent to
//! the search service, the mapping of raw service results to display items
//! (URL/quality selection and timestamp/duration formatting), and the
//! wholesale replacement of the current window.

use vstd::prelude::*;
use crate::pagination::Pagination;
use crate::pagination::SearchItem;
use crate::utils::format_duration;
use crate::utils::spec_format_duration;
use crate::utils::spec_german_datetime;
use crate::utils::timestamp_to_german_datetime;

verus! {

/// What the search service reports for one hit, reduced to the plain values
/// this client reads: the display texts, the raw epoch-seconds timestamp,
/// the whole seconds of the optional duration, and the three video-URL
/// variants (standard, high-definition, low-quality).
pub struct RawMediaItem {
    pub title: String,
    pub topic: String,
    pub timestamp: i64,
    pub duration_seconds: Option<u64>,
    pub url_video: String,
    pub url_video_hd: Option<String>,
    pub url_video_low: Option<String>,
}

/// One request to the search service: a fielded full-text match of `query`
/// over both the topic and the title field, future items excluded, sorted by
/// timestamp descending (newest first), windowed at (`offset`, `size`).
pub struct SearchRequest {
    pub query: String,
    pub offset: usize,
    pub size: usize,
    pub include_future: bool,
    pub sort_by_timestamp_descending: bool,
}

/// Builds the request for one window fetch: the query text is passed through
/// unvalidated, the window size is the fixed page size, future items are
/// excluded, and results come newest first.
pub fn search_request(query: String, offset: usize) -> (r: SearchRequest)
    ensures
        r.query@ == query@,
        r.offset == offset,
        r.size == crate::PAGE_SIZE,
        !r.include_future,
        r.sort_by_timestamp_descending,
{
    SearchRequest {
        query,
        offset,
        size: 15,
        include_future: false,
        sort_by_timestamp_descending: true,
    }
}

/// The quality label a raw result maps to: `"SD"` when the standard URL is
/// non-empty, else `"HD"` when a high-definition URL exists, else `"LQ"`.
pub open spec fn spec_quality(raw: RawMediaItem) -> Seq<char> {
    if raw.url_video@.len() > 0 {
        "SD"@
    } else if raw.url_video_hd is Some {
        "HD"@
    } else {
        "LQ"@
    }
}

/// The playable URL a raw result maps to, chosen with the same priority as
/// the quality label; empty when no URL variant is present at all.
pub open spec fn spec_video_url(raw: RawMediaItem) -> Seq<char> {
    if raw.url_video@.len() > 0 {
        raw.url_video@
    } else {
        match raw.url_video_hd {
            Some(url) => url@,
            None => match raw.url_video_low {
                Some(url) => url@,
                None => Seq::<char>::empty(),
            },
        }
    }
}

/// How one displayed item relates to the raw result it was mapped from:
/// unselected, texts carried over, timestamp and duration formatted, and
/// the URL/quality pair chosen by the standard-first priority.
pub open spec fn item_matches(item: SearchItem, raw: RawMediaItem) -> bool {
    &&& item.selected == false
    &&& item.title@ == raw.title@
    &&& item.topic@ == raw.topic@
    &&& item.timestamp@ == spec_german_datetime(raw.timestamp as int)
    &&& item.duration@ == spec_format_duration(raw.duration_seconds)
    &&& item.quality@ == spec_quality(raw)
    &&& item.video_url@ == spec_video_url(raw)
}

/// Maps one raw service result into the display model.
pub fn map_raw_item(raw: RawMediaItem) -> (r: SearchItem)
    ensures
        item_matches(r, raw),
{
    let RawMediaItem {
        title,
        topic,
        timestamp,
        duration_seconds,
        url_video,
        url_video_hd,
        url_video_low,
    } = raw;
    let (video_url, quality): (String, String) = if !url_video.as_str().is_empty() {
        (url_video, String::from_str("SD"))
    } else if let Some(url) = url_video_hd {
        (url, String::from_str("HD"))
    } else {
        let url = match url_video_low {
            Some(url) => url,
            None => String::new(),
        };
        (url, String::from_str("LQ"))
    };
    let timestamp_text = timestamp_to_german_datetime(timestamp);
    let duration_text = format_duration(&duration_seconds);
    SearchItem {
        selected: false,
        title,
        topic,
        timestamp: timestamp_text,
        duration: duration_text,
        quality,
        video_url,
    }
}

/// Maps a whole page of raw service results, keeping their order.
pub fn map_search_results(results: Vec<RawMediaItem>) -> (r: Vec<SearchItem>)
    ensures
        r@.len() == results@.len(),
        forall|i: int| 0 <= i < results@.len() ==> item_matches(r@[i], results@[i]),
{
    let ghost orig = results@;
    let mut rest = results;
    let mut mapped: Vec<SearchItem> = Vec::new();
    while rest.len() > 0
        invariant
            mapped@.len() + rest@.len() == orig.len(),
            rest@ == orig.subrange(mapped@.len() as int, orig.len() as int),
            forall|i: int| 0 <= i < mapped@.len() ==> item_matches(mapped@[i], orig[i]),
        decreases rest@.len(),
    {
        let raw = rest.remove(0);
        proof {
            assert(rest@ =~= orig.subrange(mapped@.len() as int + 1, orig.len() as int));
        }
        let item = map_raw_item(raw);
        mapped.push(item);
    }
    mapped
}

/// Replaces the current window wholesale after one completed fetch: the
/// service-reported total, the offset the fetch was made at, and the mapped
/// items, with nothing of the old window left behind.
pub fn apply_search_result(
    pagination: &mut Pagination,
    total: usize,
    offset: usize,
    results: Vec<RawMediaItem>,
)
    ensures
        final(pagination).total == total,
        final(pagination).offset == offset,
        final(pagination).items@.len() == results@.len(),
        forall|i: int|
            0 <= i < results@.len() ==> item_matches(final(pagination).items@[i], results@[i]),
{
    let items = map_search_results(results);
    pagination.total = total;
    pagination.offset = offset;
    pagination.items = items;
}

} // verus!
