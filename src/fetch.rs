//! The decisions of the fetch pipeline: request pacing, classification of
//! responses, and the JSON-first, HTML-fallback order of a single-item
//! fetch. The caller performs each request and reports what came back.
use vstd::prelude::*;
use vstd::string::*;
use crate::error::{AppError, AppResult};
use crate::html::{card_item_is, card_view_at, card_count, detail_item_is, detail_name, detail_view_of, kept_cards, parse_item_detail_html, parse_search_html, count_texts, CARD_SEL};
use crate::count::first_count;
use crate::models::{BoothItem, BoothJsonItemDetail, SearchResult, canonical_url, item_url, json_item_is};
use crate::query::SearchRequest;
use crate::text::{decimal, decimal_string};

verus! {

/// Minimum time between two requests of one client, in milliseconds.
pub const MIN_INTERVAL_MS: u64 = 1000;

/// Paces the requests of one client: remembers when the last one was
/// allowed to go out.
#[derive(Debug, Clone, Copy)]
pub struct RateLimiter {
    pub last_issued: Option<u64>,
}

/// The earliest time at which the next request may go out.
pub open spec fn ready_at(last: Option<u64>) -> u64 {
    match last {
        None => 0,
        Some(l) => if l as int + MIN_INTERVAL_MS as int > u64::MAX as int {
            u64::MAX
        } else {
            (l + MIN_INTERVAL_MS) as u64
        },
    }
}

/// When a request asked for at `now` goes out.
pub open spec fn issue_time(last: Option<u64>, now: u64) -> u64 {
    if now >= ready_at(last) {
        now
    } else {
        ready_at(last)
    }
}

impl RateLimiter {
    /// A limiter that has let nothing through yet.
    pub fn new() -> (r: RateLimiter)
        ensures
            r.last_issued is None,
    {
        RateLimiter { last_issued: None }
    }

    /// Asked at time `now` (milliseconds): returns how long the caller must
    /// wait before its request, and records the time it will go out.
    pub fn acquire(&mut self, now: u64) -> (wait: u64)
        ensures
            wait == issue_time(old(self).last_issued, now) - now,
            final(self).last_issued == Some(issue_time(old(self).last_issued, now)),
    {
        let ready: u64 = match self.last_issued {
            None => 0,
            Some(l) => if l > u64::MAX - MIN_INTERVAL_MS {
                u64::MAX
            } else {
                l + MIN_INTERVAL_MS
            },
        };
        let issue = if now >= ready {
            now
        } else {
            ready
        };
        self.last_issued = Some(issue);
        issue - now
    }
}

/// Two requests asked for one after the other on one limiter go out at
/// least the minimum interval apart (short of the end of the clock).
pub proof fn law_requests_spaced(last: Option<u64>, t1: u64, t2: u64)
    requires
        t1 <= t2,
        issue_time(last, t1) as int + MIN_INTERVAL_MS as int <= u64::MAX as int,
    ensures
        issue_time(Some(issue_time(last, t1)), t2) >= issue_time(last, t1) + MIN_INTERVAL_MS,
        issue_time(last, t1) >= t1,
        issue_time(Some(issue_time(last, t1)), t2) >= t2,
{
}

/// How a response is to be treated, from its status alone.
#[derive(Debug, Clone, Copy, PartialEq, Eq)]
pub enum Classification {
    Success,
    RateLimited,
    Failed(u16),
}

pub open spec fn classification_of(status: u16) -> Classification {
    if status == 429 {
        Classification::RateLimited
    } else if 200 <= status && status <= 299 {
        Classification::Success
    } else {
        Classification::Failed(status)
    }
}

/// 429 is rate limiting, any other status outside 2xx a failure.
pub fn classify_status(status: u16) -> (r: Classification)
    ensures
        r == classification_of(status),
{
    if status == 429 {
        Classification::RateLimited
    } else if 200 <= status && status <= 299 {
        Classification::Success
    } else {
        Classification::Failed(status)
    }
}

/// The outcome of a search whose response had status `status` and body
/// `body`.
pub fn search_response(req: &SearchRequest, status: u16, body: &str) -> (r: AppResult<
    SearchResult,
>)
    ensures
        status == 429 ==> r matches Err(AppError::RateLimited),
        classification_of(status) is Failed ==> (r matches Err(AppError::NotFound(m)) && m@
            == "Search returned "@ + decimal(status as nat)),
        classification_of(status) is Success ==> (r matches Ok(res) && res.current_page == req.page
            && res.total_count == first_count(count_texts(body@)) && res.items@.len() == kept_cards(
            body@,
            card_count(body@),
        ).len() && forall|j: int|
            0 <= j < res.items@.len() ==> card_item_is(
                card_view_at(body@, #[trigger] kept_cards(body@, card_count(body@))[j]),
                res.items@[j],
            )),
{
    match classify_status(status) {
        Classification::RateLimited => Err(AppError::RateLimited),
        Classification::Failed(s) => {
            let mut m = String::from_str("Search returned ");
            m.append(decimal_string(s as u64).as_str());
            Err(AppError::NotFound(m))
        },
        Classification::Success => {
            let (items, total_count) = parse_search_html(body);
            Ok(SearchResult { items, total_count, current_page: req.page })
        },
    }
}

/// The address of an item's JSON document.
pub fn json_item_url(item_id: u64) -> (r: String)
    ensures
        r@ == item_url(item_id) + ".json"@,
{
    let mut u = canonical_url(item_id);
    u.append(".json");
    u
}

/// The address of an item's HTML page.
pub fn html_item_url(item_id: u64) -> (r: String)
    ensures
        r@ == item_url(item_id),
{
    canonical_url(item_id)
}

/// What the status of the JSON attempt means before its body is read:
/// `None` when the body is to be decoded, else the attempt's error.
pub fn json_status_error(item_id: u64, status: u16) -> (r: Option<AppError>)
    ensures
        classification_of(status) is Success <==> r is None,
        status == 429 ==> r matches Some(AppError::RateLimited),
        classification_of(status) is Failed ==> (r matches Some(AppError::NotFound(m)) && m@
            == "Item "@ + decimal(item_id as nat) + " not found"@),
{
    match classify_status(status) {
        Classification::Success => None,
        Classification::RateLimited => Some(AppError::RateLimited),
        Classification::Failed(_) => {
            let mut m = String::from_str("Item ");
            m.append(decimal_string(item_id).as_str());
            m.append(" not found");
            Some(AppError::NotFound(m))
        },
    }
}

/// The outcome of the JSON attempt from its decoded body, or from the
/// decoder's message when the body was not a JSON document of that shape.
pub fn json_document_result(doc: Result<BoothJsonItemDetail, String>) -> (r: AppResult<BoothItem>)
    ensures
        doc matches Err(m) ==> (r matches Err(AppError::ParseError(e)) && e@ == m@),
        doc matches Ok(d) ==> {
            &&& r is Ok <==> d.id is Some
            &&& r matches Ok(item) ==> json_item_is(
                item,
                d.id.unwrap(),
                d.name,
                d.description,
                d.price,
                d.category,
                d.shop,
                d.url,
                d.images,
                d.tags,
            )
            &&& r matches Err(e) ==> (e matches AppError::ParseError(m) && m@
                == "Failed to parse item detail"@)
        },
{
    match doc {
        Err(m) => Err(AppError::ParseError(m)),
        Ok(d) => match d.into_booth_item() {
            Some(item) => Ok(item),
            None => Err(AppError::ParseError(String::from_str("Failed to parse item detail"))),
        },
    }
}

/// What to do once the JSON attempt of a single-item fetch is over.
#[derive(Debug)]
pub enum ItemStep {
    /// The fetch is over with this outcome.
    Done(AppResult<BoothItem>),
    /// Wait for the limiter once more, then request this HTML page.
    FetchHtml(String),
}

/// Whether a JSON attempt with this outcome is followed by the HTML page.
pub open spec fn falls_back(outcome: AppResult<BoothItem>) -> bool {
    outcome is Err && !(outcome matches Err(AppError::RateLimited))
}

/// The number of HTML requests that follow a JSON attempt with this outcome.
pub open spec fn html_requests_after(outcome: AppResult<BoothItem>) -> nat {
    if falls_back(outcome) {
        1
    } else {
        0
    }
}

/// Decides after the JSON attempt: an item ends the fetch, rate limiting
/// ends it with that error, and any other failure falls back to the HTML
/// page of the same item.
pub fn after_json_attempt(item_id: u64, outcome: AppResult<BoothItem>) -> (r: ItemStep)
    ensures
        r is FetchHtml <==> falls_back(outcome),
        r matches ItemStep::FetchHtml(u) ==> u@ == item_url(item_id),
        r matches ItemStep::Done(d) ==> d == outcome,
{
    match outcome {
        Ok(item) => ItemStep::Done(Ok(item)),
        Err(AppError::RateLimited) => ItemStep::Done(Err(AppError::RateLimited)),
        Err(_) => ItemStep::FetchHtml(html_item_url(item_id)),
    }
}

/// The outcome of the HTML attempt, from its response; this ends the fetch.
pub fn html_attempt_result(item_id: u64, status: u16, body: &str) -> (r: AppResult<BoothItem>)
    ensures
        status == 429 ==> r matches Err(AppError::RateLimited),
        classification_of(status) is Failed ==> (r matches Err(AppError::NotFound(m)) && m@
            == "Item "@ + decimal(item_id as nat) + " not found in HTML"@),
        classification_of(status) is Success ==> {
            &&& r is Ok <==> detail_name(detail_view_of(body@)).len() > 0
            &&& r matches Ok(item) ==> detail_item_is(detail_view_of(body@), item_id, item)
            &&& r matches Err(e) ==> (e matches AppError::NotFound(m) && m@ == "Item "@ + decimal(
                item_id as nat,
            ) + " not found in HTML"@)
        },
{
    match classify_status(status) {
        Classification::RateLimited => Err(AppError::RateLimited),
        Classification::Failed(_) => Err(AppError::NotFound(not_found_in_html(item_id))),
        Classification::Success => match parse_item_detail_html(body, item_id) {
            Some(item) => Ok(item),
            None => Err(AppError::NotFound(not_found_in_html(item_id))),
        },
    }
}

fn not_found_in_html(item_id: u64) -> (r: String)
    ensures
        r@ == "Item "@ + decimal(item_id as nat) + " not found in HTML"@,
{
    let mut m = String::from_str("Item ");
    m.append(decimal_string(item_id).as_str());
    m.append(" not found in HTML");
    m
}

/// A JSON attempt that fails for any reason but rate limiting is followed
/// by exactly one HTML request; a rate-limited one, or a success, by none.
pub proof fn law_single_fallback(outcome: AppResult<BoothItem>)
    ensures
        outcome matches Err(AppError::RateLimited) ==> html_requests_after(outcome) == 0,
        outcome is Ok ==> html_requests_after(outcome) == 0,
        (outcome is Err && !(outcome matches Err(AppError::RateLimited))) ==> html_requests_after(
            outcome,
        ) == 1,
{
}

} // verus!
