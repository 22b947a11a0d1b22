//! Validation of search input and construction of the search URL.
use vstd::prelude::*;
use vstd::string::*;
use crate::error::AppError;
use crate::models::SearchParams;
use crate::text::{chars_of, decimal, decimal_string, trim_chars, trimmed};
use crate::urlenc::{url_encoded, urlencoded};

verus! {

pub const MAX_PAGE: u32 = 10000;

pub const MAX_CATEGORY_LEN: usize = 100;

pub const MAX_PRICE: u64 = 999999999;

/// The page actually requested: 1 when absent, otherwise within `[1, 10000]`.
pub open spec fn page_of(page: Option<u32>) -> u32 {
    match page {
        None => 1,
        Some(p) => if p < 1 {
            1
        } else if p > MAX_PAGE {
            MAX_PAGE
        } else {
            p
        },
    }
}

pub open spec fn category_too_long(p: SearchParams) -> bool {
    p.category matches Some(c) && c@.len() > MAX_CATEGORY_LEN
}

pub open spec fn min_too_large(p: SearchParams) -> bool {
    p.price_min matches Some(m) && m > MAX_PRICE
}

pub open spec fn max_too_large(p: SearchParams) -> bool {
    p.price_max matches Some(m) && m > MAX_PRICE
}

pub open spec fn params_valid(p: SearchParams) -> bool {
    !category_too_long(p) && !min_too_large(p) && !max_too_large(p)
}

pub open spec fn is_allowed_sort(s: Seq<char>) -> bool {
    s == "new"@ || s == "popular"@ || s == "price_asc"@ || s == "price_desc"@
}

pub open spec fn keyword_blank(p: SearchParams) -> bool {
    trimmed(p.keyword@).len() == 0
}

pub const ITEMS_PREFIX: &'static str = "https://booth.pm/ja/items?q=";

pub const BROWSE_PREFIX: &'static str = "https://booth.pm/ja/browse/";

/// The endpoint and query term: category browsing, with or without a
/// keyword, or the generic item search.
pub open spec fn base_url(p: SearchParams, page: u32) -> Seq<char> {
    match p.category {
        Some(c) => if keyword_blank(p) {
            BROWSE_PREFIX@ + url_encoded(c@) + "?page="@ + decimal(page as nat)
        } else {
            BROWSE_PREFIX@ + url_encoded(c@) + "?q="@ + url_encoded(p.keyword@) + "&page="@
                + decimal(page as nat)
        },
        None => ITEMS_PREFIX@ + url_encoded(p.keyword@) + "&page="@ + decimal(page as nat),
    }
}

/// The sort fragment: present only for an allow-listed value.
pub open spec fn sort_part(sort: Option<String>) -> Seq<char> {
    match sort {
        Some(s) => if is_allowed_sort(s@) {
            "&sort="@ + s@
        } else {
            Seq::empty()
        },
        None => Seq::empty(),
    }
}

pub open spec fn bound_part(name: Seq<char>, v: Option<u64>) -> Seq<char> {
    match v {
        Some(m) => name + decimal(m as nat),
        None => Seq::empty(),
    }
}

/// The price fragment: free-only overrides both bounds.
pub open spec fn price_part(p: SearchParams) -> Seq<char> {
    if p.only_free == Some(true) {
        "&max_price=0"@
    } else {
        bound_part("&min_price="@, p.price_min) + bound_part("&max_price="@, p.price_max)
    }
}

pub open spec fn search_url(p: SearchParams, page: u32) -> Seq<char> {
    base_url(p, page) + sort_part(p.sort) + price_part(p)
}

pub open spec fn starts_with(s: Seq<char>, prefix: Seq<char>) -> bool {
    prefix.len() <= s.len() && s.subrange(0, prefix.len() as int) == prefix
}

/// The page to request for an optional page number.
pub fn effective_page(page: Option<u32>) -> (r: u32)
    ensures
        r == page_of(page),
        1 <= r <= MAX_PAGE,
{
    match page {
        None => 1,
        Some(p) => if p < 1 {
            1
        } else if p > MAX_PAGE {
            MAX_PAGE
        } else {
            p
        },
    }
}

/// Checks the input before any request: the category's length and the two
/// price bounds.
pub fn validate_params(params: &SearchParams) -> (r: Result<(), AppError>)
    ensures
        r is Ok <==> params_valid(*params),
        category_too_long(*params) ==> (r matches Err(AppError::ParseError(m)) && m@
            == "Category too long"@),
        !category_too_long(*params) && min_too_large(*params) ==> (r matches Err(
            AppError::ParseError(m),
        ) && m@ == "Invalid price_min"@),
        !category_too_long(*params) && !min_too_large(*params) && max_too_large(*params) ==> (r matches Err(
            AppError::ParseError(m),
        ) && m@ == "Invalid price_max"@),
{
    match &params.category {
        Some(c) => {
            if c.unicode_len() > MAX_CATEGORY_LEN {
                return Err(AppError::ParseError(String::from_str("Category too long")));
            }
        },
        None => {},
    }
    match params.price_min {
        Some(m) => {
            if m > MAX_PRICE {
                return Err(AppError::ParseError(String::from_str("Invalid price_min")));
            }
        },
        None => {},
    }
    match params.price_max {
        Some(m) => {
            if m > MAX_PRICE {
                return Err(AppError::ParseError(String::from_str("Invalid price_max")));
            }
        },
        None => {},
    }
    Ok(())
}

fn allowed_sort(s: &String) -> (r: bool)
    ensures
        r == is_allowed_sort(s@),
{
    *s == String::from_str("new") || *s == String::from_str("popular") || *s == String::from_str(
        "price_asc",
    ) || *s == String::from_str("price_desc")
}

/// The search URL for `params` at page `page`.
pub fn build_search_url(params: &SearchParams, page: u32) -> (r: String)
    ensures
        r@ == search_url(*params, page),
{
    let kw = chars_of(params.keyword.as_str());
    let kw_blank = trim_chars(kw.as_slice()).len() == 0;
    let page_s = decimal_string(page as u64);
    let mut url = match &params.category {
        Some(category) => {
            let mut u = String::from_str(BROWSE_PREFIX);
            u.append(urlencoded(category.as_str()).as_str());
            if kw_blank {
                u.append("?page=");
            } else {
                u.append("?q=");
                u.append(urlencoded(params.keyword.as_str()).as_str());
                u.append("&page=");
            }
            u.append(page_s.as_str());
            u
        },
        None => {
            let mut u = String::from_str(ITEMS_PREFIX);
            u.append(urlencoded(params.keyword.as_str()).as_str());
            u.append("&page=");
            u.append(page_s.as_str());
            u
        },
    };
    assert(url@ =~= base_url(*params, page));
    let ghost base = url@;
    match &params.sort {
        Some(s) => {
            if allowed_sort(s) {
                url.append("&sort=");
                url.append(s.as_str());
            }
        },
        None => {},
    }
    assert(url@ =~= base + sort_part(params.sort));
    let ghost with_sort = url@;
    if params.only_free == Some(true) {
        url.append("&max_price=0");
    } else {
        match params.price_min {
            Some(m) => {
                url.append("&min_price=");
                url.append(decimal_string(m).as_str());
            },
            None => {},
        }
        match params.price_max {
            Some(m) => {
                url.append("&max_price=");
                url.append(decimal_string(m).as_str());
            },
            None => {},
        }
    }
    assert(url@ =~= with_sort + price_part(*params));
    url
}

/// A validated search: the URL to fetch and the page it asks for.
#[derive(Debug, Clone)]
pub struct SearchRequest {
    pub url: String,
    pub page: u32,
}

/// Validates `params` and, when valid, builds the request for them.
pub fn prepare_search(params: &SearchParams) -> (r: Result<SearchRequest, AppError>)
    ensures
        r is Ok <==> params_valid(*params),
        r matches Ok(req) ==> req.page == page_of(params.page) && req.url@ == search_url(
            *params,
            req.page,
        ),
        r matches Err(e) ==> e is ParseError,
{
    match validate_params(params) {
        Err(e) => Err(e),
        Ok(()) => {
            let page = effective_page(params.page);
            let url = build_search_url(params, page);
            Ok(SearchRequest { url, page })
        },
    }
}

/// Every search URL starts with exactly one of the two endpoints: the
/// generic item search or the category browse path.
pub proof fn law_one_endpoint(p: SearchParams, page: u32)
    ensures
        starts_with(search_url(p, page), ITEMS_PREFIX@) != starts_with(
            search_url(p, page),
            BROWSE_PREFIX@,
        ),
        starts_with(search_url(p, page), BROWSE_PREFIX@) <==> p.category is Some,
{
    reveal_strlit("https://booth.pm/ja/items?q=");
    reveal_strlit("https://booth.pm/ja/browse/");
    let u = search_url(p, page);
    let a = ITEMS_PREFIX@;
    let b = BROWSE_PREFIX@;
    assert(a[20] == 'i');
    assert(b[20] == 'b');
    match p.category {
        Some(c) => {
            assert(u.subrange(0, b.len() as int) =~= b);
            assert(u[20] == 'b');
            assert(u.subrange(0, a.len() as int)[20] != a[20]);
        },
        None => {
            assert(u.subrange(0, a.len() as int) =~= a);
            assert(u[20] == 'i');
            assert(u.subrange(0, b.len() as int)[20] != b[20]);
        },
    }
}

/// The sort fragment is `&sort=<value>` when the value is allow-listed, and
/// absent otherwise; it stands between the endpoint and the price fragment.
pub proof fn law_sort_allow_listed(p: SearchParams, page: u32)
    ensures
        search_url(p, page) == base_url(p, page) + sort_part(p.sort) + price_part(p),
        (p.sort matches Some(s) && is_allowed_sort(s@)) ==> sort_part(p.sort) == "&sort="@
            + p.sort.unwrap()@,
        !(p.sort matches Some(s) && is_allowed_sort(s@)) ==> sort_part(p.sort).len() == 0,
{
}

/// Free-only yields `&max_price=0` as the whole price fragment, whatever
/// bounds were given.
pub proof fn law_free_overrides_bounds(p: SearchParams, page: u32)
    requires
        p.only_free == Some(true),
    ensures
        price_part(p) == "&max_price=0"@,
        search_url(p, page) == base_url(p, page) + sort_part(p.sort) + "&max_price=0"@,
{
}

/// The requested page always lies in `[1, 10000]`; an absent or zero page
/// is 1 and a page past the end is the last one.
pub proof fn law_page_clamped(page: Option<u32>)
    ensures
        1 <= page_of(page) <= MAX_PAGE,
        page is None ==> page_of(page) == 1,
        page == Some(0u32) ==> page_of(page) == 1,
        (page matches Some(n) && n > MAX_PAGE) ==> page_of(page) == MAX_PAGE,
        (page matches Some(n) && 1 <= n <= MAX_PAGE) ==> page_of(page) == page.unwrap(),
{
}

} // verus!
