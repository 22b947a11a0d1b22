use boothhunter::count::extract_count_from_text;
use boothhunter::error::AppError;
use boothhunter::fetch::{classify_status, search_response, Classification};
use boothhunter::html::{parse_search_html, parse_total_count};
use boothhunter::models::SearchParams;
use boothhunter::query::{build_search_url, effective_page, prepare_search, validate_params};
use boothhunter::urlenc::urlencoded;

fn params(keyword: &str) -> SearchParams {
    SearchParams {
        keyword: keyword.to_string(),
        page: None,
        category: None,
        sort: None,
        only_free: None,
        price_min: None,
        price_max: None,
    }
}

fn percent_decode(s: &str) -> String {
    let b = s.as_bytes();
    let mut out = Vec::new();
    let mut i = 0;
    while i < b.len() {
        if b[i] == b'%' && i + 2 < b.len() {
            let hex = std::str::from_utf8(&b[i + 1..i + 3]).unwrap();
            out.push(u8::from_str_radix(hex, 16).unwrap());
            i += 3;
        } else {
            out.push(b[i]);
            i += 1;
        }
    }
    String::from_utf8(out).unwrap()
}

#[test]
fn generic_search_url() {
    let p = params("hello world");
    assert_eq!(build_search_url(&p, 1), "https://booth.pm/ja/items?q=hello%20world&page=1");
}

#[test]
fn browse_url_without_keyword() {
    let mut p = params("  ");
    p.category = Some("3Dモデル".to_string());
    let url = build_search_url(&p, 2);
    assert_eq!(url, "https://booth.pm/ja/browse/3D%E3%83%A2%E3%83%87%E3%83%AB?page=2");
    assert!(!url.contains("/ja/items?"));
}

#[test]
fn browse_url_with_keyword() {
    let mut p = params("hat");
    p.category = Some("fashion".to_string());
    let url = build_search_url(&p, 3);
    assert_eq!(url, "https://booth.pm/ja/browse/fashion?q=hat&page=3");
}

#[test]
fn sort_allow_listed() {
    for s in ["new", "popular", "price_asc", "price_desc"] {
        let mut p = params("x");
        p.sort = Some(s.to_string());
        assert_eq!(build_search_url(&p, 1), format!("https://booth.pm/ja/items?q=x&page=1&sort={}", s));
    }
}

#[test]
fn sort_not_allow_listed_is_dropped() {
    for s in ["newest", "new&admin=1", "", "NEW"] {
        let mut p = params("x");
        p.sort = Some(s.to_string());
        let url = build_search_url(&p, 1);
        assert_eq!(url, "https://booth.pm/ja/items?q=x&page=1");
        assert!(!url.contains("sort="));
    }
}

#[test]
fn only_free_overrides_bounds() {
    let mut p = params("x");
    p.only_free = Some(true);
    p.price_min = Some(100);
    p.price_max = Some(500);
    let url = build_search_url(&p, 1);
    assert_eq!(url, "https://booth.pm/ja/items?q=x&page=1&max_price=0");
    assert!(!url.contains("min_price"));
}

#[test]
fn price_bounds_emitted() {
    let mut p = params("x");
    p.only_free = Some(false);
    p.price_min = Some(100);
    p.price_max = Some(500);
    assert_eq!(
        build_search_url(&p, 1),
        "https://booth.pm/ja/items?q=x&page=1&min_price=100&max_price=500"
    );
    p.price_min = None;
    assert_eq!(build_search_url(&p, 1), "https://booth.pm/ja/items?q=x&page=1&max_price=500");
}

#[test]
fn page_clamped() {
    assert_eq!(effective_page(None), 1);
    assert_eq!(effective_page(Some(0)), 1);
    assert_eq!(effective_page(Some(1)), 1);
    assert_eq!(effective_page(Some(42)), 42);
    assert_eq!(effective_page(Some(10000)), 10000);
    assert_eq!(effective_page(Some(50000)), 10000);
    assert_eq!(effective_page(Some(u32::MAX)), 10000);
}

#[test]
fn prepare_search_uses_clamped_page() {
    let mut p = params("x");
    p.page = Some(50000);
    let req = prepare_search(&p).unwrap();
    assert_eq!(req.page, 10000);
    assert_eq!(req.url, "https://booth.pm/ja/items?q=x&page=10000");
}

#[test]
fn percent_encoding_reserved_and_multibyte() {
    let text = "a b&c=d#é~_.-";
    let enc = urlencoded(text);
    assert_eq!(enc, "a%20b%26c%3Dd%23%C3%A9~_.-");
    assert_eq!(percent_decode(&enc), text);
}

#[test]
fn percent_encoding_round_trips() {
    for text in ["", "hello", "&=#?/ +", "日本語のテキスト", "emoji 🎉 mix", "100%"] {
        let enc = urlencoded(text);
        assert!(enc.chars().all(|c| c.is_ascii_alphanumeric() || "-_.~%".contains(c)));
        assert_eq!(percent_decode(&enc), text);
    }
}

#[test]
fn category_too_long_rejected() {
    let mut p = params("x");
    p.category = Some("a".repeat(101));
    match validate_params(&p) {
        Err(AppError::ParseError(m)) => assert_eq!(m, "Category too long"),
        other => panic!("unexpected {:?}", other),
    }
    p.category = Some("a".repeat(100));
    assert!(validate_params(&p).is_ok());
}

#[test]
fn price_bounds_rejected() {
    let mut p = params("x");
    p.price_min = Some(1_000_000_000);
    match prepare_search(&p) {
        Err(AppError::ParseError(m)) => assert_eq!(m, "Invalid price_min"),
        other => panic!("unexpected {:?}", other),
    }
    p.price_min = Some(999_999_999);
    p.price_max = Some(1_000_000_000);
    match prepare_search(&p) {
        Err(AppError::ParseError(m)) => assert_eq!(m, "Invalid price_max"),
        other => panic!("unexpected {:?}", other),
    }
    p.price_max = Some(999_999_999);
    assert!(prepare_search(&p).is_ok());
}

#[test]
fn count_from_text() {
    assert_eq!(extract_count_from_text("検索結果 1,234件"), Some(1234));
    assert_eq!(extract_count_from_text("56点の商品"), Some(56));
    assert_eq!(extract_count_from_text("0件 then 7件"), Some(7));
    assert_eq!(extract_count_from_text("12 件"), None);
    assert_eq!(extract_count_from_text("no numbers"), None);
    assert_eq!(extract_count_from_text(""), None);
}

#[test]
fn status_classification() {
    assert_eq!(classify_status(200), Classification::Success);
    assert_eq!(classify_status(204), Classification::Success);
    assert_eq!(classify_status(429), Classification::RateLimited);
    assert_eq!(classify_status(404), Classification::Failed(404));
    assert_eq!(classify_status(301), Classification::Failed(301));
}

const SEARCH_FIXTURE: &str = r#"<html><head><title>BOOTH</title></head><body>
<div class="u-tpg-caption1">検索結果 1,234件</div>
<ul>
<li class="item-card" data-product-id="111" data-product-name="First" data-product-price="500">
  <a class="js-thumbnail-image" data-original="https://img/111a.png"></a>
  <a class="js-thumbnail-image" data-original="https://img/111b.png"></a>
  <div class="item-card__shop-name"> Shop One </div>
  <a class="item-card__category-anchor">3D Models</a>
</li>
<li class="item-card" data-product-id="222" data-product-name="" data-product-price="abc">
  <div class="item-card__title"><a> Second Title </a></div>
</li>
<li class="item-card" data-product-id="333" data-product-name="Third" data-product-price="0">
  <div class="item-card__shop-name">   </div>
</li>
</ul></body></html>"#;

#[test]
fn search_fixture_three_items() {
    let (items, total) = parse_search_html(SEARCH_FIXTURE);
    assert_eq!(items.len(), 3);
    assert_eq!(items.iter().map(|i| i.id).collect::<Vec<_>>(), vec![111, 222, 333]);
    assert_eq!(total, Some(1234));
    let first = &items[0];
    assert_eq!(first.name, "First");
    assert_eq!(first.price, 500);
    assert_eq!(first.images, vec!["https://img/111a.png", "https://img/111b.png"]);
    assert_eq!(first.shop_name.as_deref(), Some("Shop One"));
    assert_eq!(first.category_name.as_deref(), Some("3D Models"));
    assert_eq!(first.url, "https://booth.pm/ja/items/111");
    assert!(first.description.is_none());
    assert!(first.tags.is_empty());
    assert_eq!(items[1].name, "Second Title");
    assert_eq!(items[1].price, 0);
    assert!(items[2].shop_name.is_none());
}

#[test]
fn card_without_name_is_skipped() {
    let html = r#"<ul><li class="item-card" data-product-id="5" data-product-name=""></li>
<li class="item-card" data-product-id="x" data-product-name="Bad id"></li>
<li class="item-card" data-product-id="6" data-product-name="Kept"></li></ul>"#;
    let (items, total) = parse_search_html(html);
    assert_eq!(items.len(), 1);
    assert_eq!(items[0].id, 6);
    assert_eq!(total, None);
}

#[test]
fn single_card() {
    let card = r#"<ul><li class="item-card" data-product-id="77" data-product-name="Solo">
<div class="item-card__title"><a>Other title</a></div>
<li class="unrelated"><a class="js-thumbnail-image" data-original="https://img/elsewhere.png"></a></li>
</li></ul>
<a class="js-thumbnail-image" data-original="https://img/outside.png"></a>"#;
    let (items, _) = parse_search_html(card);
    assert_eq!(items.len(), 1);
    let item = &items[0];
    assert_eq!(item.id, 77);
    assert_eq!(item.name, "Solo");
    assert_eq!(item.price, 0);
    assert!(!item.images.contains(&"https://img/outside.png".to_string()));
}

#[test]
fn total_count_priority_and_title() {
    let html = "<html><head><title>全 88件 - BOOTH</title></head><body><p class=\"u-tpg-body2\">nothing</p></body></html>";
    assert_eq!(parse_total_count(html), Some(88));
    let html2 = "<html><head><title>全 88件</title></head><body><p class=\"search-result-count\">9点</p></body></html>";
    assert_eq!(parse_total_count(html2), Some(9));
}

#[test]
fn search_response_statuses() {
    let req = prepare_search(&params("x")).unwrap();
    match search_response(&req, 429, SEARCH_FIXTURE) {
        Err(AppError::RateLimited) => {}
        other => panic!("unexpected {:?}", other),
    }
    match search_response(&req, 404, SEARCH_FIXTURE) {
        Err(AppError::NotFound(m)) => assert_eq!(m, "Search returned 404"),
        other => panic!("unexpected {:?}", other),
    }
    let res = search_response(&req, 200, SEARCH_FIXTURE).unwrap();
    assert_eq!(res.items.len(), 3);
    assert_eq!(res.total_count, Some(1234));
    assert_eq!(res.current_page, 1);
}
