use boothhunter::error::AppError;
use boothhunter::fetch::{
    after_json_attempt, html_attempt_result, html_item_url, json_document_result, json_item_url,
    json_status_error, ItemStep, RateLimiter, MIN_INTERVAL_MS,
};
use boothhunter::html::{item_from_card, item_from_detail, parse_detail_price, parse_item_detail_html, CardFields, DetailFields};
use boothhunter::models::{
    parse_price, BoothJsonCategory, BoothJsonImage, BoothJsonItem, BoothJsonItemDetail, BoothJsonShop,
    BoothJsonTag, JsonPrice,
};

fn empty_detail() -> BoothJsonItemDetail {
    BoothJsonItemDetail {
        id: None,
        name: None,
        description: None,
        price: None,
        category: None,
        shop: None,
        url: None,
        images: None,
        tags: None,
        wish_lists_count: None,
    }
}

#[test]
fn json_price_forms() {
    assert_eq!(parse_price(&Some(JsonPrice::Number(1200))), 1200);
    assert_eq!(parse_price(&Some(JsonPrice::Text("¥1,200".to_string()))), 1200);
    assert_eq!(parse_price(&Some(JsonPrice::Text("free".to_string()))), 0);
    assert_eq!(parse_price(&Some(JsonPrice::Text("99999999999999999999999".to_string()))), 0);
    assert_eq!(parse_price(&Some(JsonPrice::Other)), 0);
    assert_eq!(parse_price(&None), 0);
}

#[test]
fn detail_price_forms() {
    assert_eq!(parse_detail_price(&Some("¥ 1,200".to_string())), 1200);
    assert_eq!(parse_detail_price(&Some("¥\u{a0}1,200".to_string())), 1200);
    assert_eq!(parse_detail_price(&Some("￥3,000 ".to_string())), 3000);
    assert_eq!(parse_detail_price(&Some("price on request".to_string())), 0);
    assert_eq!(parse_detail_price(&None), 0);
}

#[test]
fn json_scenario_widget() {
    let mut d = empty_detail();
    d.id = Some(42);
    d.name = Some("Widget".to_string());
    d.price = Some(JsonPrice::Text("¥500".to_string()));
    d.images = Some(vec![BoothJsonImage { original: None, resized: Some("http://x/r.png".to_string()) }]);
    let outcome = json_document_result(Ok(d));
    match after_json_attempt(42, outcome) {
        ItemStep::Done(Ok(item)) => {
            assert_eq!(item.id, 42);
            assert_eq!(item.name, "Widget");
            assert_eq!(item.price, 500);
            assert_eq!(item.images, vec!["http://x/r.png".to_string()]);
            assert_eq!(item.url, "https://booth.pm/ja/items/42");
            assert!(item.tags.is_empty());
        }
        other => panic!("unexpected {:?}", other),
    }
}

#[test]
fn json_fields_full() {
    let d = BoothJsonItem {
        id: Some(7),
        name: None,
        description: Some("desc".to_string()),
        price: Some(JsonPrice::Number(300)),
        category: Some(BoothJsonCategory { name: Some("Cat".to_string()) }),
        shop: Some(BoothJsonShop { name: Some("Shop".to_string()), url: None }),
        url: Some("https://example/7".to_string()),
        images: Some(vec![
            BoothJsonImage { original: Some("o1".to_string()), resized: Some("r1".to_string()) },
            BoothJsonImage { original: None, resized: None },
            BoothJsonImage { original: None, resized: Some("r3".to_string()) },
        ]),
        tags: Some(vec![
            BoothJsonTag { name: Some("a".to_string()) },
            BoothJsonTag { name: None },
            BoothJsonTag { name: Some("b".to_string()) },
        ]),
        wish_lists_count: Some(3),
    };
    let item = d.into_booth_item().unwrap();
    assert_eq!(item.id, 7);
    assert_eq!(item.name, "");
    assert_eq!(item.description.as_deref(), Some("desc"));
    assert_eq!(item.price, 300);
    assert_eq!(item.category_name.as_deref(), Some("Cat"));
    assert_eq!(item.shop_name.as_deref(), Some("Shop"));
    assert_eq!(item.url, "https://example/7");
    assert_eq!(item.images, vec!["o1", "r3"]);
    assert_eq!(item.tags, vec!["a", "b"]);
}

#[test]
fn json_without_id_is_unusable() {
    let mut d = empty_detail();
    d.name = Some("No id".to_string());
    match json_document_result(Ok(d)) {
        Err(AppError::ParseError(m)) => assert_eq!(m, "Failed to parse item detail"),
        other => panic!("unexpected {:?}", other),
    }
}

#[test]
fn json_failures_fall_back_once() {
    let failures = vec![
        AppError::Http("timeout".to_string()),
        AppError::ParseError("expected value".to_string()),
        AppError::NotFound("Item 5 not found".to_string()),
    ];
    for e in failures {
        match after_json_attempt(5, Err(e)) {
            ItemStep::FetchHtml(url) => assert_eq!(url, "https://booth.pm/ja/items/5"),
            other => panic!("unexpected {:?}", other),
        }
    }
    match after_json_attempt(5, Err(AppError::RateLimited)) {
        ItemStep::Done(Err(AppError::RateLimited)) => {}
        other => panic!("unexpected {:?}", other),
    }
}

#[test]
fn json_status_outcomes() {
    assert!(json_status_error(9, 200).is_none());
    assert!(matches!(json_status_error(9, 429), Some(AppError::RateLimited)));
    match json_status_error(9, 404) {
        Some(AppError::NotFound(m)) => assert_eq!(m, "Item 9 not found"),
        other => panic!("unexpected {:?}", other),
    }
    match json_document_result(Err("EOF while parsing".to_string())) {
        Err(AppError::ParseError(m)) => assert_eq!(m, "EOF while parsing"),
        other => panic!("unexpected {:?}", other),
    }
}

#[test]
fn item_urls() {
    assert_eq!(json_item_url(123), "https://booth.pm/ja/items/123.json");
    assert_eq!(html_item_url(0), "https://booth.pm/ja/items/0");
    assert_eq!(html_item_url(u64::MAX), "https://booth.pm/ja/items/18446744073709551615");
}

const DETAIL_FIXTURE: &str = r#"<html><body>
<div data-product-name="Ignored because later in priority">x</div>
<h2 class="u-tpg-title2" data-product-name="Attr Name">  Text Name </h2>
<div class="item-price"><span class="u-tpg-body1">¥ 1,200</span></div>
<div class="item-description">
   A fine item.
</div>
<div class="item-gallery">
  <img data-origin="https://img/o.png" data-original="https://img/x.png" src="https://img/s1.png">
  <img data-original="https://img/orig2.png" src="https://img/s2.png">
  <img src="https://img/s3.png">
</div>
<div class="shop-name"> The Shop </div>
<div class="item-tag"><a> tag1 </a><a>   </a><a>tag2</a></div>
<div class="item-category"><a>Avatars</a></div>
</body></html>"#;

#[test]
fn detail_fixture_parsed() {
    let item = parse_item_detail_html(DETAIL_FIXTURE, 99).unwrap();
    assert_eq!(item.id, 99);
    assert_eq!(item.name, "Attr Name");
    assert_eq!(item.price, 1200);
    assert_eq!(item.description.as_deref(), Some("A fine item."));
    assert_eq!(item.images, vec!["https://img/o.png", "https://img/orig2.png", "https://img/s3.png"]);
    assert_eq!(item.shop_name.as_deref(), Some("The Shop"));
    assert_eq!(item.tags, vec!["tag1", "tag2"]);
    assert_eq!(item.category_name.as_deref(), Some("Avatars"));
    assert_eq!(item.url, "https://booth.pm/ja/items/99");
}

#[test]
fn detail_title_text_when_no_attribute() {
    let html = r#"<div class="item-name"><h1>  Plain Title </h1></div><span class="price">abc</span>"#;
    let item = parse_item_detail_html(html, 1).unwrap();
    assert_eq!(item.name, "Plain Title");
    assert_eq!(item.price, 0);
    assert!(item.description.is_none());
    assert!(item.images.is_empty());
}

#[test]
fn detail_without_title_is_not_found() {
    let html = "<html><body><div class=\"price\">¥500</div></body></html>";
    assert!(parse_item_detail_html(html, 3).is_none());
    match html_attempt_result(3, 200, html) {
        Err(AppError::NotFound(m)) => assert_eq!(m, "Item 3 not found in HTML"),
        other => panic!("unexpected {:?}", other),
    }
    match html_attempt_result(3, 500, DETAIL_FIXTURE) {
        Err(AppError::NotFound(m)) => assert_eq!(m, "Item 3 not found in HTML"),
        other => panic!("unexpected {:?}", other),
    }
    assert!(matches!(html_attempt_result(3, 429, DETAIL_FIXTURE), Err(AppError::RateLimited)));
    assert_eq!(html_attempt_result(3, 200, DETAIL_FIXTURE).unwrap().name, "Attr Name");
}

#[test]
fn detail_fields_to_item() {
    let f = DetailFields {
        title_attr: None,
        title_text: Some("   ".to_string()),
        price_text: Some("1".to_string()),
        description_text: None,
        images: vec![],
        shop_text: None,
        tag_texts: vec![],
        category_text: None,
    };
    assert!(item_from_detail(&f, 1).is_none());
}

#[test]
fn card_fields_to_item() {
    let f = CardFields {
        id_attr: Some("12".to_string()),
        name_attr: Some("".to_string()),
        price_attr: Some("+40".to_string()),
        images: vec!["i".to_string()],
        shop_text: Some(" s ".to_string()),
        category_text: Some("".to_string()),
        title_text: Some(" T ".to_string()),
    };
    let item = item_from_card(&f).unwrap();
    assert_eq!(item.id, 12);
    assert_eq!(item.name, "T");
    assert_eq!(item.price, 40);
    assert_eq!(item.shop_name.as_deref(), Some("s"));
    assert!(item.category_name.is_none());
    let mut g = f.clone();
    g.id_attr = None;
    assert!(item_from_card(&g).is_none());
}

#[test]
fn limiter_spaces_back_to_back_calls() {
    let mut rl = RateLimiter::new();
    let clock_start: u64 = 5_000;
    let w1 = rl.acquire(clock_start);
    assert_eq!(w1, 0);
    let issued1 = clock_start + w1;
    let w2 = rl.acquire(clock_start + 10);
    let issued2 = clock_start + 10 + w2;
    assert_eq!(w2, 990);
    assert!(issued2 - issued1 >= MIN_INTERVAL_MS);
    let w3 = rl.acquire(issued2 + 1500);
    assert_eq!(w3, 0);
    assert_eq!(rl.last_issued, Some(issued2 + 1500));
}

#[test]
fn error_messages() {
    assert_eq!(AppError::RateLimited.message(), "Rate limited, please try again later");
    assert_eq!(AppError::NotFound("x".to_string()).message(), "Item not found: x");
    assert_eq!(AppError::Http("boom".to_string()).message(), "HTTP request failed: boom");
    assert_eq!(AppError::ParseError("p".to_string()).message(), "Failed to parse HTML");
    assert_eq!(AppError::Database("d".to_string()).message(), "Database error: d");
}
