//! Extraction of items from the marketplace's HTML pages.
//!
//! A "first matching" lookup tries several locators in a fixed priority
//! order and takes the first that matches at least one element; the later
//! ones are not consulted.
use vstd::prelude::*;
use vstd::string::*;
use crate::count::{first_count, first_count_in};
use crate::dom::{
    attr_views, matched_attrs, matched_attrs_within, matched_texts, matched_texts_within, select_attrs,
    select_attrs_within, select_texts, select_texts_within,
};
use crate::models::{BoothItem, canonical_url, item_url, view_opt, views};
use crate::text::{chars_of, parse_u64, parsed_u64, string_of, trim_chars, trimmed};

verus! {

// ── Locators ──────────────────────────────────────────────

pub const CARD_SEL: &'static str = "li.item-card[data-product-id]";

pub const CARD_IMG_SEL: &'static str = "a.js-thumbnail-image[data-original]";

pub const CARD_SHOP_SEL: &'static str = ".item-card__shop-name";

pub const CARD_CAT_SEL: &'static str = ".item-card__category-anchor";

pub const DETAIL_IMG_SEL: &'static str = ".item-gallery img, .slick-slide img, .market-item-detail-item-image img";

pub const DETAIL_TAG_SEL: &'static str = ".item-tag a, a.tag, .item-info-tag a";

pub const CARD_TITLE_SEL: &'static str = ".item-card__title-anchor--multiline";

pub const CARD_TITLE_ALT_SEL: &'static str = ".item-card__title a";

pub open spec fn title_sels() -> Seq<Seq<char>> {
    seq![".u-tpg-title2"@, "h2.u-tpg-title2"@, ".item-name h1"@, "[data-product-name]"@]
}

pub open spec fn price_sels() -> Seq<Seq<char>> {
    seq![".item-price .u-tpg-body1"@, ".price"@, ".u-tpg-title2-price"@]
}

pub open spec fn desc_sels() -> Seq<Seq<char>> {
    seq![".u-mb-400 .u-tpg-body1"@, ".item-description"@, ".description"@]
}

pub open spec fn shop_sels() -> Seq<Seq<char>> {
    seq![".shop-name"@, ".shop-name-mini a"@, ".u-d-ib a"@]
}

pub open spec fn cat_sels() -> Seq<Seq<char>> {
    seq![".item-category a"@, ".category-name a"@]
}

pub open spec fn count_sels() -> Seq<Seq<char>> {
    seq![".u-tpg-caption1"@, ".search-result-count"@, ".u-tpg-body2"@, "title"@]
}

pub open spec fn strs(v: Seq<&str>) -> Seq<Seq<char>> {
    v.map_values(|s: &str| s@)
}

// ── Shared derivations ────────────────────────────────────

/// The first locator, from position `k` on, that matches an element.
pub open spec fn hit_from(html: Seq<char>, sels: Seq<Seq<char>>, k: int) -> Option<int>
    decreases sels.len() - k,
{
    if k < 0 || k >= sels.len() {
        None
    } else if matched_texts(html, sels[k]).len() > 0 {
        Some(k)
    } else {
        hit_from(html, sels, k + 1)
    }
}

/// The text of the first element of the first locator that matches.
pub open spec fn lead_text(html: Seq<char>, sels: Seq<Seq<char>>) -> Option<Seq<char>> {
    match hit_from(html, sels, 0) {
        Some(i) => Some(matched_texts(html, sels[i])[0]),
        None => None,
    }
}

/// The attribute of the first element of the first locator that matches.
pub open spec fn lead_attr(html: Seq<char>, sels: Seq<Seq<char>>, attr: Seq<char>) -> Option<
    Seq<char>,
> {
    match hit_from(html, sels, 0) {
        Some(i) => first_of(matched_attrs(html, sels[i], attr)),
        None => None,
    }
}

pub open spec fn first_of(s: Seq<Option<Seq<char>>>) -> Option<Seq<char>> {
    if s.len() > 0 {
        s[0]
    } else {
        None
    }
}

/// A text, trimmed; absent when nothing is left.
pub open spec fn nonblank(t: Option<Seq<char>>) -> Option<Seq<char>> {
    match t {
        Some(s) => if trimmed(s).len() > 0 {
            Some(trimmed(s))
        } else {
            None
        },
        None => None,
    }
}

/// The texts, trimmed, in order, with the blank ones dropped.
pub open spec fn nonblank_all(ts: Seq<Seq<char>>) -> Seq<Seq<char>>
    decreases ts.len(),
{
    if ts.len() == 0 {
        Seq::empty()
    } else if trimmed(ts.last()).len() > 0 {
        nonblank_all(ts.drop_last()).push(trimmed(ts.last()))
    } else {
        nonblank_all(ts.drop_last())
    }
}

/// The present values, in order.
pub open spec fn somes(s: Seq<Option<Seq<char>>>) -> Seq<Seq<char>>
    decreases s.len(),
{
    if s.len() == 0 {
        Seq::empty()
    } else {
        match s.last() {
            Some(v) => somes(s.drop_last()).push(v),
            None => somes(s.drop_last()),
        }
    }
}

pub open spec fn is_price_noise(c: char) -> bool {
    c == '¥' || c == ',' || c == '￥' || c == ' ' || c == '\u{a0}'
}

/// `t` without currency signs, separators and (non-breaking) spaces.
pub open spec fn strip_price_noise(t: Seq<char>) -> Seq<char>
    decreases t.len(),
{
    if t.len() == 0 {
        Seq::empty()
    } else if is_price_noise(t.last()) {
        strip_price_noise(t.drop_last())
    } else {
        strip_price_noise(t.drop_last()).push(t.last())
    }
}

/// The price shown in a detail page's price text; 0 when unreadable.
pub open spec fn detail_price(t: Option<Seq<char>>) -> u64 {
    match t {
        Some(s) => match parsed_u64(trimmed(strip_price_noise(s))) {
            Some(n) => n,
            None => 0,
        },
        None => 0,
    }
}

/// The image URL of the `i`-th gallery image: its lazy-load origin, else its
/// lazy-load original, else its `src`.
pub open spec fn image_alt(
    a: Seq<Option<Seq<char>>>,
    b: Seq<Option<Seq<char>>>,
    c: Seq<Option<Seq<char>>>,
    i: int,
) -> Option<Seq<char>> {
    if a[i] is Some {
        a[i]
    } else if i < b.len() && b[i] is Some {
        b[i]
    } else if i < c.len() {
        c[i]
    } else {
        None
    }
}

pub open spec fn image_picks(
    a: Seq<Option<Seq<char>>>,
    b: Seq<Option<Seq<char>>>,
    c: Seq<Option<Seq<char>>>,
    n: int,
) -> Seq<Seq<char>>
    decreases n,
{
    if n <= 0 {
        Seq::empty()
    } else {
        match image_alt(a, b, c, n - 1) {
            Some(u) => image_picks(a, b, c, n - 1).push(u),
            None => image_picks(a, b, c, n - 1),
        }
    }
}

// ── Exec helpers ──────────────────────────────────────────

fn first_hit(html: &str, sels: &Vec<&str>) -> (r: Option<(usize, Vec<String>)>)
    ensures
        r is None ==> hit_from(html@, strs(sels@), 0) is None,
        r matches Some(p) ==> hit_from(html@, strs(sels@), 0) == Some(p.0 as int) && p.0
            < sels@.len() && views(p.1@) == matched_texts(html@, sels@[p.0 as int]@) && p.1@.len()
            > 0,
{
    let ghost ss = strs(sels@);
    let mut k: usize = 0;
    while k < sels.len()
        invariant
            k <= sels@.len(),
            ss == strs(sels@),
            hit_from(html@, ss, 0) == hit_from(html@, ss, k as int),
        decreases sels@.len() - k,
    {
        let ts = select_texts(html, sels[k]);
        if ts.len() > 0 {
            return Some((k, ts));
        }
        k = k + 1;
    }
    None
}

/// The text of the first element of the first locator that matches.
fn lead_text_of(html: &str, sels: &Vec<&str>) -> (r: Option<String>)
    ensures
        view_opt(r) == lead_text(html@, strs(sels@)),
{
    match first_hit(html, sels) {
        Some((_, ts)) => {
            assert(views(ts@)[0] == ts@[0]@);
            Some(ts[0].clone())
        },
        None => None,
    }
}

fn clone_strs(v: &Vec<String>) -> (r: Vec<String>)
    ensures
        views(r@) == views(v@),
{
    let mut r: Vec<String> = Vec::new();
    let mut i: usize = 0;
    while i < v.len()
        invariant
            i <= v@.len(),
            r@.len() == i,
            forall|k: int| 0 <= k < i ==> #[trigger] r@[k]@ == v@[k]@,
        decreases v@.len() - i,
    {
        let c = v[i].clone();
        r.push(c);
        i = i + 1;
    }
    assert(views(r@) =~= views(v@));
    r
}

fn nonblank_of(t: &Option<String>) -> (r: Option<String>)
    ensures
        view_opt(r) == nonblank(view_opt(*t)),
{
    match t {
        Some(s) => {
            let cs = chars_of(s.as_str());
            let tr = trim_chars(cs.as_slice());
            if tr.len() > 0 {
                Some(string_of(tr.as_slice()))
            } else {
                None
            }
        },
        None => None,
    }
}

fn nonblank_all_of(ts: &Vec<String>) -> (r: Vec<String>)
    ensures
        views(r@) == nonblank_all(views(ts@)),
{
    let ghost all = views(ts@);
    let mut r: Vec<String> = Vec::new();
    let mut i: usize = 0;
    assert(views(r@) =~= nonblank_all(all.subrange(0, 0)));
    while i < ts.len()
        invariant
            i <= ts@.len(),
            all == views(ts@),
            views(r@) == nonblank_all(all.subrange(0, i as int)),
        decreases ts@.len() - i,
    {
        assert(all.subrange(0, i + 1).drop_last() =~= all.subrange(0, i as int));
        assert(all.subrange(0, i + 1).last() == ts@[i as int]@);
        let cs = chars_of(ts[i].as_str());
        let tr = trim_chars(cs.as_slice());
        if tr.len() > 0 {
            r.push(string_of(tr.as_slice()));
        }
        assert(views(r@) =~= nonblank_all(all.subrange(0, i + 1)));
        i = i + 1;
    }
    assert(all.subrange(0, all.len() as int) =~= all);
    r
}

fn somes_of(s: &Vec<Option<String>>) -> (r: Vec<String>)
    ensures
        views(r@) == somes(s@.map_values(|a: Option<String>| view_opt(a))),
{
    let ghost all = s@.map_values(|a: Option<String>| view_opt(a));
    let mut r: Vec<String> = Vec::new();
    let mut i: usize = 0;
    assert(views(r@) =~= somes(all.subrange(0, 0)));
    while i < s.len()
        invariant
            i <= s@.len(),
            all == s@.map_values(|a: Option<String>| view_opt(a)),
            views(r@) == somes(all.subrange(0, i as int)),
        decreases s@.len() - i,
    {
        assert(all.subrange(0, i + 1).drop_last() =~= all.subrange(0, i as int));
        assert(all.subrange(0, i + 1).last() == view_opt(s@[i as int]));
        match &s[i] {
            Some(v) => {
                r.push(v.clone());
            },
            None => {},
        }
        assert(views(r@) =~= somes(all.subrange(0, i + 1)));
        i = i + 1;
    }
    assert(all.subrange(0, all.len() as int) =~= all);
    r
}

fn strip_price_noise_of(t: &[char]) -> (r: Vec<char>)
    ensures
        r@ == strip_price_noise(t@),
{
    let mut r: Vec<char> = Vec::new();
    let mut i: usize = 0;
    while i < t.len()
        invariant
            i <= t@.len(),
            r@ == strip_price_noise(t@.subrange(0, i as int)),
        decreases t@.len() - i,
    {
        assert(t@.subrange(0, i + 1).drop_last() =~= t@.subrange(0, i as int));
        let c = t[i];
        if !(c == '¥' || c == ',' || c == '￥' || c == ' ' || c == '\u{a0}') {
            r.push(c);
        }
        i = i + 1;
    }
    assert(t@.subrange(0, t@.len() as int) =~= t@);
    r
}

/// Reads the price text of a detail page: currency signs, separators and
/// spaces (ordinary or non-breaking) are removed, and anything unreadable
/// is 0.
pub fn parse_detail_price(text: &Option<String>) -> (r: u64)
    ensures
        r == detail_price(view_opt(*text)),
{
    match text {
        Some(s) => {
            let cs = chars_of(s.as_str());
            let stripped = strip_price_noise_of(cs.as_slice());
            let tr = trim_chars(stripped.as_slice());
            match parse_u64(tr.as_slice()) {
                Some(n) => n,
                None => 0,
            }
        },
        None => 0,
    }
}

fn parse_opt_u64(t: &Option<String>) -> (r: Option<u64>)
    ensures
        r == match view_opt(*t) {
            Some(s) => parsed_u64(s),
            None => None,
        },
{
    match t {
        Some(s) => {
            let cs = chars_of(s.as_str());
            parse_u64(cs.as_slice())
        },
        None => None,
    }
}

fn first_attr(v: &Vec<Option<String>>) -> (r: Option<String>)
    ensures
        view_opt(r) == first_of(v@.map_values(|a: Option<String>| view_opt(a))),
{
    if v.len() > 0 {
        match &v[0] {
            Some(s) => Some(s.clone()),
            None => None,
        }
    } else {
        None
    }
}

// ── Search result cards ───────────────────────────────────

/// What a search result card offers, as read from its markup.
#[derive(Debug, Clone)]
pub struct CardFields {
    pub id_attr: Option<String>,
    pub name_attr: Option<String>,
    pub price_attr: Option<String>,
    pub images: Vec<String>,
    pub shop_text: Option<String>,
    pub category_text: Option<String>,
    pub title_text: Option<String>,
}

pub struct CardView {
    pub id_attr: Option<Seq<char>>,
    pub name_attr: Option<Seq<char>>,
    pub price_attr: Option<Seq<char>>,
    pub images: Seq<Seq<char>>,
    pub shop_text: Option<Seq<char>>,
    pub category_text: Option<Seq<char>>,
    pub title_text: Option<Seq<char>>,
}

impl View for CardFields {
    type V = CardView;

    open spec fn view(&self) -> CardView {
        CardView {
            id_attr: view_opt(self.id_attr),
            name_attr: view_opt(self.name_attr),
            price_attr: view_opt(self.price_attr),
            images: views(self.images@),
            shop_text: view_opt(self.shop_text),
            category_text: view_opt(self.category_text),
            title_text: view_opt(self.title_text),
        }
    }
}

pub open spec fn at_or_none(s: Seq<Option<Seq<char>>>, i: int) -> Option<Seq<char>> {
    if 0 <= i < s.len() {
        s[i]
    } else {
        None
    }
}

pub open spec fn row<T>(s: Seq<Seq<T>>, i: int) -> Seq<T> {
    if 0 <= i < s.len() {
        s[i]
    } else {
        Seq::empty()
    }
}

/// For card `i`, the text of the first descendant of the first locator
/// (from position `k` on) that matches inside it; each locator is given by
/// its per-card text lists.
pub open spec fn lead_in(ls: Seq<Seq<Seq<Seq<char>>>>, i: int, k: int) -> Option<Seq<char>>
    decreases ls.len() - k,
{
    if k < 0 || k >= ls.len() {
        None
    } else if row(ls[k], i).len() > 0 {
        Some(row(ls[k], i)[0])
    } else {
        lead_in(ls, i, k + 1)
    }
}

pub open spec fn within(html: Seq<char>, inner: Seq<char>) -> Seq<Seq<Seq<char>>> {
    matched_texts_within(html, CARD_SEL@, inner)
}

/// The number of search result cards on a page.
pub open spec fn card_count(html: Seq<char>) -> int {
    matched_attrs(html, CARD_SEL@, "data-product-id"@).len() as int
}

/// What the `i`-th card of a search page offers: its own data attributes,
/// and what its descendants hold.
pub open spec fn card_view_at(html: Seq<char>, i: int) -> CardView {
    CardView {
        id_attr: at_or_none(matched_attrs(html, CARD_SEL@, "data-product-id"@), i),
        name_attr: at_or_none(matched_attrs(html, CARD_SEL@, "data-product-name"@), i),
        price_attr: at_or_none(matched_attrs(html, CARD_SEL@, "data-product-price"@), i),
        images: somes(row(matched_attrs_within(html, CARD_SEL@, CARD_IMG_SEL@, "data-original"@), i)),
        shop_text: lead_in(seq![within(html, CARD_SHOP_SEL@)], i, 0),
        category_text: lead_in(seq![within(html, CARD_CAT_SEL@)], i, 0),
        title_text: lead_in(seq![within(html, CARD_TITLE_SEL@), within(html, CARD_TITLE_ALT_SEL@)], i, 0),
    }
}

pub open spec fn card_id(v: CardView) -> Option<u64> {
    match v.id_attr {
        Some(s) => parsed_u64(s),
        None => None,
    }
}

/// The card's name: its data attribute, else its trimmed title text.
pub open spec fn card_name(v: CardView) -> Seq<char> {
    match v.name_attr {
        Some(n) if n.len() > 0 => n,
        _ => match v.title_text {
            Some(t) => trimmed(t),
            None => Seq::empty(),
        },
    }
}

pub open spec fn card_price(v: CardView) -> u64 {
    match v.price_attr {
        Some(s) => match parsed_u64(s) {
            Some(n) => n,
            None => 0,
        },
        None => 0,
    }
}

/// A card yields an item when it has a numeric id and a name.
pub open spec fn card_ok(v: CardView) -> bool {
    card_id(v) is Some && card_name(v).len() > 0
}

pub open spec fn card_item_is(v: CardView, item: BoothItem) -> bool {
    &&& item.id == card_id(v).unwrap()
    &&& item.name@ == card_name(v)
    &&& item.description is None
    &&& item.price == card_price(v)
    &&& view_opt(item.category_name) == nonblank(v.category_text)
    &&& view_opt(item.shop_name) == nonblank(v.shop_text)
    &&& item.url@ == item_url(item.id)
    &&& views(item.images@) == v.images
    &&& item.tags@.len() == 0
}

/// The item a search card describes; `None` when it has no numeric id or
/// no name.
pub fn item_from_card(f: &CardFields) -> (r: Option<BoothItem>)
    ensures
        r is Some <==> card_ok(f@),
        r matches Some(item) ==> card_item_is(f@, item),
{
    let id = match parse_opt_u64(&f.id_attr) {
        Some(id) => id,
        None => {
            return None;
        },
    };
    let name = match &f.name_attr {
        Some(n) if n.unicode_len() > 0 => n.clone(),
        _ => match &f.title_text {
            Some(t) => {
                let cs = chars_of(t.as_str());
                let tr = trim_chars(cs.as_slice());
                string_of(tr.as_slice())
            },
            None => String::new(),
        },
    };
    if name.unicode_len() == 0 {
        return None;
    }
    let price = match parse_opt_u64(&f.price_attr) {
        Some(p) => p,
        None => 0,
    };
    let images = clone_strs(&f.images);
    Some(
        BoothItem {
            id,
            name,
            description: None,
            price,
            category_name: nonblank_of(&f.category_text),
            shop_name: nonblank_of(&f.shop_text),
            url: canonical_url(id),
            images,
            tags: Vec::new(),
        },
    )
}

type TextLists = Vec<Vec<Vec<String>>>;

pub open spec fn deep_views(ls: Seq<Vec<Vec<String>>>) -> Seq<Seq<Seq<Seq<char>>>> {
    ls.map_values(|l: Vec<Vec<String>>| l@.map_values(|v: Vec<String>| views(v@)))
}

fn lead_in_of(ls: &TextLists, i: usize) -> (r: Option<String>)
    ensures
        view_opt(r) == lead_in(deep_views(ls@), i as int, 0),
{
    let ghost d = deep_views(ls@);
    let mut k: usize = 0;
    while k < ls.len()
        invariant
            k <= ls@.len(),
            d == deep_views(ls@),
            lead_in(d, i as int, 0) == lead_in(d, i as int, k as int),
        decreases ls@.len() - k,
    {
        let l = &ls[k];
        assert(d[k as int] == l@.map_values(|v: Vec<String>| views(v@)));
        if i < l.len() && l[i].len() > 0 {
            assert(row(d[k as int], i as int) == views(l@[i as int]@));
            return Some(l[i][0].clone());
        }
        k = k + 1;
    }
    None
}

fn opt_at(v: &Vec<Option<String>>, i: usize) -> (r: Option<String>)
    ensures
        view_opt(r) == at_or_none(attr_views(v@), i as int),
{
    if i < v.len() {
        match &v[i] {
            Some(s) => Some(s.clone()),
            None => None,
        }
    } else {
        None
    }
}

/// Positions, below `n`, of the cards that yield an item, in order.
pub open spec fn kept_cards(html: Seq<char>, n: int) -> Seq<int>
    decreases n,
{
    if n <= 0 {
        Seq::empty()
    } else if card_ok(card_view_at(html, n - 1)) {
        kept_cards(html, n - 1).push(n - 1)
    } else {
        kept_cards(html, n - 1)
    }
}

/// The texts in which a result count is looked for, in priority order.
pub open spec fn count_texts(html: Seq<char>) -> Seq<Seq<char>> {
    matched_texts(html, count_sels()[0]) + matched_texts(html, count_sels()[1]) + matched_texts(
        html,
        count_sels()[2],
    ) + matched_texts(html, count_sels()[3])
}

/// The total result count a search page states, if any.
pub fn parse_total_count(html: &str) -> (r: Option<u64>)
    ensures
        r == first_count(count_texts(html@)),
{
    let mut texts = select_texts(html, ".u-tpg-caption1");
    let mut t2 = select_texts(html, ".search-result-count");
    let mut t3 = select_texts(html, ".u-tpg-body2");
    let mut t4 = select_texts(html, "title");
    let ghost v1 = views(texts@);
    let ghost v2 = views(t2@);
    let ghost v3 = views(t3@);
    let ghost v4 = views(t4@);
    texts.append(&mut t2);
    texts.append(&mut t3);
    texts.append(&mut t4);
    assert(views(texts@) =~= v1 + v2 + v3 + v4);
    first_count_in(&texts)
}

/// Parses a search results page: the items of its cards, in order, and
/// the total count it states.
pub fn parse_search_html(html: &str) -> (r: (Vec<BoothItem>, Option<u64>))
    ensures
        r.0@.len() == kept_cards(html@, card_count(html@)).len(),
        forall|j: int|
            0 <= j < r.0@.len() ==> card_item_is(
                card_view_at(html@, #[trigger] kept_cards(html@, card_count(html@))[j]),
                r.0@[j],
            ),
        r.1 == first_count(count_texts(html@)),
{
    let ids = select_attrs(html, CARD_SEL, "data-product-id");
    let names = select_attrs(html, CARD_SEL, "data-product-name");
    let prices = select_attrs(html, CARD_SEL, "data-product-price");
    let imgs = select_attrs_within(html, CARD_SEL, CARD_IMG_SEL, "data-original");
    let shops: TextLists = vec![select_texts_within(html, CARD_SEL, CARD_SHOP_SEL)];
    let cats: TextLists = vec![select_texts_within(html, CARD_SEL, CARD_CAT_SEL)];
    let titles: TextLists = vec![
        select_texts_within(html, CARD_SEL, CARD_TITLE_SEL),
        select_texts_within(html, CARD_SEL, CARD_TITLE_ALT_SEL),
    ];
    assert(deep_views(shops@) =~= seq![within(html@, CARD_SHOP_SEL@)]);
    assert(deep_views(cats@) =~= seq![within(html@, CARD_CAT_SEL@)]);
    assert(deep_views(titles@) =~= seq![within(html@, CARD_TITLE_SEL@), within(html@, CARD_TITLE_ALT_SEL@)]);
    let ghost iv = matched_attrs_within(html@, CARD_SEL@, CARD_IMG_SEL@, "data-original"@);
    let mut items: Vec<BoothItem> = Vec::new();
    let mut i: usize = 0;
    while i < ids.len()
        invariant
            i <= ids@.len(),
            ids@.len() == card_count(html@),
            attr_views(ids@) == matched_attrs(html@, CARD_SEL@, "data-product-id"@),
            attr_views(names@) == matched_attrs(html@, CARD_SEL@, "data-product-name"@),
            attr_views(prices@) == matched_attrs(html@, CARD_SEL@, "data-product-price"@),
            imgs@.map_values(|v: Vec<Option<String>>| attr_views(v@)) == iv,
            iv == matched_attrs_within(html@, CARD_SEL@, CARD_IMG_SEL@, "data-original"@),
            deep_views(shops@) == seq![within(html@, CARD_SHOP_SEL@)],
            deep_views(cats@) == seq![within(html@, CARD_CAT_SEL@)],
            deep_views(titles@) == seq![within(html@, CARD_TITLE_SEL@), within(html@, CARD_TITLE_ALT_SEL@)],
            items@.len() == kept_cards(html@, i as int).len(),
            forall|j: int|
                0 <= j < items@.len() ==> card_item_is(
                    card_view_at(html@, #[trigger] kept_cards(html@, i as int)[j]),
                    items@[j],
                ),
        decreases ids@.len() - i,
    {
        let images = if i < imgs.len() {
            assert(iv[i as int] == attr_views(imgs@[i as int]@));
            somes_of(&imgs[i])
        } else {
            Vec::new()
        };
        assert(views(images@) == somes(row(iv, i as int)));
        let f = CardFields {
            id_attr: opt_at(&ids, i),
            name_attr: opt_at(&names, i),
            price_attr: opt_at(&prices, i),
            images,
            shop_text: lead_in_of(&shops, i),
            category_text: lead_in_of(&cats, i),
            title_text: lead_in_of(&titles, i),
        };
        assert(f@ == card_view_at(html@, i as int));
        match item_from_card(&f) {
            Some(item) => {
                items.push(item);
                assert(kept_cards(html@, i + 1) == kept_cards(html@, i as int).push(i as int));
            },
            None => {
                assert(kept_cards(html@, i + 1) == kept_cards(html@, i as int));
            },
        }
        i = i + 1;
    }
    let total = parse_total_count(html);
    (items, total)
}

// ── Item detail pages ─────────────────────────────────────

/// What an item detail page offers, as read from its markup.
#[derive(Debug, Clone)]
pub struct DetailFields {
    pub title_attr: Option<String>,
    pub title_text: Option<String>,
    pub price_text: Option<String>,
    pub description_text: Option<String>,
    pub images: Vec<String>,
    pub shop_text: Option<String>,
    pub tag_texts: Vec<String>,
    pub category_text: Option<String>,
}

pub struct DetailView {
    pub title_attr: Option<Seq<char>>,
    pub title_text: Option<Seq<char>>,
    pub price_text: Option<Seq<char>>,
    pub description_text: Option<Seq<char>>,
    pub images: Seq<Seq<char>>,
    pub shop_text: Option<Seq<char>>,
    pub tag_texts: Seq<Seq<char>>,
    pub category_text: Option<Seq<char>>,
}

impl View for DetailFields {
    type V = DetailView;

    open spec fn view(&self) -> DetailView {
        DetailView {
            title_attr: view_opt(self.title_attr),
            title_text: view_opt(self.title_text),
            price_text: view_opt(self.price_text),
            description_text: view_opt(self.description_text),
            images: views(self.images@),
            shop_text: view_opt(self.shop_text),
            tag_texts: views(self.tag_texts@),
            category_text: view_opt(self.category_text),
        }
    }
}

/// What the markup of a detail page offers.
pub open spec fn detail_view_of(html: Seq<char>) -> DetailView {
    let a = matched_attrs(html, DETAIL_IMG_SEL@, "data-origin"@);
    let b = matched_attrs(html, DETAIL_IMG_SEL@, "data-original"@);
    let c = matched_attrs(html, DETAIL_IMG_SEL@, "src"@);
    DetailView {
        title_attr: lead_attr(html, title_sels(), "data-product-name"@),
        title_text: lead_text(html, title_sels()),
        price_text: lead_text(html, price_sels()),
        description_text: lead_text(html, desc_sels()),
        images: image_picks(a, b, c, a.len() as int),
        shop_text: lead_text(html, shop_sels()),
        tag_texts: matched_texts(html, DETAIL_TAG_SEL@),
        category_text: lead_text(html, cat_sels()),
    }
}

/// The page's item name: the title's data attribute, else its trimmed text.
pub open spec fn detail_name(v: DetailView) -> Seq<char> {
    match v.title_attr {
        Some(a) => a,
        None => match v.title_text {
            Some(t) => trimmed(t),
            None => Seq::empty(),
        },
    }
}

pub open spec fn detail_item_is(v: DetailView, id: u64, item: BoothItem) -> bool {
    &&& item.id == id
    &&& item.name@ == detail_name(v)
    &&& view_opt(item.description) == nonblank(v.description_text)
    &&& item.price == detail_price(v.price_text)
    &&& view_opt(item.category_name) == nonblank(v.category_text)
    &&& view_opt(item.shop_name) == nonblank(v.shop_text)
    &&& item.url@ == item_url(id)
    &&& views(item.images@) == v.images
    &&& views(item.tags@) == nonblank_all(v.tag_texts)
}

/// The item a detail page describes, under the id it was fetched by;
/// `None` when no name can be resolved.
pub fn item_from_detail(f: &DetailFields, item_id: u64) -> (r: Option<BoothItem>)
    ensures
        r is Some <==> detail_name(f@).len() > 0,
        r matches Some(item) ==> detail_item_is(f@, item_id, item),
{
    let name = match &f.title_attr {
        Some(a) => a.clone(),
        None => match &f.title_text {
            Some(t) => {
                let cs = chars_of(t.as_str());
                let tr = trim_chars(cs.as_slice());
                string_of(tr.as_slice())
            },
            None => String::new(),
        },
    };
    if name.unicode_len() == 0 {
        return None;
    }
    let images = clone_strs(&f.images);
    Some(
        BoothItem {
            id: item_id,
            name,
            description: nonblank_of(&f.description_text),
            price: parse_detail_price(&f.price_text),
            category_name: nonblank_of(&f.category_text),
            shop_name: nonblank_of(&f.shop_text),
            url: canonical_url(item_id),
            images,
            tags: nonblank_all_of(&f.tag_texts),
        },
    )
}

fn gallery_images(html: &str) -> (r: Vec<String>)
    ensures
        views(r@) == detail_view_of(html@).images,
{
    let a = select_attrs(html, DETAIL_IMG_SEL, "data-origin");
    let b = select_attrs(html, DETAIL_IMG_SEL, "data-original");
    let c = select_attrs(html, DETAIL_IMG_SEL, "src");
    let ghost av = a@.map_values(|x: Option<String>| view_opt(x));
    let ghost bv = b@.map_values(|x: Option<String>| view_opt(x));
    let ghost cv = c@.map_values(|x: Option<String>| view_opt(x));
    let mut r: Vec<String> = Vec::new();
    let mut i: usize = 0;
    while i < a.len()
        invariant
            i <= a@.len(),
            av == a@.map_values(|x: Option<String>| view_opt(x)),
            bv == b@.map_values(|x: Option<String>| view_opt(x)),
            cv == c@.map_values(|x: Option<String>| view_opt(x)),
            views(r@) == image_picks(av, bv, cv, i as int),
        decreases a@.len() - i,
    {
        let pick: Option<String> = match &a[i] {
            Some(s) => Some(s.clone()),
            None => {
                let from_b: Option<String> = if i < b.len() {
                    match &b[i] {
                        Some(s) => Some(s.clone()),
                        None => None,
                    }
                } else {
                    None
                };
                match from_b {
                    Some(s) => Some(s),
                    None => if i < c.len() {
                        match &c[i] {
                            Some(s) => Some(s.clone()),
                            None => None,
                        }
                    } else {
                        None
                    },
                }
            },
        };
        assert(view_opt(pick) == image_alt(av, bv, cv, i as int));
        match pick {
            Some(s) => {
                r.push(s);
            },
            None => {},
        }
        assert(views(r@) =~= image_picks(av, bv, cv, i + 1));
        i = i + 1;
    }
    r
}

/// Reads what a detail page's markup offers.
pub fn detail_fields(html: &str) -> (f: DetailFields)
    ensures
        f@ == detail_view_of(html@),
{
    let title: Vec<&str> = vec![".u-tpg-title2", "h2.u-tpg-title2", ".item-name h1", "[data-product-name]"];
    let price: Vec<&str> = vec![".item-price .u-tpg-body1", ".price", ".u-tpg-title2-price"];
    let desc: Vec<&str> = vec![".u-mb-400 .u-tpg-body1", ".item-description", ".description"];
    let shop: Vec<&str> = vec![".shop-name", ".shop-name-mini a", ".u-d-ib a"];
    let cat: Vec<&str> = vec![".item-category a", ".category-name a"];
    assert(strs(title@) =~= title_sels());
    assert(strs(price@) =~= price_sels());
    assert(strs(desc@) =~= desc_sels());
    assert(strs(shop@) =~= shop_sels());
    assert(strs(cat@) =~= cat_sels());
    let title_attr = match first_hit(html, &title) {
        Some((k, _)) => first_attr(&select_attrs(html, title[k], "data-product-name")),
        None => None,
    };
    let f = DetailFields {
        title_attr,
        title_text: lead_text_of(html, &title),
        price_text: lead_text_of(html, &price),
        description_text: lead_text_of(html, &desc),
        images: gallery_images(html),
        shop_text: lead_text_of(html, &shop),
        tag_texts: select_texts(html, DETAIL_TAG_SEL),
        category_text: lead_text_of(html, &cat),
    };
    assert(f@ == detail_view_of(html@));
    f
}

/// Parses an item detail page fetched for `item_id`; `None` when the page
/// has no resolvable name.
pub fn parse_item_detail_html(html: &str, item_id: u64) -> (r: Option<BoothItem>)
    ensures
        r is Some <==> detail_name(detail_view_of(html@)).len() > 0,
        r matches Some(item) ==> detail_item_is(detail_view_of(html@), item_id, item),
{
    let f = detail_fields(html);
    item_from_detail(&f, item_id)
}

} // verus!
