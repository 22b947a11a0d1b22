//! The canonical item, the search input and output, and the loosely typed
//! shapes of the marketplace's JSON documents.
use vstd::prelude::*;
use vstd::string::*;
use crate::text::{decimal, decimal_string, keep_digits, only_digits, parse_u64, parsed_u64, chars_of};

verus! {

/// One marketplace listing in canonical form.
#[derive(Debug, Clone)]
pub struct BoothItem {
    pub id: u64,
    pub name: String,
    pub description: Option<String>,
    pub price: u64,
    pub category_name: Option<String>,
    pub shop_name: Option<String>,
    pub url: String,
    pub images: Vec<String>,
    pub tags: Vec<String>,
}

/// The query of one search page.
#[derive(Debug, Clone)]
pub struct SearchParams {
    pub keyword: String,
    pub page: Option<u32>,
    pub category: Option<String>,
    pub sort: Option<String>,
    pub only_free: Option<bool>,
    pub price_min: Option<u64>,
    pub price_max: Option<u64>,
}

/// One page of search results.
#[derive(Debug, Clone)]
pub struct SearchResult {
    pub items: Vec<BoothItem>,
    pub total_count: Option<u64>,
    pub current_page: u32,
}

/// A price field of a JSON document: a whole number, a text such as
/// `"¥1,200"`, or anything else (null, negative, a list, ...).
#[derive(Debug, Clone)]
pub enum JsonPrice {
    Number(u64),
    Text(String),
    Other,
}

#[derive(Debug, Clone)]
pub struct BoothJsonCategory {
    pub name: Option<String>,
}

#[derive(Debug, Clone)]
pub struct BoothJsonShop {
    pub name: Option<String>,
    pub url: Option<String>,
}

#[derive(Debug, Clone)]
pub struct BoothJsonImage {
    pub original: Option<String>,
    pub resized: Option<String>,
}

#[derive(Debug, Clone)]
pub struct BoothJsonTag {
    pub name: Option<String>,
}

/// An item as it appears in a JSON listing.
#[derive(Debug, Clone)]
pub struct BoothJsonItem {
    pub id: Option<u64>,
    pub name: Option<String>,
    pub description: Option<String>,
    pub price: Option<JsonPrice>,
    pub category: Option<BoothJsonCategory>,
    pub shop: Option<BoothJsonShop>,
    pub url: Option<String>,
    pub images: Option<Vec<BoothJsonImage>>,
    pub tags: Option<Vec<BoothJsonTag>>,
    pub wish_lists_count: Option<u64>,
}

/// A JSON listing page.
#[derive(Debug, Clone)]
pub struct BoothJsonSearchResponse {
    pub items: Option<Vec<BoothJsonItem>>,
    pub total_count: Option<u64>,
}

/// The JSON document of a single item.
#[derive(Debug, Clone)]
pub struct BoothJsonItemDetail {
    pub id: Option<u64>,
    pub name: Option<String>,
    pub description: Option<String>,
    pub price: Option<JsonPrice>,
    pub category: Option<BoothJsonCategory>,
    pub shop: Option<BoothJsonShop>,
    pub url: Option<String>,
    pub images: Option<Vec<BoothJsonImage>>,
    pub tags: Option<Vec<BoothJsonTag>>,
    pub wish_lists_count: Option<u64>,
}

pub open spec fn view_opt(s: Option<String>) -> Option<Seq<char>> {
    match s {
        Some(t) => Some(t@),
        None => None,
    }
}

pub open spec fn views(v: Seq<String>) -> Seq<Seq<char>> {
    v.map_values(|s: String| s@)
}

/// The canonical link of an item.
pub open spec fn item_url(id: u64) -> Seq<char> {
    "https://booth.pm/ja/items/"@ + decimal(id as nat)
}

/// The whole-unit price of a JSON price field; 0 where none can be read.
pub open spec fn price_value(p: Option<JsonPrice>) -> u64 {
    match p {
        Some(JsonPrice::Number(n)) => n,
        Some(JsonPrice::Text(s)) => match parsed_u64(only_digits(s@)) {
            Some(n) => n,
            None => 0,
        },
        _ => 0,
    }
}

/// The URL an image entry contributes: its original, else its resized one.
pub open spec fn image_choice(img: BoothJsonImage) -> Option<Seq<char>> {
    match img.original {
        Some(o) => Some(o@),
        None => view_opt(img.resized),
    }
}

/// Image URLs of the entries, in order, entries with neither dropped.
pub open spec fn image_urls(imgs: Seq<BoothJsonImage>) -> Seq<Seq<char>>
    decreases imgs.len(),
{
    if imgs.len() == 0 {
        Seq::empty()
    } else {
        let rest = image_urls(imgs.drop_last());
        match image_choice(imgs.last()) {
            Some(u) => rest.push(u),
            None => rest,
        }
    }
}

/// Names of the tags, in order, nameless ones dropped.
pub open spec fn tag_names(tags: Seq<BoothJsonTag>) -> Seq<Seq<char>>
    decreases tags.len(),
{
    if tags.len() == 0 {
        Seq::empty()
    } else {
        let rest = tag_names(tags.drop_last());
        match tags.last().name {
            Some(n) => rest.push(n@),
            None => rest,
        }
    }
}

pub open spec fn opt_images(imgs: Option<Vec<BoothJsonImage>>) -> Seq<Seq<char>> {
    match imgs {
        Some(v) => image_urls(v@),
        None => Seq::empty(),
    }
}

pub open spec fn opt_tags(tags: Option<Vec<BoothJsonTag>>) -> Seq<Seq<char>> {
    match tags {
        Some(v) => tag_names(v@),
        None => Seq::empty(),
    }
}

pub open spec fn category_name_of(c: Option<BoothJsonCategory>) -> Option<Seq<char>> {
    match c {
        Some(c) => view_opt(c.name),
        None => None,
    }
}

pub open spec fn shop_name_of(s: Option<BoothJsonShop>) -> Option<Seq<char>> {
    match s {
        Some(s) => view_opt(s.name),
        None => None,
    }
}

/// What a JSON document with these fields becomes, given that its id is `id`.
pub open spec fn json_item_is(
    r: BoothItem,
    id: u64,
    name: Option<String>,
    description: Option<String>,
    price: Option<JsonPrice>,
    category: Option<BoothJsonCategory>,
    shop: Option<BoothJsonShop>,
    url: Option<String>,
    images: Option<Vec<BoothJsonImage>>,
    tags: Option<Vec<BoothJsonTag>>,
) -> bool {
    &&& r.id == id
    &&& r.name@ == match name {
        Some(n) => n@,
        None => Seq::<char>::empty(),
    }
    &&& view_opt(r.description) == view_opt(description)
    &&& r.price == price_value(price)
    &&& view_opt(r.category_name) == category_name_of(category)
    &&& view_opt(r.shop_name) == shop_name_of(shop)
    &&& r.url@ == match url {
        Some(u) => u@,
        None => item_url(id),
    }
    &&& views(r.images@) == opt_images(images)
    &&& views(r.tags@) == opt_tags(tags)
}

/// The canonical link of item `id`.
pub fn canonical_url(id: u64) -> (r: String)
    ensures
        r@ == item_url(id),
{
    let mut r = String::from_str("https://booth.pm/ja/items/");
    let d = decimal_string(id);
    r.append(d.as_str());
    r
}

/// Reads a JSON price field: a number as it is, a text by its digits
/// (`"¥1,200"` is 1200), and 0 where nothing can be read.
pub fn parse_price(val: &Option<JsonPrice>) -> (r: u64)
    ensures
        r == price_value(*val),
{
    match val {
        Some(JsonPrice::Number(n)) => *n,
        Some(JsonPrice::Text(s)) => {
            let cs = chars_of(s.as_str());
            let digits = keep_digits(cs.as_slice());
            match parse_u64(digits.as_slice()) {
                Some(n) => n,
                None => 0,
            }
        },
        _ => 0,
    }
}

fn clone_opt(s: &Option<String>) -> (r: Option<String>)
    ensures
        view_opt(r) == view_opt(*s),
{
    match s {
        Some(t) => Some(t.clone()),
        None => None,
    }
}

fn collect_images(imgs: &Option<Vec<BoothJsonImage>>) -> (r: Vec<String>)
    ensures
        views(r@) == opt_images(*imgs),
{
    let mut r: Vec<String> = Vec::new();
    match imgs {
        None => {
            assert(views(r@) =~= Seq::<Seq<char>>::empty());
        },
        Some(v) => {
            let mut i: usize = 0;
            assert(v@.subrange(0, 0) =~= Seq::<BoothJsonImage>::empty());
            assert(views(r@) =~= Seq::<Seq<char>>::empty());
            while i < v.len()
                invariant
                    i <= v@.len(),
                    views(r@) == image_urls(v@.subrange(0, i as int)),
                decreases v@.len() - i,
            {
                let img = &v[i];
                assert(v@.subrange(0, i + 1).drop_last() =~= v@.subrange(0, i as int));
                match &img.original {
                    Some(o) => {
                        r.push(o.clone());
                    },
                    None => match &img.resized {
                        Some(z) => {
                            r.push(z.clone());
                        },
                        None => {},
                    },
                }
                assert(views(r@) =~= image_urls(v@.subrange(0, i + 1)));
                i = i + 1;
            }
            assert(v@.subrange(0, v@.len() as int) =~= v@);
        },
    }
    r
}

fn collect_tags(tags: &Option<Vec<BoothJsonTag>>) -> (r: Vec<String>)
    ensures
        views(r@) == opt_tags(*tags),
{
    let mut r: Vec<String> = Vec::new();
    match tags {
        None => {
            assert(views(r@) =~= Seq::<Seq<char>>::empty());
        },
        Some(v) => {
            let mut i: usize = 0;
            assert(views(r@) =~= Seq::<Seq<char>>::empty());
            assert(v@.subrange(0, 0) =~= Seq::<BoothJsonTag>::empty());
            while i < v.len()
                invariant
                    i <= v@.len(),
                    views(r@) == tag_names(v@.subrange(0, i as int)),
                decreases v@.len() - i,
            {
                assert(v@.subrange(0, i + 1).drop_last() =~= v@.subrange(0, i as int));
                match &v[i].name {
                    Some(n) => {
                        r.push(n.clone());
                    },
                    None => {},
                }
                assert(views(r@) =~= tag_names(v@.subrange(0, i + 1)));
                i = i + 1;
            }
            assert(v@.subrange(0, v@.len() as int) =~= v@);
        },
    }
    r
}

/// Assembles the canonical item from the fields of a JSON document.
fn item_from_json_fields(
    id: u64,
    name: &Option<String>,
    description: &Option<String>,
    price: &Option<JsonPrice>,
    category: &Option<BoothJsonCategory>,
    shop: &Option<BoothJsonShop>,
    url: &Option<String>,
    images: &Option<Vec<BoothJsonImage>>,
    tags: &Option<Vec<BoothJsonTag>>,
) -> (r: BoothItem)
    ensures
        json_item_is(r, id, *name, *description, *price, *category, *shop, *url, *images, *tags),
{
    let name_s = match name {
        Some(n) => n.clone(),
        None => String::new(),
    };
    let url_s = match url {
        Some(u) => u.clone(),
        None => canonical_url(id),
    };
    let category_name = match category {
        Some(c) => clone_opt(&c.name),
        None => None,
    };
    let shop_name = match shop {
        Some(s) => clone_opt(&s.name),
        None => None,
    };
    BoothItem {
        id,
        name: name_s,
        description: clone_opt(description),
        price: parse_price(price),
        category_name,
        shop_name,
        url: url_s,
        images: collect_images(images),
        tags: collect_tags(tags),
    }
}

impl BoothJsonItem {
    /// The canonical item of this document; `None` exactly when it has no id.
    pub fn into_booth_item(self) -> (r: Option<BoothItem>)
        ensures
            r is None <==> self.id is None,
            r matches Some(item) ==> json_item_is(
                item,
                self.id.unwrap(),
                self.name,
                self.description,
                self.price,
                self.category,
                self.shop,
                self.url,
                self.images,
                self.tags,
            ),
    {
        match self.id {
            None => None,
            Some(id) => Some(
                item_from_json_fields(
                    id,
                    &self.name,
                    &self.description,
                    &self.price,
                    &self.category,
                    &self.shop,
                    &self.url,
                    &self.images,
                    &self.tags,
                ),
            ),
        }
    }
}

impl BoothJsonItemDetail {
    /// The canonical item of this document; `None` exactly when it has no id.
    pub fn into_booth_item(self) -> (r: Option<BoothItem>)
        ensures
            r is None <==> self.id is None,
            r matches Some(item) ==> json_item_is(
                item,
                self.id.unwrap(),
                self.name,
                self.description,
                self.price,
                self.category,
                self.shop,
                self.url,
                self.images,
                self.tags,
            ),
    {
        match self.id {
            None => None,
            Some(id) => Some(
                item_from_json_fields(
                    id,
                    &self.name,
                    &self.description,
                    &self.price,
                    &self.category,
                    &self.shop,
                    &self.url,
                    &self.images,
                    &self.tags,
                ),
            ),
        }
    }
}

} // verus!
