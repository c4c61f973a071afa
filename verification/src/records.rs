//! The catalogue's records as they come from the database, and the filtered
//! forms in which the API returns them: identifiers become their text, the
//! other fields are copied.

use vstd::prelude::*;
use crate::ids::{uuid_text, uuid_to_string};

verus! {

/// A point in time, in whole seconds since the Unix epoch (UTC) and the
/// nanoseconds within that second.
#[derive(Debug, Clone, Copy, PartialEq, Eq)]
pub struct Timestamp {
    pub secs: i64,
    pub nanos: u32,
}

/// A copy of an optional text.
pub fn copy_text(o: &Option<String>) -> (r: Option<String>)
    ensures
        r == *o,
{
    match o {
        Some(s) => Some(s.clone()),
        None => None,
    }
}

/// A copy of a list of texts.
pub fn copy_texts(v: &Vec<String>) -> (r: Vec<String>)
    ensures
        r@ == v@,
{
    let mut r: Vec<String> = Vec::new();
    let mut i: usize = 0;
    while i < v.len()
        invariant
            i <= v.len(),
            r@ == v@.take(i as int),
        decreases v.len() - i,
    {
        r.push(v[i].clone());
        i += 1;
        assert(r@ =~= v@.take(i as int));
    }
    assert(v@.take(v.len() as int) =~= v@);
    r
}

/// The text of an optional identifier, empty when there is none.
pub open spec fn opt_uuid_text(o: Option<u128>) -> Seq<char> {
    match o {
        Some(v) => uuid_text(v),
        None => Seq::empty(),
    }
}

/// The text of an optional identifier, empty when there is none.
pub fn opt_uuid_to_string(o: Option<u128>) -> (r: String)
    ensures
        r@ == opt_uuid_text(o),
{
    match o {
        Some(v) => uuid_to_string(v),
        None => String::new(),
    }
}

// ---------------------------------------------------------------------------
// Categories and cities
// ---------------------------------------------------------------------------

#[derive(Debug, PartialEq, Eq)]
pub struct Category {
    pub category_id: u128,
    pub name: Option<String>,
    pub abbreviation: Option<String>,
    pub is_active: Option<bool>,
}

#[derive(Debug, PartialEq, Eq)]
pub struct FilteredCategory {
    pub category_id: String,
    pub name: Option<String>,
    pub abbreviation: Option<String>,
    pub is_active: Option<bool>,
}

pub fn filter_category_record(category: &Category) -> (r: FilteredCategory)
    ensures
        r.category_id@ == uuid_text(category.category_id),
        r.name == category.name,
        r.abbreviation == category.abbreviation,
        r.is_active == category.is_active,
{
    FilteredCategory {
        category_id: uuid_to_string(category.category_id),
        name: copy_text(&category.name),
        abbreviation: copy_text(&category.abbreviation),
        is_active: category.is_active,
    }
}

#[derive(Debug, PartialEq, Eq)]
pub struct City {
    pub city_id: u128,
    pub name: Option<String>,
    pub abbreviation: Option<String>,
    pub coords: Option<String>,
    pub is_active: Option<bool>,
}

#[derive(Debug, PartialEq, Eq)]
pub struct FilteredCity {
    pub city_id: String,
    pub name: Option<String>,
    pub abbreviation: Option<String>,
    pub coords: Option<String>,
    pub is_active: Option<bool>,
}

pub fn filter_city_record(city: &City) -> (r: FilteredCity)
    ensures
        r.city_id@ == uuid_text(city.city_id),
        r.name == city.name,
        r.abbreviation == city.abbreviation,
        r.coords == city.coords,
        r.is_active == city.is_active,
{
    FilteredCity {
        city_id: uuid_to_string(city.city_id),
        name: copy_text(&city.name),
        abbreviation: copy_text(&city.abbreviation),
        coords: copy_text(&city.coords),
        is_active: city.is_active,
    }
}

// ---------------------------------------------------------------------------
// Reviews
// ---------------------------------------------------------------------------

#[derive(Debug, PartialEq, Eq)]
pub struct Review {
    pub review_id: u128,
    pub firm_id: u128,
    pub two_gis_firm_id: Option<String>,
    pub author: Option<String>,
    pub date: Option<String>,
    pub text: Option<String>,
    pub rating: Option<String>,
    pub parsed: Option<bool>,
}

#[derive(Debug, PartialEq, Eq)]
pub struct FilteredReview {
    pub review_id: String,
    pub two_gis_firm_id: Option<String>,
    pub firm_id: String,
    pub author: Option<String>,
    pub date: Option<String>,
    pub text: Option<String>,
    pub rating: Option<String>,
}

#[derive(Debug, PartialEq, Eq)]
pub struct FilteredAddReview {
    pub review_id: String,
    pub firm_id: String,
    pub author: Option<String>,
    pub date: Option<String>,
    pub text: Option<String>,
}

pub fn filter_review_record(review: &Review) -> (r: FilteredReview)
    ensures
        r.review_id@ == uuid_text(review.review_id),
        r.two_gis_firm_id == review.two_gis_firm_id,
        r.firm_id@ == uuid_text(review.firm_id),
        r.author == review.author,
        r.date == review.date,
        r.text == review.text,
        r.rating == review.rating,
{
    FilteredReview {
        review_id: uuid_to_string(review.review_id),
        two_gis_firm_id: copy_text(&review.two_gis_firm_id),
        firm_id: uuid_to_string(review.firm_id),
        author: copy_text(&review.author),
        date: copy_text(&review.date),
        text: copy_text(&review.text),
        rating: copy_text(&review.rating),
    }
}

pub fn filter_add_review_record(review: &Review) -> (r: FilteredAddReview)
    ensures
        r.review_id@ == uuid_text(review.review_id),
        r.firm_id@ == uuid_text(review.firm_id),
        r.author == review.author,
        r.date == review.date,
        r.text == review.text,
{
    FilteredAddReview {
        review_id: uuid_to_string(review.review_id),
        firm_id: uuid_to_string(review.firm_id),
        author: copy_text(&review.author),
        date: copy_text(&review.date),
        text: copy_text(&review.text),
    }
}

/// A review read by the reviews crawler, to be stored.
#[derive(Debug, PartialEq, Eq)]
pub struct SaveReview {
    pub firm_id: u128,
    pub two_gis_firm_id: String,
    pub author: String,
    pub date: String,
    pub text: String,
    pub rating: String,
}

/// A generated review, to be stored.
#[derive(Debug, PartialEq, Eq)]
pub struct SaveOAIReview {
    pub firm_id: u128,
    pub text: String,
}

#[derive(Debug, PartialEq, Eq)]
pub struct OAIReview {
    pub oai_review_id: u128,
    pub firm_id: u128,
    pub text: Option<String>,
}

#[derive(Debug, PartialEq, Eq)]
pub struct FilteredOAIReview {
    pub oai_review_id: String,
    pub firm_id: String,
    pub text: Option<String>,
}

pub fn filter_oai_review_record(review: &OAIReview) -> (r: FilteredOAIReview)
    ensures
        r.oai_review_id@ == uuid_text(review.oai_review_id),
        r.firm_id@ == uuid_text(review.firm_id),
        r.text == review.text,
{
    FilteredOAIReview {
        oai_review_id: uuid_to_string(review.oai_review_id),
        firm_id: uuid_to_string(review.firm_id),
        text: copy_text(&review.text),
    }
}

// ---------------------------------------------------------------------------
// Prices
// ---------------------------------------------------------------------------

#[derive(Debug, PartialEq, Eq)]
pub struct PriceItem {
    pub price_item_id: u128,
    pub firm_id: u128,
    pub price_category_id: u128,
    pub name: Option<String>,
    pub value: Option<String>,
}

#[derive(Debug, PartialEq, Eq)]
pub struct FilteredPriceItem {
    pub price_item_id: String,
    pub firm_id: String,
    pub price_category_id: String,
    pub name: Option<String>,
    pub value: Option<String>,
}

pub fn filter_price_record(price: &PriceItem) -> (r: FilteredPriceItem)
    ensures
        r.price_item_id@ == uuid_text(price.price_item_id),
        r.firm_id@ == uuid_text(price.firm_id),
        r.price_category_id@ == uuid_text(price.price_category_id),
        r.name == price.name,
        r.value == price.value,
{
    FilteredPriceItem {
        price_item_id: uuid_to_string(price.price_item_id),
        firm_id: uuid_to_string(price.firm_id),
        price_category_id: uuid_to_string(price.price_category_id),
        name: copy_text(&price.name),
        value: copy_text(&price.value),
    }
}

#[derive(Debug, PartialEq, Eq)]
pub struct PriceCategory {
    pub price_category_id: u128,
    pub firm_id: u128,
    pub name: Option<String>,
    pub value: Option<String>,
}

#[derive(Debug, PartialEq, Eq)]
pub struct FilteredPriceCategory {
    pub price_category_id: String,
    pub firm_id: String,
    pub name: Option<String>,
    pub value: Option<String>,
}

pub fn filter_price_category_record(price: &PriceCategory) -> (r: FilteredPriceCategory)
    ensures
        r.price_category_id@ == uuid_text(price.price_category_id),
        r.firm_id@ == uuid_text(price.firm_id),
        r.name == price.name,
        r.value == price.value,
{
    FilteredPriceCategory {
        price_category_id: uuid_to_string(price.price_category_id),
        firm_id: uuid_to_string(price.firm_id),
        name: copy_text(&price.name),
        value: copy_text(&price.value),
    }
}

} // verus!
