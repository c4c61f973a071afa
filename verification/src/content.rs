//! Images, generated descriptions, firm types, quotes, users and pages, with
//! the filtered forms that the API returns.

use vstd::prelude::*;
use crate::ids::{uuid_text, uuid_to_string};
use crate::records::{copy_text, copy_texts, opt_uuid_text, opt_uuid_to_string, Timestamp};

verus! {

// ---------------------------------------------------------------------------
// Images
// ---------------------------------------------------------------------------

#[derive(Debug, PartialEq, Eq)]
pub struct Image {
    pub img_id: u128,
    pub firm_id: u128,
    pub img_alt: Option<String>,
    pub created_ts: Option<Timestamp>,
    pub updated_ts: Option<Timestamp>,
}

#[derive(Debug, PartialEq, Eq)]
pub struct FilteredImage {
    pub img_id: String,
    pub firm_id: String,
    pub img_alt: Option<String>,
}

#[derive(Debug, PartialEq, Eq)]
pub struct SaveImage {
    pub firm_id: u128,
    pub img_alt: String,
}

pub fn filter_image_record(image: &Image) -> (r: FilteredImage)
    ensures
        r.img_id@ == uuid_text(image.img_id),
        r.firm_id@ == uuid_text(image.firm_id),
        r.img_alt == image.img_alt,
{
    FilteredImage {
        img_id: uuid_to_string(image.img_id),
        firm_id: uuid_to_string(image.firm_id),
        img_alt: copy_text(&image.img_alt),
    }
}

// ---------------------------------------------------------------------------
// Generated descriptions
// ---------------------------------------------------------------------------

#[derive(Debug, PartialEq, Eq)]
pub struct OAIDescription {
    pub oai_description_id: u128,
    pub firm_id: u128,
    pub oai_description_value: Option<String>,
    pub created_ts: Option<Timestamp>,
    pub updated_ts: Option<Timestamp>,
}

#[derive(Debug, PartialEq, Eq)]
pub struct FilteredOAIDescription {
    pub oai_description_id: String,
    pub firm_id: String,
    pub oai_description_value: Option<String>,
}

pub fn filter_oai_description_record(description: &OAIDescription) -> (r: FilteredOAIDescription)
    ensures
        r.oai_description_id@ == uuid_text(description.oai_description_id),
        r.firm_id@ == uuid_text(description.firm_id),
        r.oai_description_value == description.oai_description_value,
{
    FilteredOAIDescription {
        oai_description_id: uuid_to_string(description.oai_description_id),
        firm_id: uuid_to_string(description.firm_id),
        oai_description_value: copy_text(&description.oai_description_value),
    }
}

// ---------------------------------------------------------------------------
// Firm types
// ---------------------------------------------------------------------------

#[derive(Debug, PartialEq, Eq)]
pub struct TypesCount {
    pub count: Option<i64>,
}

#[derive(Debug, PartialEq, Eq)]
pub struct Type {
    pub type_id: u128,
    pub name: Option<String>,
    pub abbreviation: Option<String>,
}

#[derive(Debug, PartialEq, Eq)]
pub struct SaveType {
    pub name: String,
    pub abbreviation: String,
}

#[derive(Debug, PartialEq, Eq)]
pub struct FilteredType {
    pub type_id: String,
    pub name: Option<String>,
    pub abbreviation: Option<String>,
}

pub fn filter_type_record(type_item: &Type) -> (r: FilteredType)
    ensures
        r.type_id@ == uuid_text(type_item.type_id),
        r.name == type_item.name,
        r.abbreviation == type_item.abbreviation,
{
    FilteredType {
        type_id: uuid_to_string(type_item.type_id),
        name: copy_text(&type_item.name),
        abbreviation: copy_text(&type_item.abbreviation),
    }
}

// ---------------------------------------------------------------------------
// Quotes
// ---------------------------------------------------------------------------

#[derive(Debug, PartialEq, Eq)]
pub struct Quote {
    pub id: u128,
    pub text: Option<String>,
    pub author: Option<String>,
    pub created_at: Option<Timestamp>,
    pub updated_at: Option<Timestamp>,
}

#[derive(Debug, PartialEq, Eq)]
pub struct FilteredQuote {
    pub id: String,
    pub text: Option<String>,
    pub author: Option<String>,
    pub created_at: Timestamp,
    pub updated_at: Timestamp,
}

#[derive(Debug, PartialEq, Eq)]
pub struct QuoteData {
    pub quote: FilteredQuote,
}

#[derive(Debug, PartialEq, Eq)]
pub struct QuoteResponse {
    pub status: String,
    pub data: QuoteData,
}

/// A stored quote always carries its timestamps; one without them is not
/// accepted.
pub fn filter_quote_record(quote: &Quote) -> (r: FilteredQuote)
    requires
        quote.created_at is Some,
        quote.updated_at is Some,
    ensures
        r.id@ == uuid_text(quote.id),
        r.text == quote.text,
        r.author == quote.author,
        r.created_at == quote.created_at->0,
        r.updated_at == quote.updated_at->0,
{
    FilteredQuote {
        id: uuid_to_string(quote.id),
        text: copy_text(&quote.text),
        author: copy_text(&quote.author),
        created_at: quote.created_at.unwrap(),
        updated_at: quote.updated_at.unwrap(),
    }
}

// ---------------------------------------------------------------------------
// Users
// ---------------------------------------------------------------------------

#[derive(Debug, PartialEq, Eq)]
pub struct User {
    pub id: u128,
    pub name: String,
    pub email: String,
    pub photo: String,
    pub role: String,
    pub verified: bool,
    pub favourite: Option<Vec<String>>,
    pub created_at: Option<Timestamp>,
    pub updated_at: Option<Timestamp>,
}

#[derive(Debug, PartialEq, Eq)]
pub struct FilteredUser {
    pub id: String,
    pub name: String,
    pub email: String,
    pub role: String,
    pub photo: String,
    pub verified: bool,
    pub favourite: Vec<String>,
    pub created_at: Timestamp,
    pub updated_at: Timestamp,
}

#[derive(Debug, PartialEq, Eq)]
pub struct UserData {
    pub user: FilteredUser,
}

#[derive(Debug, PartialEq, Eq)]
pub struct UserResponse {
    pub status: String,
    pub data: UserData,
}

/// The favourites of a user, none when the list is absent.
pub open spec fn favourites(user: User) -> Seq<String> {
    match user.favourite {
        Some(v) => v@,
        None => Seq::empty(),
    }
}

/// A stored user always carries its timestamps; one without them is not
/// accepted.
pub fn filter_user_record(user: &User) -> (r: FilteredUser)
    requires
        user.created_at is Some,
        user.updated_at is Some,
    ensures
        r.id@ == uuid_text(user.id),
        r.email == user.email,
        r.name == user.name,
        r.photo == user.photo,
        r.role == user.role,
        r.verified == user.verified,
        r.favourite@ == favourites(*user),
        r.created_at == user.created_at->0,
        r.updated_at == user.updated_at->0,
{
    let favourite = match &user.favourite {
        Some(v) => copy_texts(v),
        None => Vec::new(),
    };
    FilteredUser {
        id: uuid_to_string(user.id),
        email: user.email.clone(),
        name: user.name.clone(),
        photo: user.photo.clone(),
        role: user.role.clone(),
        verified: user.verified,
        favourite,
        created_at: user.created_at.unwrap(),
        updated_at: user.updated_at.unwrap(),
    }
}

// ---------------------------------------------------------------------------
// Pages
// ---------------------------------------------------------------------------

#[derive(Debug, PartialEq, Eq)]
pub struct Page {
    pub page_id: u128,
    pub firm_id: Option<u128>,
    pub page_category_id: Option<u128>,
    pub user_id: Option<u128>,
    pub url: Option<String>,
    pub prompt_value: Option<String>,
    pub oai_value: Option<String>,
    pub created_ts: Option<Timestamp>,
    pub updated_ts: Option<Timestamp>,
}

#[derive(Debug, PartialEq, Eq)]
pub struct PageCategory {
    pub page_category_id: u128,
    pub page_id: Option<u128>,
    pub name: Option<String>,
    pub abbreviation: Option<String>,
    pub created_ts: Option<Timestamp>,
    pub updated_ts: Option<Timestamp>,
}

#[derive(Debug, PartialEq, Eq)]
pub struct FilteredPage {
    pub page_id: String,
    pub firm_id: String,
    pub page_category_id: String,
    pub user_id: String,
    pub url: Option<String>,
    pub oai_value: Option<String>,
    pub created_ts: Option<Timestamp>,
}

#[derive(Debug, PartialEq, Eq)]
pub struct PageBlock {
    pub page_block_id: u128,
    pub page_id: Option<u128>,
    pub page_block_type_id: Option<u128>,
    pub page_block_order: String,
}

#[derive(Debug, PartialEq, Eq)]
pub struct PageBlockSection {
    pub page_block_section_id: u128,
    pub page_block_id: Option<u128>,
    pub page_block_section_order: Option<String>,
    pub title: Option<String>,
    pub subtitle: Option<String>,
    pub text: Option<String>,
    pub url: Option<String>,
}

/// Missing identifiers of a page become empty texts.
pub fn filter_page_record(page: &Page) -> (r: FilteredPage)
    ensures
        r.page_id@ == uuid_text(page.page_id),
        r.firm_id@ == opt_uuid_text(page.firm_id),
        r.page_category_id@ == opt_uuid_text(page.page_category_id),
        r.user_id@ == opt_uuid_text(page.user_id),
        r.url == page.url,
        r.oai_value == page.oai_value,
        r.created_ts == page.created_ts,
{
    FilteredPage {
        page_id: uuid_to_string(page.page_id),
        firm_id: opt_uuid_to_string(page.firm_id),
        page_category_id: opt_uuid_to_string(page.page_category_id),
        user_id: opt_uuid_to_string(page.user_id),
        url: copy_text(&page.url),
        oai_value: copy_text(&page.oai_value),
        created_ts: page.created_ts,
    }
}

} // verus!
