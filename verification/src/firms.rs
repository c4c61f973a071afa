//! Firm records, the forms in which they are saved and updated, and the
//! filtered forms that the API returns.

use vstd::prelude::*;
use crate::ids::{uuid_text, uuid_to_string};
use crate::records::{copy_text, Timestamp};

verus! {

/// A firm as listed by the map service's search, before its details are known.
#[derive(Debug, PartialEq, Eq)]
pub struct TwoGisFirm {
    pub firm_id: u128,
    pub name: Option<String>,
    pub two_gis_firm_id: Option<String>,
    pub category_id: Option<String>,
    pub coords: Option<String>,
    pub created_ts: Option<Timestamp>,
    pub updated_ts: Option<Timestamp>,
}

/// A firm of the catalogue (its full-text search vector is left to the database).
#[derive(Debug, PartialEq, Eq)]
pub struct Firm {
    pub firm_id: u128,
    pub category_id: u128,
    pub type_id: u128,
    pub city_id: u128,
    pub two_gis_firm_id: Option<String>,
    pub name: Option<String>,
    pub description: Option<String>,
    pub address: Option<String>,
    pub floor: Option<String>,
    pub site: Option<String>,
    pub default_email: Option<String>,
    pub default_phone: Option<String>,
    pub url: Option<String>,
    pub rating: Option<String>,
    pub reviews_count: Option<String>,
    pub coords: Option<String>,
    pub created_ts: Option<Timestamp>,
    pub updated_ts: Option<Timestamp>,
}

#[derive(Debug, PartialEq, Eq)]
pub struct SaveFirm {
    pub two_gis_firm_id: String,
    pub category_id: u128,
    pub type_id: u128,
    pub city_id: u128,
    pub name: String,
    pub address: String,
    pub coords: String,
    pub default_phone: String,
    pub site: String,
}

#[derive(Debug, PartialEq, Eq)]
pub struct FilteredFirm {
    pub firm_id: String,
    pub two_gis_firm_id: Option<String>,
    pub category_id: String,
    pub city_id: String,
    pub name: Option<String>,
    pub description: Option<String>,
    pub address: Option<String>,
    pub site: Option<String>,
    pub rating: Option<String>,
    pub reviews_count: Option<String>,
    pub default_phone: Option<String>,
    pub url: Option<String>,
    pub coords: Option<String>,
}

#[derive(Debug, PartialEq, Eq)]
pub struct UpdateFirmDesc {
    pub firm_id: u128,
    pub description: String,
}

#[derive(Debug, PartialEq, Eq)]
pub struct ExtFirmWithOaiDescription {
    pub firm_id: u128,
    pub city_id: u128,
    pub category_id: u128,
    pub name: Option<String>,
    pub address: Option<String>,
    pub site: Option<String>,
    pub default_phone: Option<String>,
    pub oai_description_value: Option<String>,
    pub description: Option<String>,
}

#[derive(Debug, PartialEq, Eq)]
pub struct ExtFilteredFirmWithOaiDescription {
    pub firm_id: String,
    pub category_id: String,
    pub name: Option<String>,
    pub address: Option<String>,
    pub site: Option<String>,
    pub default_phone: Option<String>,
    pub oai_description_value: Option<String>,
    pub description: Option<String>,
}

#[derive(Debug, PartialEq, Eq)]
pub struct UpdateFirmAddress {
    pub firm_id: u128,
    pub address: String,
}

#[derive(Debug, PartialEq, Eq)]
pub struct UpdateFirmRating {
    pub firm_id: u128,
    pub rating: String,
}

#[derive(Debug, PartialEq, Eq)]
pub struct FirmForMap {
    pub name: Option<String>,
    pub address: Option<String>,
    pub url: Option<String>,
    pub coords: Option<String>,
}

#[derive(Debug, PartialEq, Eq)]
pub struct FilteredFirmForMap {
    pub name: Option<String>,
    pub address: Option<String>,
    pub url: Option<String>,
    pub coords: Option<String>,
}

pub fn filter_firm_record(firm: &Firm) -> (r: FilteredFirm)
    ensures
        r.firm_id@ == uuid_text(firm.firm_id),
        r.two_gis_firm_id == firm.two_gis_firm_id,
        r.city_id@ == uuid_text(firm.city_id),
        r.category_id@ == uuid_text(firm.category_id),
        r.name == firm.name,
        r.description == firm.description,
        r.address == firm.address,
        r.site == firm.site,
        r.rating == firm.rating,
        r.reviews_count == firm.reviews_count,
        r.default_phone == firm.default_phone,
        r.url == firm.url,
        r.coords == firm.coords,
{
    FilteredFirm {
        firm_id: uuid_to_string(firm.firm_id),
        two_gis_firm_id: copy_text(&firm.two_gis_firm_id),
        city_id: uuid_to_string(firm.city_id),
        category_id: uuid_to_string(firm.category_id),
        name: copy_text(&firm.name),
        description: copy_text(&firm.description),
        address: copy_text(&firm.address),
        site: copy_text(&firm.site),
        rating: copy_text(&firm.rating),
        reviews_count: copy_text(&firm.reviews_count),
        default_phone: copy_text(&firm.default_phone),
        url: copy_text(&firm.url),
        coords: copy_text(&firm.coords),
    }
}

pub fn filter_ext_firm_record(firm: &ExtFirmWithOaiDescription) -> (r:
    ExtFilteredFirmWithOaiDescription)
    ensures
        r.firm_id@ == uuid_text(firm.firm_id),
        r.category_id@ == uuid_text(firm.category_id),
        r.name == firm.name,
        r.address == firm.address,
        r.site == firm.site,
        r.default_phone == firm.default_phone,
        r.oai_description_value == firm.oai_description_value,
        r.description == firm.description,
{
    ExtFilteredFirmWithOaiDescription {
        firm_id: uuid_to_string(firm.firm_id),
        category_id: uuid_to_string(firm.category_id),
        name: copy_text(&firm.name),
        address: copy_text(&firm.address),
        site: copy_text(&firm.site),
        default_phone: copy_text(&firm.default_phone),
        oai_description_value: copy_text(&firm.oai_description_value),
        description: copy_text(&firm.description),
    }
}

pub fn filter_firm_for_map_record(firm: &FirmForMap) -> (r: FilteredFirmForMap)
    ensures
        r.name == firm.name,
        r.address == firm.address,
        r.url == firm.url,
        r.coords == firm.coords,
{
    FilteredFirmForMap {
        name: copy_text(&firm.name),
        address: copy_text(&firm.address),
        url: copy_text(&firm.url),
        coords: copy_text(&firm.coords),
    }
}

} // verus!
