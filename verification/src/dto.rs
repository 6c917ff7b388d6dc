use vstd::prelude::*;

use crate::geo::BoundingBox;

verus! {

/// One point-of-interest record as the search service reports it.
/// Identity is carried by `id` alone (see [`key`]); every other field
/// is descriptive and takes no part in equality.
#[derive(Clone, Debug)]
pub struct Document {
    pub address_name: String,
    pub category_name: String,
    pub id: String,
    pub phone: String,
    pub place_name: String,
    pub place_url: String,
    pub road_address_name: String,
    pub x: String,
    pub y: String,
}

/// The identity of a record: its stable external identifier.  Two
/// records with the same key are the same entity, whatever their other
/// fields say.
pub open spec fn key(d: Document) -> Seq<char> {
    d.id@
}

/// Pagination metadata attached to every page.  `pageable_count` is
/// the hard cap on records this exact query will ever page through;
/// `total_count` is the true number of matches, which may exceed it.
#[derive(Clone, Copy, Debug, PartialEq, Eq, Structural)]
pub struct Meta {
    pub is_end: bool,
    pub pageable_count: usize,
    pub total_count: usize,
}

/// A region is saturated when pagination cannot deliver every match
/// for it: the service caps retrieval below the true match count.
pub open spec fn saturated(m: Meta) -> bool {
    m.pageable_count < m.total_count
}

/// One parsed page: its records, in the order the service returned
/// them, and the pagination metadata.
#[derive(Clone, Debug)]
pub struct ResponseBody {
    pub documents: Vec<Document>,
    pub meta: Meta,
}

/// The category filters the search service understands.
#[derive(Clone, Copy, Debug, PartialEq, Eq, Structural)]
pub enum Category {
    Supermarket,
    ConvinienceStore,
    Kindergarden,
    School,
    Academy,
    ParkingLot,
    GasStation,
    SubwayStation,
    Bank,
    CulturalFactilities,
    Brokerage,
    PublicInstitutions,
    Attractions,
    Lodgment,
    Restaurant,
    Cafe,
    Hospital,
    Pharmacy,
}

impl Category {
    /// The wire code of each category filter.
    pub open spec fn code_spec(self) -> Seq<char> {
        match self {
            Category::Supermarket => "MT1"@,
            Category::ConvinienceStore => "CS2"@,
            Category::Kindergarden => "PS3"@,
            Category::School => "SC4"@,
            Category::Academy => "AC5"@,
            Category::ParkingLot => "PK6"@,
            Category::GasStation => "OL7"@,
            Category::SubwayStation => "SW8"@,
            Category::Bank => "BK9"@,
            Category::CulturalFactilities => "CT1"@,
            Category::Brokerage => "AG2"@,
            Category::PublicInstitutions => "PO3"@,
            Category::Attractions => "AT4"@,
            Category::Lodgment => "AD5"@,
            Category::Restaurant => "FD6"@,
            Category::Cafe => "CE7"@,
            Category::Hospital => "HP8"@,
            Category::Pharmacy => "PM9"@,
        }
    }

    /// The code the service expects in the category query parameter.
    pub fn code(&self) -> (r: String)
        ensures
            r@ == self.code_spec(),
    {
        let s = match self {
            Category::Supermarket => "MT1",
            Category::ConvinienceStore => "CS2",
            Category::Kindergarden => "PS3",
            Category::School => "SC4",
            Category::Academy => "AC5",
            Category::ParkingLot => "PK6",
            Category::GasStation => "OL7",
            Category::SubwayStation => "SW8",
            Category::Bank => "BK9",
            Category::CulturalFactilities => "CT1",
            Category::Brokerage => "AG2",
            Category::PublicInstitutions => "PO3",
            Category::Attractions => "AT4",
            Category::Lodgment => "AD5",
            Category::Restaurant => "FD6",
            Category::Cafe => "CE7",
            Category::Hospital => "HP8",
            Category::Pharmacy => "PM9",
        };
        String::from_str(s)
    }
}

/// Everything one request needs: the filter, the region, the page
/// number (1-based) and the fixed page size.
#[derive(Clone, Copy, Debug, PartialEq, Eq, Structural)]
pub struct PageQuery {
    pub category: Category,
    pub region: BoundingBox,
    pub page: usize,
    pub size: usize,
}

} // verus!
