//! Raw pull records as the vendor API returns them.

use vstd::prelude::*;

use crate::uigf::LanguageCode;

verus! {

/// One pull entry of one category, as delivered by the vendor API.
#[derive(Debug, Clone, PartialEq)]
pub struct GachaRecord {
    pub uid: String,
    pub gacha_id: Option<String>,
    pub gacha_type: String,
    pub item_id: String,
    pub count: Option<String>,
    pub time: String,
    pub name: Option<String>,
    pub lang: LanguageCode,
    pub item_type: Option<String>,
    pub rank_type: Option<String>,
    pub id: String,
}

/// Why a raw record could not be normalized.
#[derive(Debug, Clone, Copy, PartialEq, Eq, Structural)]
pub enum RecordError {
    /// The category code is not one of the title's known codes.
    InvalidCategoryCode,
    /// A field that the title requires is absent.
    MissingField,
}

} // verus!

verus! {

/// Why a title collection could not be built.
#[derive(Debug, Clone, Copy, PartialEq, Eq, Structural)]
pub enum CollectError {
    /// No record at all was available.
    NoDataFound,
    /// The title needs the response's time-zone offset and it was absent.
    MissingTimezone,
}

} // verus!
