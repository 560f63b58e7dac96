//! The vendor API's response envelope.

use vstd::prelude::*;

use crate::record::GachaRecord;

verus! {

/// The payload of a successful response: one page of records.
#[derive(Debug, Clone, PartialEq)]
pub struct ResponseData {
    pub page: Option<String>,
    pub size: String,
    pub list: Vec<GachaRecord>,
    pub region: Option<String>,
    pub region_time_zone: Option<i64>,
}

/// One response of the vendor API; `retcode` 0 means success.
#[derive(Debug, Clone, PartialEq)]
pub struct Response {
    pub retcode: i64,
    pub message: String,
    pub data: Option<ResponseData>,
}

} // verus!
