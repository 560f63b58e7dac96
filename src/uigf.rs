//! The UIGF v4 interchange document and its shared field types.

use vstd::prelude::*;

use crate::hk4e::Hk4e;
use crate::hkrpg::Hkrpg;
use crate::nap::Nap;
use crate::text::{parse_u64, u64_of_text};

verus! {

/// Name of the application recorded in exported documents.
pub const EXPORT_APP: &'static str = "libgacha";

/// Version of the application recorded in exported documents.
pub const EXPORT_APP_VERSION: &'static str = "0.1.0";

/// Version of the interchange standard that documents follow.
pub const UIGF_VERSION: &'static str = "v4.0";

/// Language of the item names in a record.
#[derive(Debug, Clone, Copy, PartialEq, Eq, Hash, Structural)]
pub enum LanguageCode {
    DeDe,
    EnUs,
    EsEs,
    FrFr,
    IdId,
    ItIt,
    JaJp,
    KoKr,
    PtPt,
    RuRu,
    ThTh,
    TrTr,
    ViVn,
    ZhCn,
    ZhTw,
}

/// Seconds-resolution timestamp of an export.
#[derive(Debug, Clone, PartialEq)]
pub enum ExportTimestamp {
    String(String),
    Integer(u64),
}

/// An account id: numeric where the text is a decimal number, else the text.
#[derive(Debug, Clone, PartialEq)]
pub enum Uid {
    String(String),
    Integer(u64),
}

impl Uid {
    /// Whether `self` is what reading the text `s` gives.
    pub open spec fn reads(self, s: Seq<char>) -> bool {
        match self {
            Uid::Integer(n) => u64_of_text(s) == Some(n),
            Uid::String(t) => u64_of_text(s) is None && t@ == s,
        }
    }

    /// Reads an account id: a decimal number where `s` is one, else `s` itself.
    pub fn parse(s: &str) -> (r: Uid)
        ensures
            r.reads(s@),
    {
        match parse_u64(s) {
            Some(n) => Uid::Integer(n),
            None => Uid::String(String::from_str(s)),
        }
    }
}

impl ExportTimestamp {
    /// Whether `self` is what reading the text `s` gives.
    pub open spec fn reads(self, s: Seq<char>) -> bool {
        match self {
            ExportTimestamp::Integer(n) => u64_of_text(s) == Some(n),
            ExportTimestamp::String(t) => u64_of_text(s) is None && t@ == s,
        }
    }

    /// Reads a timestamp: a decimal number where `s` is one, else `s` itself.
    pub fn parse(s: &str) -> (r: ExportTimestamp)
        ensures
            r.reads(s@),
    {
        match parse_u64(s) {
            Some(n) => ExportTimestamp::Integer(n),
            None => ExportTimestamp::String(String::from_str(s)),
        }
    }

    /// The current time, in whole seconds since the Unix epoch.
    pub fn now() -> (r: ExportTimestamp)
        ensures
            r is Integer,
    {
        ExportTimestamp::Integer(unix_seconds_now())
    }
}

impl std::str::FromStr for Uid {
    type Err = ();

    fn from_str(s: &str) -> Result<Uid, ()> {
        Ok(Uid::parse(s))
    }
}

impl std::str::FromStr for ExportTimestamp {
    type Err = ();

    fn from_str(s: &str) -> Result<ExportTimestamp, ()> {
        Ok(ExportTimestamp::parse(s))
    }
}

/// Relies on `std::time::SystemTime::now` and `duration_since(UNIX_EPOCH)`:
/// whole seconds since the epoch, or 0 for a clock set before it.
#[verifier::external_body]
fn unix_seconds_now() -> u64 {
    std::time::SystemTime::now().duration_since(std::time::UNIX_EPOCH).map_or(0, |d| d.as_secs())
}

/// Bookkeeping fields of an exported document.
#[derive(Debug, Clone, PartialEq)]
pub struct Info {
    pub export_timestamp: ExportTimestamp,
    pub export_app: String,
    pub export_app_version: String,
    pub version: String,
}

impl Info {
    /// Bookkeeping for a document exported now.
    pub fn new() -> (r: Info)
        ensures
            r.export_timestamp is Integer,
            r.export_app@ == EXPORT_APP@,
            r.export_app_version@ == EXPORT_APP_VERSION@,
            r.version@ == UIGF_VERSION@,
    {
        Info {
            export_timestamp: ExportTimestamp::now(),
            export_app: String::from_str(EXPORT_APP),
            export_app_version: String::from_str(EXPORT_APP_VERSION),
            version: String::from_str(UIGF_VERSION),
        }
    }
}

/// A UIGF v4 document: bookkeeping plus the collections of each title.
#[derive(Debug, Clone, PartialEq)]
pub struct UigfV4 {
    pub info: Info,
    pub hk4e: Option<Vec<Hk4e>>,
    pub hkrpg: Option<Vec<Hkrpg>>,
    pub nap: Option<Vec<Nap>>,
}

impl UigfV4 {
    /// A document with no title collections.
    pub fn new() -> (r: UigfV4)
        ensures
            r.hk4e is None,
            r.hkrpg is None,
            r.nap is None,
            r.info.version@ == UIGF_VERSION@,
    {
        UigfV4 { info: Info::new(), hk4e: None, hkrpg: None, nap: None }
    }

    /// A document holding Genshin Impact collections only.
    pub fn new_hk4e(hk4e: Vec<Hk4e>) -> (r: UigfV4)
        ensures
            r.hk4e == Some(hk4e),
            r.hkrpg is None,
            r.nap is None,
            r.info.version@ == UIGF_VERSION@,
    {
        UigfV4 { info: Info::new(), hk4e: Some(hk4e), hkrpg: None, nap: None }
    }

    /// A document holding Honkai: Star Rail collections only.
    pub fn new_hkrpg(hkrpg: Vec<Hkrpg>) -> (r: UigfV4)
        ensures
            r.hk4e is None,
            r.hkrpg == Some(hkrpg),
            r.nap is None,
            r.info.version@ == UIGF_VERSION@,
    {
        UigfV4 { info: Info::new(), hk4e: None, hkrpg: Some(hkrpg), nap: None }
    }

    /// A document holding Zenless Zone Zero collections only.
    pub fn new_nap(nap: Vec<Nap>) -> (r: UigfV4)
        ensures
            r.hk4e is None,
            r.hkrpg is None,
            r.nap == Some(nap),
            r.info.version@ == UIGF_VERSION@,
    {
        UigfV4 { info: Info::new(), hk4e: None, hkrpg: None, nap: Some(nap) }
    }
}

} // verus!
