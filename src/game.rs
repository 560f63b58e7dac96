//! Titles, regions and the categories of each title.

use vstd::prelude::*;

use crate::text::same_text;

verus! {

/// A title together with the region of its client.
#[derive(Debug, Clone, Copy, PartialEq, Eq, Hash, Structural)]
pub enum GameType {
    Hk4eCN,
    Hk4eGlobal,
    HkrpgCN,
    HkrpgGlobal,
    NapCN,
    NapGlobal,
}

/// The three title families.
#[derive(Debug, Clone, Copy, PartialEq, Eq, Hash, Structural)]
pub enum Family {
    Hk4e,
    Hkrpg,
    Nap,
}

impl GameType {
    pub open spec fn spec_family(self) -> Family {
        match self {
            GameType::Hk4eCN | GameType::Hk4eGlobal => Family::Hk4e,
            GameType::HkrpgCN | GameType::HkrpgGlobal => Family::Hkrpg,
            GameType::NapCN | GameType::NapGlobal => Family::Nap,
        }
    }

    /// The title family of this client.
    pub fn family(&self) -> (r: Family)
        ensures
            r == self.spec_family(),
    {
        match self {
            GameType::Hk4eCN | GameType::Hk4eGlobal => Family::Hk4e,
            GameType::HkrpgCN | GameType::HkrpgGlobal => Family::Hkrpg,
            GameType::NapCN | GameType::NapGlobal => Family::Nap,
        }
    }

    /// The client whose command-line name is `s`, if any.
    pub open spec fn of_name(s: Seq<char>) -> Option<GameType> {
        if s == "hk4ecn"@ {
            Some(GameType::Hk4eCN)
        } else if s == "hk4eglobal"@ {
            Some(GameType::Hk4eGlobal)
        } else if s == "hkrpgcn"@ {
            Some(GameType::HkrpgCN)
        } else if s == "hkrpgglobal"@ {
            Some(GameType::HkrpgGlobal)
        } else if s == "napcn"@ {
            Some(GameType::NapCN)
        } else if s == "napglobal"@ {
            Some(GameType::NapGlobal)
        } else {
            None
        }
    }
}

/// Reads a client name as the command line writes it (`hk4ecn`, `napglobal`, ...).
pub fn parse_game(value: &str) -> (r: Result<GameType, String>)
    ensures
        match GameType::of_name(value@) {
            Some(g) => r == Ok::<GameType, String>(g),
            None => r matches Err(e) && e@ == "invalid game"@,
        },
{
    if same_text(value, "hk4ecn") {
        Ok(GameType::Hk4eCN)
    } else if same_text(value, "hk4eglobal") {
        Ok(GameType::Hk4eGlobal)
    } else if same_text(value, "hkrpgcn") {
        Ok(GameType::HkrpgCN)
    } else if same_text(value, "hkrpgglobal") {
        Ok(GameType::HkrpgGlobal)
    } else if same_text(value, "napcn") {
        Ok(GameType::NapCN)
    } else if same_text(value, "napglobal") {
        Ok(GameType::NapGlobal)
    } else {
        Err(String::from_str("invalid game"))
    }
}

/// A pull category of one of the titles.
#[derive(Debug, Clone, Copy, PartialEq, Eq, Hash, Structural)]
pub enum GachaType {
    Hk4e(crate::hk4e::GachaType),
    Hkrpg(crate::hkrpg::GachaType),
    Nap(crate::nap::GachaType),
}

impl GachaType {
    pub open spec fn spec_code(self) -> Seq<char> {
        match self {
            GachaType::Hk4e(t) => t.spec_code(),
            GachaType::Hkrpg(t) => t.spec_code(),
            GachaType::Nap(t) => t.spec_code(),
        }
    }

    pub open spec fn spec_family(self) -> Family {
        match self {
            GachaType::Hk4e(_) => Family::Hk4e,
            GachaType::Hkrpg(_) => Family::Hkrpg,
            GachaType::Nap(_) => Family::Nap,
        }
    }

    /// The category code as the vendor API writes it.
    pub fn code(&self) -> (r: &'static str)
        ensures
            r@ == self.spec_code(),
    {
        match self {
            GachaType::Hk4e(t) => t.code(),
            GachaType::Hkrpg(t) => t.code(),
            GachaType::Nap(t) => t.code(),
        }
    }

    /// The title family that this category belongs to.
    pub fn family(&self) -> (r: Family)
        ensures
            r == self.spec_family(),
    {
        match self {
            GachaType::Hk4e(_) => Family::Hk4e,
            GachaType::Hkrpg(_) => Family::Hkrpg,
            GachaType::Nap(_) => Family::Nap,
        }
    }
}

} // verus!
