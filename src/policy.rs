//! The version and error-correction policy: which construction of the
//! symbol a request calls for.
use vstd::prelude::*;

use crate::request::{EcLevel, Generator, VersionType};

verus! {

/// A concrete symbol version: a size within the normal or the micro family.
#[derive(Debug, Clone, Copy, PartialEq, Eq, Structural)]
pub enum SymbolVersion {
    Normal(i16),
    Micro(i16),
}

/// The versions that exist: normal 1 to 40, micro 1 to 4.
pub open spec fn version_in_range(v: SymbolVersion) -> bool {
    match v {
        SymbolVersion::Normal(n) => 1 <= n <= 40,
        SymbolVersion::Micro(n) => 1 <= n <= 4,
    }
}

/// Modules across one side of a symbol of version `v`.
pub open spec fn version_width(v: SymbolVersion) -> int {
    match v {
        SymbolVersion::Normal(n) => n * 4 + 17,
        SymbolVersion::Micro(n) => n * 2 + 9,
    }
}

/// How the symbol is to be built.
#[derive(Debug, Clone, Copy, PartialEq, Eq, Structural)]
pub enum Construction {
    /// At exactly this version and level.
    Fixed { version: SymbolVersion, ec_level: EcLevel },
    /// At the smallest normal version that holds the payload at this level.
    Auto { ec_level: EcLevel },
    /// At the smallest normal version, at the encoder's own default level.
    AutoDefault,
}

/// The decision table, first match wins: an explicit version number gives a
/// fixed version of the requested family, at the requested level or else at
/// `L`; without a version number the family is irrelevant and the version
/// is chosen automatically, at the requested level if there is one.
pub open spec fn construction_of(
    version_type: VersionType,
    version_number: Option<i16>,
    ec_level: Option<EcLevel>,
) -> Construction {
    match (version_type, version_number, ec_level) {
        (VersionType::MicroVersion, Some(n), Some(e)) => Construction::Fixed {
            version: SymbolVersion::Micro(n),
            ec_level: e,
        },
        (VersionType::MicroVersion, Some(n), None) => Construction::Fixed {
            version: SymbolVersion::Micro(n),
            ec_level: EcLevel::L,
        },
        (VersionType::NormalVersion, Some(n), Some(e)) => Construction::Fixed {
            version: SymbolVersion::Normal(n),
            ec_level: e,
        },
        (VersionType::NormalVersion, Some(n), None) => Construction::Fixed {
            version: SymbolVersion::Normal(n),
            ec_level: EcLevel::L,
        },
        (_, None, Some(e)) => Construction::Auto { ec_level: e },
        (_, None, None) => Construction::AutoDefault,
    }
}

impl Generator {
    /// The construction that this request calls for (see `construction_of`).
    pub fn construction(&self) -> (r: Construction)
        ensures
            r == construction_of(self.version_type, self.version_number, self.error_correction_level),
    {
        match (self.version_type, self.version_number, self.error_correction_level) {
            (VersionType::MicroVersion, Some(n), Some(e)) => Construction::Fixed {
                version: SymbolVersion::Micro(n),
                ec_level: e,
            },
            (VersionType::MicroVersion, Some(n), None) => Construction::Fixed {
                version: SymbolVersion::Micro(n),
                ec_level: EcLevel::L,
            },
            (VersionType::NormalVersion, Some(n), Some(e)) => Construction::Fixed {
                version: SymbolVersion::Normal(n),
                ec_level: e,
            },
            (VersionType::NormalVersion, Some(n), None) => Construction::Fixed {
                version: SymbolVersion::Normal(n),
                ec_level: EcLevel::L,
            },
            (_, None, Some(e)) => Construction::Auto { ec_level: e },
            (_, None, None) => Construction::AutoDefault,
        }
    }
}

} // verus!
