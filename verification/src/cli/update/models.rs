//! What the package manager reports about the published tool.

use vstd::prelude::*;

verus! {

/// The versions of a formula.
#[derive(Debug, Clone, PartialEq, Eq)]
pub struct BrewVersions {
    pub stable: String,
}

/// One formula.
#[derive(Debug, Clone, PartialEq, Eq)]
pub struct BrewFormulae {
    pub name: String,
    pub versions: BrewVersions,
    pub installed: Vec<BrewInstalled>,
}

/// One installed version of a formula.
#[derive(Debug, Clone, PartialEq, Eq)]
pub struct BrewInstalled {
    pub version: String,
}

/// The whole report.
#[derive(Debug, Clone, PartialEq, Eq)]
pub struct BrewInfo {
    pub formulae: Vec<BrewFormulae>,
}

} // verus!
