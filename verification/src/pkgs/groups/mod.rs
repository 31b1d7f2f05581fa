//! Package-group listings of the standard source: the data shapes
//! only — the listing feature itself is not provided.

use vstd::prelude::*;

verus! {

/// One package of a group listing.
#[allow(dead_code)]
#[derive(Debug, Clone)]
pub struct Package {
    arch: String,
    repo: String,
    name: String,
    version: String,
    desc: String,
    updated: String,
    flag: String,
}

/// One row of a group overview listing.
#[allow(dead_code)]
#[derive(Debug, Clone)]
pub struct ListGroup {
    arch: String,
    name: String,
    packs: String,
    update: String,
}

} // verus!
