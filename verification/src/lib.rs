//! Unified package-metadata discovery for the Arch Linux ecosystem.
//!
//! Two schema-incompatible registries — the standard distribution
//! repositories and the community-contributed AUR — are queried through
//! one aggregation layer: each source's native record is mapped into a
//! canonical record, the merged result set is ranked by fuzzy relevance
//! against the query, and a later detail lookup is routed back to the
//! source that produced the top-ranked record.

use vstd::prelude::*;

pub mod error;
pub mod pkgs;

verus! {

/// A package attribute: either a plain nixpkgs attribute or an
/// attribute qualified by an external flake URL.
#[derive(Debug, Clone)]
pub enum PackageAttr {
    NixPkgs { attr: String },
    External { url: String, attr: String },
}

/// A package reference: its attribute, optional name and version, and
/// the profile it belongs to.
#[derive(Debug, Clone, Default)]
pub struct Package {
    pub attr: PackageAttr,
    pub pname: Option<String>,
    pub version: Option<String>,
    pub profile_name: Option<String>,
}

/// An available update of one package: the attribute with the old and
/// the new version.
#[derive(Debug, Clone, Default)]
pub struct PackageUpdate {
    pub attr: PackageAttr,
    pub new_version: String,
    pub old_version: String,
}

impl Default for PackageAttr {
    /// The default attribute is an empty nixpkgs attribute.
    fn default() -> (r: Self)
        ensures
            (r matches PackageAttr::NixPkgs { attr } && attr@ == Seq::<char>::empty()),
    {
        PackageAttr::NixPkgs { attr: String::new() }
    }
}

/// The running system's architecture, chosen from the first of three
/// probes that succeeded: the system profile, the nix configuration,
/// then a flake evaluation. At least one probe must have succeeded.
pub fn get_arch(nixos: Option<String>, nix: Option<String>, eval: Option<String>) -> (r: String)
    requires
        nixos is Some || nix is Some || eval is Some,
    ensures
        nixos is Some ==> r == nixos->0,
        nixos is None && nix is Some ==> r == nix->0,
        nixos is None && nix is None ==> r == eval->0,
{
    match nixos {
        Some(a) => {
            return a;
        },
        None => {},
    }
    match nix {
        Some(a) => {
            return a;
        },
        None => {},
    }
    match eval {
        Some(a) => a,
        None => vstd::pervasive::unreached(),
    }
}

impl PackageAttr {
    /// Render the attribute as one string; an external attribute is
    /// written `url#attr`.
    pub fn to_string(&self) -> (r: String)
        ensures
            match self {
                PackageAttr::NixPkgs { attr } => r@ == attr@,
                PackageAttr::External { url, attr } => r@ == url@ + "#"@ + attr@,
            },
    {
        match self {
            PackageAttr::NixPkgs { attr } => attr.clone(),
            PackageAttr::External { url, attr } => {
                let mut s = url.clone();
                s.append("#");
                s.append(attr.as_str());
                s
            },
        }
    }
}

} // verus!
