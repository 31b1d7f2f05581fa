//! Native wire schema of the standard distribution repositories.

use vstd::prelude::*;
use crate::pkgs::any::{DataView, ToAny};
use crate::pkgs::clone_strings;

verus! {

/// A repository family of the standard source: the named
/// sub-repository bucket a package lives in.
#[derive(Debug, Clone, Copy, PartialEq, Eq, Structural)]
pub enum Repo {
    Core,
    CoreTesting,
    Extra,
    ExtraTesting,
    Multilib,
    MultilibTesting,
    GnomeUnstable,
    KdeUnstable,
    Testing,
}

/// A target architecture of a package.
#[derive(Debug, Clone, Copy, PartialEq, Eq, Structural)]
pub enum Arch {
    Any,
    X86_64,
    X86,
}

/// The lowercase wire name of a repository family, as it appears in
/// the endpoint path.
pub open spec fn repo_wire(r: Repo) -> Seq<char> {
    match r {
        Repo::Core => "core"@,
        Repo::CoreTesting => "core-testing"@,
        Repo::Extra => "extra"@,
        Repo::ExtraTesting => "extra-testing"@,
        Repo::Multilib => "multilib"@,
        Repo::MultilibTesting => "multilib-testing"@,
        Repo::GnomeUnstable => "gnome-unstable"@,
        Repo::KdeUnstable => "kde-unstable"@,
        Repo::Testing => "testing"@,
    }
}

/// The wire name of an architecture, as it appears in the endpoint path.
pub open spec fn arch_wire(a: Arch) -> Seq<char> {
    match a {
        Arch::Any => "any"@,
        Arch::X86_64 => "x86_64"@,
        Arch::X86 => "i686"@,
    }
}

impl Repo {
    /// Render the family under its lowercase wire name.
    pub fn to_string(&self) -> (r: String)
        ensures
            r@ == repo_wire(*self),
    {
        match self {
            Repo::Core => "core".to_owned(),
            Repo::CoreTesting => "core-testing".to_owned(),
            Repo::Extra => "extra".to_owned(),
            Repo::ExtraTesting => "extra-testing".to_owned(),
            Repo::Multilib => "multilib".to_owned(),
            Repo::MultilibTesting => "multilib-testing".to_owned(),
            Repo::GnomeUnstable => "gnome-unstable".to_owned(),
            Repo::KdeUnstable => "kde-unstable".to_owned(),
            Repo::Testing => "testing".to_owned(),
        }
    }
}

impl Arch {
    /// Render the architecture under its wire name.
    pub fn to_string(&self) -> (r: String)
        ensures
            r@ == arch_wire(*self),
    {
        match self {
            Arch::Any => "any".to_owned(),
            Arch::X86_64 => "x86_64".to_owned(),
            Arch::X86 => "i686".to_owned(),
        }
    }
}

/// A package record as the standard source returns it. Timestamps are
/// Unix epoch seconds.
#[derive(Debug, Clone, PartialEq)]
pub struct Data {
    pub pkg_name: String,
    pub pkg_base: String,
    pub repo: Repo,
    pub arch: Arch,
    pub pkg_ver: String,
    pub pkg_rel: String,
    pub epoch: i32,
    pub pkg_desc: String,
    pub url: String,
    pub filename: String,
    pub compressed_size: u64,
    pub installed_size: u64,
    pub build_date: i64,
    pub last_update: i64,
    pub flag_date: Option<String>,
    pub maintainers: Vec<String>,
    pub packager: String,
    pub groups: Vec<String>,
    pub licenses: Vec<String>,
    pub conflicts: Vec<String>,
    pub provides: Vec<String>,
    pub replaces: Vec<String>,
    pub depends: Vec<String>,
    pub opt_depends: Vec<String>,
    pub make_depends: Vec<String>,
    pub check_depends: Vec<String>,
}

/// The response envelope of a standard-source search.
#[derive(Debug, Clone, PartialEq)]
pub struct Response {
    pub version: i32,
    pub limit: i32,
    pub valid: bool,
    pub results: Vec<Data>,
    pub num_pages: Option<i32>,
    pub page: Option<i32>,
}

impl ToAny for Data {
    /// A standard record maps to canonical form field for field: its
    /// architecture and repository family pass through, the standard
    /// provenance tag is set, the maintainers become the authors, and
    /// the install command is a native package-manager invocation.
    open spec fn canonical(&self) -> DataView {
        DataView {
            name: self.pkg_name@,
            base: self.pkg_base@,
            description: Some(self.pkg_desc@),
            arch: self.arch,
            repo: Some(self.repo),
            types: crate::pkgs::any::Type::Std,
            version: self.pkg_ver@,
            url: self.url@,
            author: self.maintainers.deep_view(),
            updated: self.last_update,
            install: "sudo pacman -S "@ + self.pkg_name@,
        }
    }

    fn to_any(&self) -> crate::pkgs::any::Data {
        let mut install = "sudo pacman -S ".to_owned();
        install.append(self.pkg_name.as_str());
        crate::pkgs::any::Data {
            name: self.pkg_name.clone(),
            base: self.pkg_base.clone(),
            description: Some(self.pkg_desc.clone()),
            arch: self.arch,
            repo: Some(self.repo),
            types: crate::pkgs::any::Type::Std,
            version: self.pkg_ver.clone(),
            url: self.url.clone(),
            author: clone_strings(&self.maintainers),
            updated: self.last_update,
            install,
        }
    }
}

} // verus!
