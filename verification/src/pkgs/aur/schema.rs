//! Native wire schema of the community-contributed package registry.

use vstd::prelude::*;
use crate::pkgs::any::{DataView, ToAny};
use crate::pkgs::standard::Arch;

verus! {

/// The kind of response the community registry reports in its envelope.
#[derive(Debug, Clone, Copy, PartialEq, Eq, Structural)]
pub enum Type {
    Search,
    Error,
    MultiInfo,
}

/// The field a community search matches against, passed through
/// verbatim as a query parameter.
#[derive(Debug, Clone, Copy, PartialEq, Eq, Structural)]
pub enum By {
    Name,
    NameDesc,
    Maintainer,
    Depends,
    MakeDepends,
    OptDepends,
    CheckDepends,
}

/// The wire name of a match-field selector.
pub open spec fn by_wire(b: By) -> Seq<char> {
    match b {
        By::Name => "name"@,
        By::NameDesc => "name-desc"@,
        By::Maintainer => "maintainer"@,
        By::Depends => "depends"@,
        By::MakeDepends => "make-depends"@,
        By::OptDepends => "opt-depends"@,
        By::CheckDepends => "check-depends"@,
    }
}

impl By {
    /// Render the selector under its wire name.
    pub fn to_string(&self) -> (r: String)
        ensures
            r@ == by_wire(*self),
    {
        match self {
            By::Name => "name".to_owned(),
            By::NameDesc => "name-desc".to_owned(),
            By::Maintainer => "maintainer".to_owned(),
            By::Depends => "depends".to_owned(),
            By::MakeDepends => "make-depends".to_owned(),
            By::OptDepends => "opt-depends".to_owned(),
            By::CheckDepends => "check-depends".to_owned(),
        }
    }
}

/// A package record as the community registry returns it. Timestamps
/// are Unix epoch seconds.
#[derive(Debug, Clone, PartialEq)]
pub struct Data {
    pub id: i32,
    pub name: String,
    pub package_base_id: i64,
    pub package_base: String,
    pub version: String,
    pub description: Option<String>,
    pub url: Option<String>,
    pub num_votes: i32,
    pub out_of_date: Option<i32>,
    pub maintainer: Option<String>,
    pub first_submitted: i64,
    pub last_modified: i64,
    pub url_path: String,
    pub depends: Option<Vec<String>>,
    pub license: Option<Vec<String>>,
    pub keywords: Option<Vec<String>>,
}

/// The response envelope of the community registry; a present `error`
/// field means an application-level failure.
#[derive(Debug, Clone, PartialEq)]
pub struct Response {
    pub version: i32,
    pub types: Type,
    pub result_count: i32,
    pub results: Vec<Data>,
    pub error: Option<String>,
}

impl ToAny for Data {
    /// A community record maps to canonical form with the fixed
    /// default architecture, no repository family, the community
    /// provenance tag, at most one author, an empty homepage when the
    /// record carries none, and an AUR-helper install command.
    open spec fn canonical(&self) -> DataView {
        DataView {
            name: self.name@,
            base: self.package_base@,
            description: self.description.deep_view(),
            arch: Arch::X86_64,
            repo: None,
            types: crate::pkgs::any::Type::Aur,
            version: self.version@,
            url: match self.url {
                Some(u) => u@,
                None => Seq::<char>::empty(),
            },
            author: match self.maintainer {
                Some(m) => seq![m@],
                None => Seq::<Seq<char>>::empty(),
            },
            updated: self.last_modified,
            install: "paru -S "@ + self.name@,
        }
    }

    fn to_any(&self) -> crate::pkgs::any::Data {
        let description = match &self.description {
            Some(d) => Some(d.clone()),
            None => None,
        };
        let url = match &self.url {
            Some(u) => u.clone(),
            None => String::new(),
        };
        let mut author: Vec<String> = Vec::new();
        match &self.maintainer {
            Some(m) => author.push(m.clone()),
            None => (),
        };
        let mut install = "paru -S ".to_owned();
        install.append(self.name.as_str());
        let r = crate::pkgs::any::Data {
            name: self.name.clone(),
            base: self.package_base.clone(),
            description,
            arch: Arch::X86_64,
            repo: None,
            types: crate::pkgs::any::Type::Aur,
            version: self.version.clone(),
            url,
            author,
            updated: self.last_modified,
            install,
        };
        proof {
            assert(r@.author =~= self.canonical().author);
        }
        r
    }
}

} // verus!
