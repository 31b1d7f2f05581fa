use libxinux::PackageAttr;
use libxinux::error::Error;
use libxinux::get_arch;
use libxinux::pkgs::any::Any;
use libxinux::pkgs::aur::Aur;
use libxinux::pkgs::aur::By;
use libxinux::pkgs::standard::{Arch, Repo, Std};

#[test]
fn std_test_new() {
    println!("std_test_new");
    let std_client = Std::new().unwrap();
    assert_eq!(std_client.url().as_str(), libxinux::pkgs::standard::BASE_URL);
}

#[test]
fn aur_test_new() {
    println!("aur_test_new");
    let aur = Aur::new().unwrap();
    assert_eq!(aur.url().as_str(), libxinux::pkgs::aur::BASE_URL);
}

#[test]
fn any_test_new() {
    println!("any_test_new");
    let any = Any::new().unwrap();
    assert_eq!(any.standard.url().as_str(), "https://archlinux.org/packages/");
    assert_eq!(any.aur.url().as_str(), "https://aur.archlinux.org/rpc/?v=5");
}

#[test]
fn set_url_normalizes() {
    let mut std_client = Std::new().unwrap();
    std_client.set_url("HTTPS://EXAMPLE.COM".to_string()).unwrap();
    assert_eq!(std_client.url().as_str(), "https://example.com/");
}

#[test]
fn set_url_rejects_malformed() {
    let mut aur = Aur::new().unwrap();
    let r = aur.set_url("not a url".to_string());
    assert!(matches!(r, Err(Error::ParseUrlError(_))));
    assert_eq!(aur.url().as_str(), "https://aur.archlinux.org/rpc/?v=5");
}

#[test]
fn std_search_url() {
    let std_client = Std::new().unwrap();
    assert_eq!(
        std_client.search_url("linux"),
        "https://archlinux.org/packages/search/json/?q=linux"
    );
}

#[test]
fn std_info_url() {
    let std_client = Std::new().unwrap();
    assert_eq!(
        std_client.info_url("linux", Repo::Core),
        "https://archlinux.org/packages//core/x86_64/linux/json"
    );
}

#[test]
fn aur_search_url() {
    let aur = Aur::new().unwrap();
    assert_eq!(
        aur.search_url("hello", None),
        "https://aur.archlinux.org/rpc/?v=5&type=search&arg=hello"
    );
    assert_eq!(
        aur.search_url("hello", Some(By::Maintainer)),
        "https://aur.archlinux.org/rpc/?v=5&type=search&arg=hello&by=maintainer"
    );
}

#[test]
fn aur_info_url() {
    let aur = Aur::new().unwrap();
    assert_eq!(
        aur.info_url("archlinux-hello"),
        "https://aur.archlinux.org/rpc/?v=5&type=info&arg[]=archlinux-hello"
    );
}

#[test]
fn repo_wire_names() {
    assert_eq!(Repo::Core.to_string(), "core");
    assert_eq!(Repo::CoreTesting.to_string(), "core-testing");
    assert_eq!(Repo::Extra.to_string(), "extra");
    assert_eq!(Repo::ExtraTesting.to_string(), "extra-testing");
    assert_eq!(Repo::Multilib.to_string(), "multilib");
    assert_eq!(Repo::MultilibTesting.to_string(), "multilib-testing");
    assert_eq!(Repo::GnomeUnstable.to_string(), "gnome-unstable");
    assert_eq!(Repo::KdeUnstable.to_string(), "kde-unstable");
    assert_eq!(Repo::Testing.to_string(), "testing");
}

#[test]
fn arch_wire_names() {
    assert_eq!(Arch::Any.to_string(), "any");
    assert_eq!(Arch::X86_64.to_string(), "x86_64");
    assert_eq!(Arch::X86.to_string(), "i686");
}

#[test]
fn by_wire_names() {
    assert_eq!(By::Name.to_string(), "name");
    assert_eq!(By::NameDesc.to_string(), "name-desc");
    assert_eq!(By::Maintainer.to_string(), "maintainer");
    assert_eq!(By::Depends.to_string(), "depends");
    assert_eq!(By::MakeDepends.to_string(), "make-depends");
    assert_eq!(By::OptDepends.to_string(), "opt-depends");
    assert_eq!(By::CheckDepends.to_string(), "check-depends");
}

#[test]
fn error_descriptions() {
    assert_eq!(
        Error::ResponseError("boom".to_string()).describe(),
        "Response error: boom"
    );
    assert_eq!(
        Error::ParseUrlError("bad".to_string()).describe(),
        "Couldn't parse the url: bad"
    );
    assert_eq!(
        Error::FetchError("down".to_string()).describe(),
        "Couldn't fetch data from url: down"
    );
    assert_eq!(
        Error::NoParams("search".to_string()).describe(),
        "No parameters provided for search query"
    );
    assert_eq!(
        Error::NoResults("linux".to_string()).describe(),
        "No results found for query linux"
    );
}

#[test]
fn package_attr_strings() {
    let plain = PackageAttr::NixPkgs { attr: "hello".to_string() };
    assert_eq!(plain.to_string(), "hello");
    let external = PackageAttr::External {
        url: "github:owner/repo".to_string(),
        attr: "hello".to_string(),
    };
    assert_eq!(external.to_string(), "github:owner/repo#hello");
    let default = PackageAttr::default();
    assert_eq!(default.to_string(), "");
}

#[test]
fn get_arch_prefers_first_probe() {
    assert_eq!(
        get_arch(
            Some("x86_64-nixos".to_string()),
            Some("x86_64-nix".to_string()),
            Some("x86_64-eval".to_string()),
        ),
        "x86_64-nixos"
    );
    assert_eq!(
        get_arch(None, Some("x86_64-nix".to_string()), Some("x86_64-eval".to_string())),
        "x86_64-nix"
    );
    assert_eq!(get_arch(None, None, Some("x86_64-eval".to_string())), "x86_64-eval");
}
