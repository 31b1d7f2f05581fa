use libxinux::pkgs::any::{Any, Data, Type};
use libxinux::pkgs::aur;
use libxinux::pkgs::standard;
use libxinux::pkgs::standard::{Arch, Repo};

fn canonical(name: &str, provenance: Type) -> Data {
    Data {
        name: name.to_string(),
        base: name.to_string(),
        description: None,
        arch: Arch::X86_64,
        repo: match provenance {
            Type::Std => Some(Repo::Extra),
            Type::Aur => None,
        },
        types: provenance,
        version: "1.0".to_string(),
        url: "".to_string(),
        author: vec![],
        updated: 0,
        install: "".to_string(),
    }
}

fn std_record(name: &str) -> standard::Data {
    standard::Data {
        pkg_name: name.to_string(),
        pkg_base: name.to_string(),
        repo: Repo::Extra,
        arch: Arch::X86_64,
        pkg_ver: "1.0".to_string(),
        pkg_rel: "1".to_string(),
        epoch: 0,
        pkg_desc: "".to_string(),
        url: "".to_string(),
        filename: "".to_string(),
        compressed_size: 0,
        installed_size: 0,
        build_date: 0,
        last_update: 0,
        flag_date: None,
        maintainers: vec![],
        packager: "".to_string(),
        groups: vec![],
        licenses: vec![],
        conflicts: vec![],
        provides: vec![],
        replaces: vec![],
        depends: vec![],
        opt_depends: vec![],
        make_depends: vec![],
        check_depends: vec![],
    }
}

fn aur_record(name: &str) -> aur::Data {
    aur::Data {
        id: 1,
        name: name.to_string(),
        package_base_id: 1,
        package_base: name.to_string(),
        version: "1.0".to_string(),
        description: None,
        url: None,
        num_votes: 0,
        out_of_date: None,
        maintainer: None,
        first_submitted: 0,
        last_modified: 0,
        url_path: "".to_string(),
        depends: None,
        license: None,
        keywords: None,
    }
}

fn std_response(records: Vec<standard::Data>) -> standard::Response {
    standard::Response {
        version: 2,
        limit: 250,
        valid: true,
        results: records,
        num_pages: None,
        page: None,
    }
}

fn aur_response(records: Vec<aur::Data>) -> aur::Response {
    let count = records.len() as i32;
    aur::Response {
        version: 5,
        types: aur::Type::Search,
        result_count: count,
        results: records,
        error: None,
    }
}

#[test]
fn rank_sorts_by_descending_score() {
    let corpus = vec![
        canonical("linux", Type::Std),
        canonical("linux-headers", Type::Std),
        canonical("utterly-unrelated-qqq", Type::Aur),
    ];
    let ranked = Data::fuzzy_search(corpus, "linux");
    assert!(!ranked.is_empty());
    for pair in ranked.windows(2) {
        assert!(pair[0].1 >= pair[1].1);
    }
    assert_eq!(ranked[0].0.name, "linux");
}

#[test]
fn rank_excludes_nonmatches() {
    let corpus = vec![
        canonical("linux", Type::Std),
        canonical("qqq", Type::Aur),
        canonical("zzz", Type::Aur),
    ];
    let ranked = Data::fuzzy_search(corpus, "linux");
    assert_eq!(ranked.len(), 1);
    assert!(ranked.iter().all(|p| p.0.name != "qqq" && p.0.name != "zzz"));
}

#[test]
fn rank_is_deterministic() {
    let corpus = || {
        vec![
            canonical("linux-zen", Type::Std),
            canonical("linux", Type::Std),
            canonical("archlinux-keyring", Type::Aur),
            canonical("util-linux", Type::Std),
        ]
    };
    let first: Vec<(String, i64)> = Data::fuzzy_search(corpus(), "linux")
        .into_iter()
        .map(|p| (p.0.name, p.1))
        .collect();
    let second: Vec<(String, i64)> = Data::fuzzy_search(corpus(), "linux")
        .into_iter()
        .map(|p| (p.0.name, p.1))
        .collect();
    assert_eq!(first, second);
}

#[test]
fn rank_keeps_input_order_on_ties() {
    let corpus = vec![
        canonical("linux", Type::Std),
        canonical("linux", Type::Aur),
    ];
    let ranked = Data::fuzzy_search(corpus, "linux");
    assert_eq!(ranked.len(), 2);
    assert_eq!(ranked[0].1, ranked[1].1);
    assert!(matches!(ranked[0].0.types, Type::Std));
    assert!(matches!(ranked[1].0.types, Type::Aur));
}

#[test]
fn search_scenario_prefers_standard_match() {
    let ranked = Any::search(
        Ok(std_response(vec![std_record("aarch64-linux-gnu-binutils")])),
        Ok(aur_response(vec![aur_record("archlinux-hello")])),
        "linux",
    )
    .unwrap();
    assert!(!ranked.is_empty());
    assert_eq!(ranked[0].name, "aarch64-linux-gnu-binutils");
    assert_eq!(ranked.len(), 2);
}

#[test]
fn search_drops_unrelated_names() {
    let ranked = Any::search(
        Ok(std_response(vec![std_record("aarch64-linux-gnu-binutils")])),
        Ok(aur_response(vec![aur_record("qqq")])),
        "linux",
    )
    .unwrap();
    assert_eq!(ranked.len(), 1);
    assert_eq!(ranked[0].name, "aarch64-linux-gnu-binutils");
}

#[test]
fn empty_query_matches_everything_in_input_order() {
    let corpus = vec![
        canonical("zebra", Type::Std),
        canonical("alpha", Type::Aur),
    ];
    let ranked = Data::fuzzy_search(corpus, "");
    assert_eq!(ranked.len(), 2);
    assert_eq!(ranked[0].0.name, "zebra");
    assert_eq!(ranked[1].0.name, "alpha");
    assert_eq!(ranked[0].1, 0);
    assert_eq!(ranked[1].1, 0);
}
