use cargo_registry::network::{
    http_handle, http_proxy, http_proxy_exists, http_timeout, prefer, registry, registry_login,
};
use cargo_registry::registry::{
    crate_name, modify_owners, owners_status, quoted_list,
    check_publish, new_crate_dependency, owner_line, transmit, verify_dependencies, yank, Transmit,
};
use cargo_registry::search::{
    collapse_newlines, decimal, search_hint, search_hint_for, search_label, search_lines,
    truncate_with_ellipsis, SearchRow,
};
use cargo_registry::{
    CargoError, DepKind, Dependency, Manifest, ManifestMetadata, OwnersOptions, Package, PackageId, RegistryConfig,
    SourceId, SourceKind, Summary,
};

const REG: &str = "https://github.com/rust-lang/crates.io-index";

fn sid(kind: SourceKind, url: &str) -> SourceId {
    SourceId { kind, url: url.to_string() }
}

fn dep(name: &str, source: SourceId, specified: bool, kind: DepKind) -> Dependency {
    Dependency {
        name: name.to_string(),
        version_req: "^1.0".to_string(),
        source_id: source,
        kind,
        optional: false,
        default_features: true,
        features: vec!["f".to_string()],
        platform: None,
        specified_req: specified,
    }
}

fn meta(license_file: Option<&str>) -> ManifestMetadata {
    ManifestMetadata {
        authors: vec!["a".to_string()],
        description: Some("d".to_string()),
        homepage: None,
        documentation: None,
        keywords: vec!["k".to_string()],
        readme: None,
        repository: None,
        license: Some("MIT".to_string()),
        license_file: license_file.map(|s| s.to_string()),
    }
}

fn pkg_with(deps: Vec<Dependency>, publish: bool, license_file: Option<&str>) -> Package {
    let manifest = Manifest {
        summary: Summary {
            package_id: PackageId {
                name: "foo".to_string(),
                version: "0.1.0".to_string(),
                source_id: sid(SourceKind::Path, "file:///work/foo"),
            },
            dependencies: deps,
            features: vec![("default".to_string(), vec!["f".to_string()])],
        },
        targets: vec![],
        metadata: meta(license_file),
        publish,
    };
    Package::new(manifest, "/work/foo/Cargo.toml")
}

#[test]
fn path_dependency_without_version_rejected() {
    let p = pkg_with(vec![dep("bar", sid(SourceKind::Path, "file:///bar"), false, DepKind::Normal)], true, None);
    let e = verify_dependencies(&p, &sid(SourceKind::Registry, REG)).unwrap_err();
    assert!(matches!(e, CargoError::PathDependencyWithoutVersion(ref n) if n == "bar"));
    assert_eq!(
        e.message(),
        "all path dependencies must have a version specified when publishing.\ndependency `bar` does not specify a version"
    );
}

#[test]
fn path_dependency_with_version_accepted() {
    let p = pkg_with(vec![dep("bar", sid(SourceKind::Path, "file:///bar"), true, DepKind::Normal)], true, None);
    assert!(verify_dependencies(&p, &sid(SourceKind::Registry, REG)).is_ok());
}

#[test]
fn foreign_registry_dependency_rejected() {
    let p = pkg_with(
        vec![dep("baz", sid(SourceKind::Registry, "https://other.example/index"), true, DepKind::Normal)],
        true,
        None,
    );
    let e = verify_dependencies(&p, &sid(SourceKind::Registry, REG)).unwrap_err();
    assert!(matches!(e, CargoError::ForeignSource(ref n, ref s) if n == "baz" && s == "https://other.example/index"));
    assert_eq!(
        e.message(),
        "all dependencies must come from the same source.\ndependency `baz` comes from https://other.example/index instead"
    );
}

#[test]
fn registry_dependencies_accepted() {
    let p = pkg_with(
        vec![
            dep("a", sid(SourceKind::Registry, REG), true, DepKind::Normal),
            dep("b", sid(SourceKind::Registry, REG), true, DepKind::Development),
        ],
        true,
        None,
    );
    assert!(verify_dependencies(&p, &sid(SourceKind::Registry, REG)).is_ok());
    assert!(check_publish(&p, &sid(SourceKind::Registry, REG)).is_ok());
}

#[test]
fn unpublishable_rejected() {
    let p = pkg_with(vec![], false, None);
    let e = check_publish(&p, &sid(SourceKind::Registry, REG)).unwrap_err();
    assert!(matches!(e, CargoError::Unpublishable(ref n) if n == "foo"));
}

#[test]
fn dependency_kind_tags() {
    let reg = sid(SourceKind::Registry, REG);
    assert_eq!(new_crate_dependency(&dep("a", sid(SourceKind::Registry, REG), true, DepKind::Normal)).kind, "normal");
    assert_eq!(new_crate_dependency(&dep("a", sid(SourceKind::Registry, REG), true, DepKind::Build)).kind, "build");
    let d = new_crate_dependency(&dep("a", reg, true, DepKind::Development));
    assert_eq!(d.kind, "dev");
    assert_eq!(d.name, "a");
    assert_eq!(d.version_req, "^1.0");
    assert_eq!(d.features, vec!["f".to_string()]);
}

#[test]
fn transmit_dry_run_sends_nothing() {
    let p = pkg_with(vec![dep("a", sid(SourceKind::Registry, REG), true, DepKind::Normal)], true, None);
    assert!(matches!(transmit(&p, None, true, true), Ok(Transmit::DryRun)));
}

#[test]
fn transmit_builds_one_upload() {
    let p = pkg_with(
        vec![
            dep("a", sid(SourceKind::Registry, REG), true, DepKind::Normal),
            dep("b", sid(SourceKind::Registry, REG), true, DepKind::Build),
            dep("c", sid(SourceKind::Registry, REG), true, DepKind::Development),
        ],
        true,
        None,
    );
    match transmit(&p, Some("readme text".to_string()), true, false) {
        Ok(Transmit::Upload(c)) => {
            assert_eq!(c.name, "foo");
            assert_eq!(c.vers, "0.1.0");
            assert_eq!(c.readme.as_deref(), Some("readme text"));
            assert_eq!(c.license.as_deref(), Some("MIT"));
            assert_eq!(c.features.len(), 1);
            let kinds: Vec<&str> = c.deps.iter().map(|d| d.kind.as_str()).collect();
            assert_eq!(kinds, vec!["normal", "build", "dev"]);
        }
        _ => panic!("expected an upload"),
    }
}

#[test]
fn transmit_missing_license_file() {
    let p = pkg_with(vec![], true, Some("LICENSE.txt"));
    let e = transmit(&p, None, false, true).unwrap_err();
    assert_eq!(e.message(), "the license file `LICENSE.txt` does not exist");
    assert!(transmit(&p, None, true, true).is_ok());
}

#[test]
fn owner_lines() {
    let s = |v: &str| Some(v.to_string());
    assert_eq!(owner_line("login", &s("A"), &s("a@x")), "login (A <a@x>)");
    assert_eq!(owner_line("login", &None, &s("a@x")), "login (a@x)");
    assert_eq!(owner_line("login", &s("A"), &None), "login (A)");
    assert_eq!(owner_line("login", &None, &None), "login");
}

#[test]
fn yank_needs_version() {
    let e = yank(Some("foo".to_string()), None, None, false).err().unwrap();
    assert_eq!(e.message(), "a version must be specified to yank");
}

#[test]
fn yank_status_lines() {
    let a = yank(Some("foo".to_string()), None, Some("1.0.0".to_string()), false).ok().unwrap();
    assert_eq!(a.status_label(), "Yank");
    assert_eq!(a.status_message(), "foo:1.0.0");
    let u = yank(Some("foo".to_string()), None, Some("1.0.0".to_string()), true).ok().unwrap();
    assert_eq!(u.status_label(), "Unyank");
}

#[test]
fn truncation_of_descriptions() {
    let long: String = "x".repeat(200);
    let t = truncate_with_ellipsis(&long, 128);
    assert_eq!(t.chars().count(), 129);
    assert!(t.starts_with(&"x".repeat(128)));
    assert!(t.ends_with('…'));
    let short: String = "y".repeat(50);
    assert_eq!(truncate_with_ellipsis(&short, 128), short);
    let exact: String = "z".repeat(128);
    assert_eq!(truncate_with_ellipsis(&exact, 128), exact);
    assert_eq!(collapse_newlines("a\nb\nc"), "a b c");
}

#[test]
fn search_lines_are_aligned() {
    let rows = vec![
        SearchRow { name: "ab".to_string(), max_version: "1.0.0".to_string(), description: Some("first\nline".to_string()) },
        SearchRow { name: "abcd".to_string(), max_version: "0.1.0".to_string(), description: None },
    ];
    assert_eq!(search_label(&rows[0]), "ab (1.0.0)");
    let lines = search_lines(&rows);
    assert_eq!(lines[0], "ab (1.0.0)      first line");
    assert_eq!(lines[1], "abcd (0.1.0)");
}

#[test]
fn search_hints() {
    assert_eq!(decimal(0), "0");
    assert_eq!(decimal(4096), "4096");
    assert_eq!(
        search_hint(150, 50, "q").unwrap(),
        "... and 100 crates more (use --limit N to see more)"
    );
    assert!(search_hint(50, 50, "q").is_none());
    assert_eq!(
        search_hint_for("foo bar", 150, 100).unwrap(),
        "... and 50 crates more (go to http://crates.io/search?q=foo%20bar to see more)"
    );
}

#[test]
fn registry_resolution_precedence() {
    let cfg = || RegistryConfig { index: Some("https://cfg.example/index".to_string()), token: Some("cfgtok".to_string()) };
    let t = registry(Some("argtok".to_string()), None, cfg()).ok().unwrap();
    assert_eq!(t.token.as_deref(), Some("argtok"));
    assert_eq!(t.index, "https://cfg.example/index");
    assert_eq!(t.source_id.kind, SourceKind::Registry);
    assert_eq!(t.source_id.url, "https://cfg.example/index");
    let d = registry(None, None, RegistryConfig { index: None, token: None }).ok().unwrap();
    assert_eq!(d.index, REG);
    assert!(d.token.is_none());
    let bad = registry(None, Some("not a url".to_string()), cfg()).err().unwrap();
    assert!(matches!(bad, CargoError::InvalidIndexUrl(_)));
}

#[test]
fn http_settings() {
    assert!(matches!(http_handle(false, None, None), Err(CargoError::NetworkDisabled)));
    let h = http_handle(true, Some("proxy:8080".to_string()), None).unwrap();
    assert_eq!((h.connect_timeout, h.low_speed_limit, h.low_speed_time), (30, 10, 30));
    assert_eq!(h.proxy.as_deref(), Some("proxy:8080"));
    let t = http_handle(true, None, Some(5)).unwrap();
    assert_eq!((t.connect_timeout, t.low_speed_time), (5, 5));
}

#[test]
fn proxy_and_timeout_precedence() {
    assert_eq!(http_proxy(Some("a".to_string()), Some("b".to_string())).as_deref(), Some("a"));
    assert_eq!(http_proxy(None, Some("b".to_string())).as_deref(), Some("b"));
    assert_eq!(prefer(None, None), None);
    assert!(http_proxy_exists(&Some("a".to_string()), &[false; 4]));
    assert!(http_proxy_exists(&None, &[false, false, true, false]));
    assert!(!http_proxy_exists(&None, &[false; 4]));
    assert_eq!(http_timeout(Some(7), Some("9")), Some(7));
    assert_eq!(http_timeout(None, Some("9")), Some(9));
    assert_eq!(http_timeout(None, Some("nine")), None);
    assert_eq!(http_timeout(None, None), None);
}

#[test]
fn login_entries() {
    let e = registry_login(Some("idx".to_string()), "tok".to_string());
    assert_eq!(e, vec![("index".to_string(), "idx".to_string()), ("token".to_string(), "tok".to_string())]);
    let t = registry_login(None, "tok".to_string());
    assert_eq!(t, vec![("token".to_string(), "tok".to_string())]);
}

#[test]
fn registry_failure_messages() {
    let s = |v: &str| v.to_string();
    assert_eq!(CargoError::OwnersAdd(s("foo"), s("denied")).message(), "failed to add owners to crate foo: denied");
    assert_eq!(
        CargoError::OwnersRemove(s("foo"), s("denied")).message(),
        "failed to remove owners from crate foo: denied"
    );
    assert_eq!(CargoError::OwnersList(s("foo"), s("gone")).message(), "failed to list owners of crate foo: gone");
    assert_eq!(CargoError::RegistryUpdate(s("https://r")).message(), "failed to update registry https://r");
    assert_eq!(
        CargoError::SearchFailed(s("timeout")).message(),
        "failed to retrieve search results from the registry: timeout"
    );
    assert_eq!(CargoError::NetworkDisabled.message(), "attempting to make an HTTP request, but --frozen was specified");
    assert_eq!(CargoError::Download(s("offline")).message(), "unable to get packages from source: offline");
}

#[test]
fn yank_failure_kind_follows_undo() {
    let y = yank(Some("foo".to_string()), None, Some("1.0.0".to_string()), false).ok().unwrap();
    assert_eq!(y.failure("no".to_string()).message(), "failed to yank: no");
    let u = yank(Some("foo".to_string()), None, Some("1.0.0".to_string()), true).ok().unwrap();
    assert_eq!(u.failure("no".to_string()).message(), "failed to undo a yank: no");
}

#[test]
fn yank_takes_manifest_name() {
    let a = yank(None, Some("bar".to_string()), Some("2.0.0".to_string()), false).ok().unwrap();
    assert_eq!(a.status_message(), "bar:2.0.0");
    assert!(matches!(yank(None, None, None, false), Err(CargoError::ManifestNotFound)));
}

#[test]
fn owners_plan_and_status() {
    let opts = OwnersOptions {
        krate: None,
        token: None,
        index: None,
        to_add: Some(vec!["alice".to_string()]),
        to_remove: None,
        list: true,
    };
    let p = modify_owners(opts, Some("foo".to_string())).ok().unwrap();
    assert_eq!(p.name, "foo");
    assert!(p.list);
    assert_eq!(p.to_add, Some(vec!["alice".to_string()]));
    let logins = vec!["alice".to_string(), "b\"o\\b".to_string()];
    assert_eq!(quoted_list(&logins), format!("{:?}", logins));
    assert_eq!(quoted_list(&vec![]), "[]");
    assert_eq!(owners_status(true, &logins[..1].to_vec(), "foo"), "adding [\"alice\"] to crate foo");
    assert_eq!(owners_status(false, &logins[..1].to_vec(), "foo"), "removing [\"alice\"] from crate foo");
    assert!(matches!(crate_name(None, None), Err(CargoError::ManifestNotFound)));
    assert_eq!(crate_name(Some("x".to_string()), Some("y".to_string())).ok().unwrap(), "x");
}

#[test]
fn index_url_is_normalized() {
    let t = registry(None, Some("HTTPS://Cfg.Example/index".to_string()), RegistryConfig { index: None, token: None })
        .ok()
        .unwrap();
    assert_eq!(t.index, "HTTPS://Cfg.Example/index");
    assert_eq!(t.source_id.url, "https://cfg.example/index");
}
