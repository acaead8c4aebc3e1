use cargo_registry::lev::lev_distance;
use cargo_registry::{
    CargoError, DepKind, Dependency, Manifest, ManifestMetadata, Package, PackageId, PackageSet,
    Source, SourceId, SourceKind, SourceMap, Summary, Target, TargetKind,
};
use std::cell::Cell;
use std::rc::Rc;

fn sid(kind: SourceKind, url: &str) -> SourceId {
    SourceId { kind, url: url.to_string() }
}

fn pid(name: &str, version: &str) -> PackageId {
    PackageId {
        name: name.to_string(),
        version: version.to_string(),
        source_id: sid(SourceKind::Registry, "https://example.com/index"),
    }
}

fn metadata() -> ManifestMetadata {
    ManifestMetadata {
        authors: vec!["someone".to_string()],
        description: None,
        homepage: None,
        documentation: None,
        keywords: vec![],
        readme: None,
        repository: None,
        license: None,
        license_file: None,
    }
}

fn package(id: PackageId, targets: Vec<Target>) -> Package {
    let manifest = Manifest {
        summary: Summary { package_id: id, dependencies: vec![], features: vec![] },
        targets,
        metadata: metadata(),
        publish: true,
    };
    Package::new(manifest, "/work/foo/Cargo.toml")
}

fn target(name: &str, kind: TargetKind) -> Target {
    Target { name: name.to_string(), kind }
}

struct Counting {
    calls: Rc<Cell<u32>>,
    fail: bool,
}

impl Source for Counting {
    fn download(&mut self, id: &PackageId) -> Result<Package, CargoError> {
        self.calls.set(self.calls.get() + 1);
        if self.fail {
            return Err(CargoError::Download("offline".to_string()));
        }
        Ok(package(
            PackageId {
                name: id.name.clone(),
                version: id.version.clone(),
                source_id: sid(id.source_id.kind, &id.source_id.url),
            },
            vec![],
        ))
    }
}

fn set_with(ids: Vec<PackageId>, fail: bool) -> (PackageSet<Counting>, Rc<Cell<u32>>) {
    let calls = Rc::new(Cell::new(0));
    let mut map = SourceMap::new();
    map.insert(
        sid(SourceKind::Registry, "https://example.com/index"),
        Counting { calls: calls.clone(), fail },
    );
    (PackageSet::new(ids, map), calls)
}

#[test]
fn lev_distance_examples() {
    assert_eq!(lev_distance("server", "serv"), 2);
    assert_eq!(lev_distance("kitten", "sitting"), 3);
    assert_eq!(lev_distance("", "abc"), 3);
    assert_eq!(lev_distance("abc", ""), 3);
    assert_eq!(lev_distance("same", "same"), 0);
}

#[test]
fn closest_target_within_distance() {
    let p = package(
        pid("foo", "1.0.0"),
        vec![target("serv", TargetKind::Bin), target("client", TargetKind::Bin)],
    );
    let t = p.find_closest_target("server", TargetKind::Bin).unwrap();
    assert_eq!(t.name, "serv");
}

#[test]
fn closest_target_none_when_far() {
    let p = package(
        pid("foo", "1.0.0"),
        vec![target("alpha", TargetKind::Bin), target("gamma", TargetKind::Bin)],
    );
    assert!(p.find_closest_target("server", TargetKind::Bin).is_none());
}

#[test]
fn closest_target_ignores_other_kinds() {
    let p = package(pid("foo", "1.0.0"), vec![target("server", TargetKind::Example)]);
    assert!(p.find_closest_target("server", TargetKind::Bin).is_none());
}

#[test]
fn closest_target_first_on_tie() {
    let p = package(
        pid("foo", "1.0.0"),
        vec![target("servex", TargetKind::Bin), target("servey", TargetKind::Bin)],
    );
    assert_eq!(p.find_closest_target("server", TargetKind::Bin).unwrap().name, "servex");
}

#[test]
fn custom_build_detected() {
    let p = package(pid("foo", "1.0.0"), vec![target("build-script-build", TargetKind::CustomBuild)]);
    assert!(p.has_custom_build());
    let q = package(pid("foo", "1.0.0"), vec![target("foo", TargetKind::Lib)]);
    assert!(!q.has_custom_build());
}

#[test]
fn package_accessors() {
    let p = package(pid("foo", "1.2.3"), vec![target("foo", TargetKind::Lib)]);
    assert_eq!(p.name(), "foo");
    assert_eq!(p.version(), "1.2.3");
    assert_eq!(p.root(), "/work/foo");
    assert_eq!(p.manifest_path(), "/work/foo/Cargo.toml");
    assert_eq!(p.targets().len(), 1);
    assert_eq!(p.dependencies().len(), 0);
    assert_eq!(p.authors().len(), 1);
    assert!(p.publish());
    assert!(*p.package_id() == pid("foo", "1.2.3"));
}

#[test]
fn root_of_plain_and_top_level_paths() {
    let m = |path: &str| {
        let manifest = Manifest {
            summary: Summary { package_id: pid("foo", "1.0.0"), dependencies: vec![], features: vec![] },
            targets: vec![],
            metadata: metadata(),
            publish: true,
        };
        Package::new(manifest, path)
    };
    assert_eq!(m("Cargo.toml").root(), "");
    assert_eq!(m("/Cargo.toml").root(), "/");
    assert_eq!(m("a/b/Cargo.toml").root(), "a/b");
}

#[test]
fn metadata_is_hex_of_identity_hash() {
    let a = package(pid("foo", "1.0.0"), vec![]).generate_metadata();
    let b = package(pid("foo", "1.0.0"), vec![]).generate_metadata();
    let c = package(pid("bar", "1.0.0"), vec![]).generate_metadata();
    assert_eq!(a.metadata.len(), 16);
    assert!(a.metadata.chars().all(|ch| ch.is_ascii_hexdigit()));
    assert_eq!(a.extra_filename, format!("-{}", a.metadata));
    assert_eq!(a.metadata, b.metadata);
    assert_ne!(a.metadata, c.metadata);
}

#[test]
fn package_set_downloads_once() {
    let (mut set, calls) = set_with(vec![pid("a", "1.0.0"), pid("b", "1.0.0")], false);
    assert_eq!(set.get(&pid("a", "1.0.0")).unwrap().name(), "a");
    assert_eq!(calls.get(), 1);
    assert_eq!(set.get(&pid("a", "1.0.0")).unwrap().name(), "a");
    assert_eq!(calls.get(), 1);
    assert_eq!(set.get(&pid("b", "1.0.0")).unwrap().name(), "b");
    assert_eq!(calls.get(), 2);
    assert_eq!(set.package_ids().len(), 2);
    assert_eq!(set.sources().len(), 1);
}

#[test]
fn package_set_unknown_id() {
    let (mut set, calls) = set_with(vec![pid("a", "1.0.0")], false);
    assert!(matches!(set.get(&pid("zzz", "1.0.0")), Err(CargoError::PackageNotInSet)));
    assert_eq!(calls.get(), 0);
}

#[test]
fn package_set_missing_source() {
    let other = PackageId {
        name: "a".to_string(),
        version: "1.0.0".to_string(),
        source_id: sid(SourceKind::Git, "https://example.com/repo"),
    };
    let (mut set, _) = set_with(vec![other], false);
    let again = PackageId {
        name: "a".to_string(),
        version: "1.0.0".to_string(),
        source_id: sid(SourceKind::Git, "https://example.com/repo"),
    };
    assert!(matches!(set.get(&again), Err(CargoError::SourceNotFound)));
}

#[test]
fn package_set_download_failure_retries() {
    let (mut set, calls) = set_with(vec![pid("a", "1.0.0")], true);
    assert!(matches!(set.get(&pid("a", "1.0.0")), Err(CargoError::Download(_))));
    assert!(matches!(set.get(&pid("a", "1.0.0")), Err(CargoError::Download(_))));
    assert_eq!(calls.get(), 2);
}

#[test]
fn source_map_insert_replaces() {
    let mut map: SourceMap<Counting> = SourceMap::new();
    let calls = Rc::new(Cell::new(0));
    map.insert(sid(SourceKind::Registry, "r"), Counting { calls: calls.clone(), fail: false });
    map.insert(sid(SourceKind::Registry, "r"), Counting { calls: calls.clone(), fail: true });
    map.insert(sid(SourceKind::Path, "r"), Counting { calls, fail: true });
    assert_eq!(map.len(), 2);
}

#[test]
fn dependency_fields_kept() {
    let d = Dependency {
        name: "x".to_string(),
        version_req: "^1".to_string(),
        source_id: sid(SourceKind::Path, "file:///x"),
        kind: DepKind::Build,
        optional: false,
        default_features: true,
        features: vec![],
        platform: None,
        specified_req: true,
    };
    assert!(d.source_id.is_path());
}

#[test]
fn packages_equal_by_identity() {
    let a = package(pid("foo", "1.0.0"), vec![target("x", TargetKind::Bin)]);
    let b = package(pid("foo", "1.0.0"), vec![]);
    let c = package(pid("foo", "2.0.0"), vec![]);
    assert!(a == b);
    assert!(a != c);
    assert_eq!(pid("foo", "1.0.0").display(), "foo v1.0.0");
}
