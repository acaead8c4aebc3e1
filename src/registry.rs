use crate::error::CargoError;
use crate::package::{DepKind, Dependency, Package, SourceId, SourceKind, same_source};
use vstd::prelude::*;

verus! {

/// Registry settings read from the configuration store.
pub struct RegistryConfig {
    pub index: Option<String>,
    pub token: Option<String>,
}

/// Options of one owners invocation.
pub struct OwnersOptions {
    pub krate: Option<String>,
    pub token: Option<String>,
    pub index: Option<String>,
    pub to_add: Option<Vec<String>>,
    pub to_remove: Option<Vec<String>>,
    pub list: bool,
}

/// Whether a dependency may be published to the registry `reg`: a path
/// dependency needs an explicit version requirement, any other must come
/// from `reg` itself.
pub open spec fn dep_publishable(d: Dependency, reg: SourceId) -> bool {
    if d.source_id.kind == SourceKind::Path {
        d.specified_req
    } else {
        same_source(d.source_id, reg)
    }
}

/// The error that `verify_dependencies` reports for a dependency that is not publishable.
pub open spec fn dep_error(d: Dependency, e: CargoError) -> bool {
    if d.source_id.kind == SourceKind::Path {
        e == CargoError::PathDependencyWithoutVersion(d.name)
    } else {
        e == CargoError::ForeignSource(d.name, d.source_id.url)
    }
}

/// `r` is what checking `deps` against the registry `reg` gives: success
/// exactly when every dependency is publishable, else the error for the
/// first one that is not.
pub open spec fn dependencies_verdict(deps: Seq<Dependency>, reg: SourceId, r: Result<(), CargoError>) -> bool {
    &&& r is Ok <==> forall|i: int| 0 <= i < deps.len() ==> dep_publishable(#[trigger] deps[i], reg)
    &&& r is Err ==> exists|i: int|
        0 <= i < deps.len() && !dep_publishable(deps[i], reg) && dep_error(deps[i], r->Err_0)
            && forall|j: int| 0 <= j < i ==> dep_publishable(#[trigger] deps[j], reg)
}

/// Checks that every dependency may be published to the registry
/// `registry_src`; reports the first that may not.
pub fn verify_dependencies(pkg: &Package, registry_src: &SourceId) -> (r: Result<(), CargoError>)
    ensures
        dependencies_verdict(pkg.manifest.summary.dependencies@, *registry_src, r),
{
    let deps = pkg.dependencies();
    let mut i: usize = 0;
    while i < deps.len()
        invariant
            deps@ == pkg.manifest.summary.dependencies@,
            i <= deps@.len(),
            forall|j: int| 0 <= j < i ==> dep_publishable(#[trigger] deps@[j], *registry_src),
        decreases deps@.len() - i,
    {
        let dep = &deps[i];
        if dep.source_id.is_path() {
            if !dep.specified_req {
                return Err(CargoError::PathDependencyWithoutVersion(dep.name.clone()));
            }
        } else if !(dep.source_id == *registry_src) {
            return Err(CargoError::ForeignSource(dep.name.clone(), dep.source_id.url.clone()));
        }
        i = i + 1;
    }
    Ok(())
}

/// The checks made before anything is packaged or sent: the package may be
/// published, and so may each of its dependencies.
pub fn check_publish(pkg: &Package, registry_src: &SourceId) -> (r: Result<(), CargoError>)
    ensures
        !pkg.manifest.publish ==> r == Err::<(), CargoError>(
            CargoError::Unpublishable(pkg.manifest.summary.package_id.name),
        ),
        pkg.manifest.publish ==> dependencies_verdict(
            pkg.manifest.summary.dependencies@,
            *registry_src,
            r,
        ),
{
    if !pkg.publish() {
        return Err(CargoError::Unpublishable(pkg.manifest.summary.package_id.name.clone()));
    }
    verify_dependencies(pkg, registry_src)
}

/// The line printed for one owner: the login, then the display name and the
/// email as far as they are known.
pub open spec fn owner_line_spec(
    login: Seq<char>,
    name: Option<Seq<char>>,
    email: Option<Seq<char>>,
) -> Seq<char> {
    match (name, email) {
        (Some(n), Some(e)) => login + " ("@ + n + " <"@ + e + ">)"@,
        (Some(s), None) => login + " ("@ + s + ")"@,
        (None, Some(s)) => login + " ("@ + s + ")"@,
        (None, None) => login,
    }
}

pub open spec fn opt_view(o: Option<String>) -> Option<Seq<char>> {
    match o {
        Some(s) => Some(s@),
        None => None,
    }
}

/// Formats one owner of a crate for listing.
pub fn owner_line(login: &str, name: &Option<String>, email: &Option<String>) -> (r: String)
    ensures
        r@ == owner_line_spec(login@, opt_view(*name), opt_view(*email)),
{
    let s = String::from_str(login);
    match (name, email) {
        (Some(n), Some(e)) => {
            let s = s.concat(" (");
            let s = s.concat(n.as_str());
            let s = s.concat(" <");
            let s = s.concat(e.as_str());
            s.concat(">)")
        },
        (Some(v), None) | (None, Some(v)) => {
            let s = s.concat(" (");
            let s = s.concat(v.as_str());
            s.concat(")")
        },
        (None, None) => s,
    }
}

/// A yank or unyank to send to the registry.
pub struct YankAction {
    pub name: String,
    pub version: String,
    pub undo: bool,
}

impl YankAction {
    /// The status word printed before the request.
    pub fn status_label(&self) -> (r: String)
        ensures
            self.undo ==> r@ == "Unyank"@,
            !self.undo ==> r@ == "Yank"@,
    {
        if self.undo {
            String::from_str("Unyank")
        } else {
            String::from_str("Yank")
        }
    }

    /// The error reported when the registry refuses the request for `cause`.
    pub fn failure(&self, cause: String) -> (r: CargoError)
        ensures
            self.undo ==> r == CargoError::UnyankFailed(cause),
            !self.undo ==> r == CargoError::YankFailed(cause),
    {
        if self.undo {
            CargoError::UnyankFailed(cause)
        } else {
            CargoError::YankFailed(cause)
        }
    }

    /// The subject printed after the status word: `name:version`.
    pub fn status_message(&self) -> (r: String)
        ensures
            r@ == self.name@ + ":"@ + self.version@,
    {
        let s = self.name.clone();
        let s = s.concat(":");
        s.concat(self.version.as_str())
    }
}

/// Decides the yank to send: the crate is the one named (`krate`), else the
/// one of the manifest found (`manifest_name`); a version is required.
pub fn yank(krate: Option<String>, manifest_name: Option<String>, version: Option<String>, undo: bool) -> (r:
    Result<YankAction, CargoError>)
    ensures
        krate is None && manifest_name is None ==> r == Err::<YankAction, CargoError>(
            CargoError::ManifestNotFound,
        ),
        (krate is Some || manifest_name is Some) && version is None ==> r == Err::<
            YankAction,
            CargoError,
        >(CargoError::YankVersionMissing),
        (krate is Some || manifest_name is Some) && version is Some ==> r == Ok::<
            YankAction,
            CargoError,
        >(
            YankAction {
                name: if krate is Some {
                    krate->0
                } else {
                    manifest_name->0
                },
                version: version->0,
                undo,
            },
        ),
{
    let name = crate_name(krate, manifest_name)?;
    match version {
        Some(v) => Ok(YankAction { name, version: v, undo }),
        None => Err(CargoError::YankVersionMissing),
    }
}

/// One dependency as the registry's publish request carries it.
#[derive(Debug)]
pub struct NewCrateDependency {
    pub optional: bool,
    pub default_features: bool,
    pub name: String,
    pub features: Vec<String>,
    pub version_req: String,
    pub target: Option<String>,
    pub kind: String,
}

/// The registry's publish request, without the archive that goes with it.
#[derive(Debug)]
pub struct NewCrate {
    pub name: String,
    pub vers: String,
    pub deps: Vec<NewCrateDependency>,
    pub features: Vec<(String, Vec<String>)>,
    pub authors: Vec<String>,
    pub description: Option<String>,
    pub homepage: Option<String>,
    pub documentation: Option<String>,
    pub keywords: Vec<String>,
    pub readme: Option<String>,
    pub repository: Option<String>,
    pub license: Option<String>,
    pub license_file: Option<String>,
}

/// What `transmit` decided: stop before the upload, or upload this request.
#[derive(Debug)]
pub enum Transmit {
    DryRun,
    Upload(NewCrate),
}

/// The wire name of a dependency kind.
pub open spec fn kind_tag(k: DepKind) -> Seq<char> {
    match k {
        DepKind::Normal => "normal"@,
        DepKind::Build => "build"@,
        DepKind::Development => "dev"@,
    }
}

pub open spec fn strings_view(v: Seq<String>) -> Seq<Seq<char>> {
    v.map_values(|s: String| s@)
}

/// `w` is the wire record of the dependency `d`.
pub open spec fn wire_dep(w: NewCrateDependency, d: Dependency) -> bool {
    &&& w.optional == d.optional
    &&& w.default_features == d.default_features
    &&& w.name@ == d.name@
    &&& strings_view(w.features@) == strings_view(d.features@)
    &&& w.version_req@ == d.version_req@
    &&& opt_view(w.target) == opt_view(d.platform)
    &&& w.kind@ == kind_tag(d.kind)
}

fn clone_strings(v: &Vec<String>) -> (r: Vec<String>)
    ensures
        r@ == v@,
{
    let mut r: Vec<String> = Vec::new();
    let mut i: usize = 0;
    while i < v.len()
        invariant
            i <= v@.len(),
            r@ == v@.subrange(0, i as int),
        decreases v@.len() - i,
    {
        r.push(v[i].clone());
        i = i + 1;
        assert(r@ =~= v@.subrange(0, i as int));
    }
    assert(v@.subrange(0, v@.len() as int) =~= v@);
    r
}

fn clone_opt(o: &Option<String>) -> (r: Option<String>)
    ensures
        r == *o,
{
    match o {
        Some(s) => Some(s.clone()),
        None => None,
    }
}

fn clone_features(v: &Vec<(String, Vec<String>)>) -> (r: Vec<(String, Vec<String>)>)
    ensures
        r@.len() == v@.len(),
        forall|i: int|
            0 <= i < v@.len() ==> (#[trigger] r@[i]).0 == v@[i].0 && r@[i].1@ == v@[i].1@,
{
    let mut r: Vec<(String, Vec<String>)> = Vec::new();
    let mut i: usize = 0;
    while i < v.len()
        invariant
            i <= v@.len(),
            r@.len() == i,
            forall|k: int| 0 <= k < i ==> (#[trigger] r@[k]).0 == v@[k].0 && r@[k].1@ == v@[k].1@,
        decreases v@.len() - i,
    {
        r.push((v[i].0.clone(), clone_strings(&v[i].1)));
        i = i + 1;
    }
    r
}

/// The wire record of one dependency.
pub fn new_crate_dependency(dep: &Dependency) -> (r: NewCrateDependency)
    ensures
        wire_dep(r, *dep),
{
    let kind = match dep.kind {
        DepKind::Normal => String::from_str("normal"),
        DepKind::Build => String::from_str("build"),
        DepKind::Development => String::from_str("dev"),
    };
    let features = clone_strings(&dep.features);
    NewCrateDependency {
        optional: dep.optional,
        default_features: dep.default_features,
        name: dep.name.clone(),
        features,
        version_req: dep.version_req.clone(),
        target: clone_opt(&dep.platform),
        kind,
    }
}

/// `c` is the publish request for `pkg` with the readme text `readme`.
pub open spec fn request_of(c: NewCrate, pkg: Package, readme: Option<String>) -> bool {
    let m = pkg.manifest;
    let deps = m.summary.dependencies@;
    &&& c.name@ == m.summary.package_id.name@
    &&& c.vers@ == m.summary.package_id.version@
    &&& c.deps@.len() == deps.len()
    &&& forall|i: int| 0 <= i < deps.len() ==> wire_dep(#[trigger] c.deps@[i], deps[i])
    &&& c.features@.len() == m.summary.features@.len()
    &&& forall|i: int|
        0 <= i < c.features@.len() ==> (#[trigger] c.features@[i]).0 == m.summary.features@[i].0
            && c.features@[i].1@ == m.summary.features@[i].1@
    &&& c.authors@ == m.metadata.authors@
    &&& c.description == m.metadata.description
    &&& c.homepage == m.metadata.homepage
    &&& c.documentation == m.metadata.documentation
    &&& c.keywords@ == m.metadata.keywords@
    &&& c.readme == readme
    &&& c.repository == m.metadata.repository
    &&& c.license == m.metadata.license
    &&& c.license_file == m.metadata.license_file
}

/// Whether the declared license file, if any, is missing.
pub open spec fn license_missing(pkg: Package, license_file_exists: bool) -> bool {
    pkg.manifest.metadata.license_file is Some && !license_file_exists
}

/// What `transmit` decides for these inputs.
pub open spec fn transmit_post(
    pkg: Package,
    readme: Option<String>,
    license_file_exists: bool,
    dry_run: bool,
    r: Result<Transmit, CargoError>,
) -> bool {
    &&& license_missing(pkg, license_file_exists) ==> r == Err::<Transmit, CargoError>(
        CargoError::LicenseFileMissing(pkg.manifest.metadata.license_file->0),
    )
    &&& !license_missing(pkg, license_file_exists) ==> r is Ok
    &&& r is Ok && dry_run ==> r->Ok_0 is DryRun
    &&& r is Ok && !dry_run ==> r->Ok_0 is Upload && request_of(r->Ok_0->Upload_0, pkg, readme)
}

/// Decides what to send for `pkg`, given the readme text read from disk and
/// whether the declared license file exists: a missing license file is an
/// error; a dry run stops before the upload; otherwise the one request to upload.
pub fn transmit(pkg: &Package, readme: Option<String>, license_file_exists: bool, dry_run: bool) -> (r:
    Result<Transmit, CargoError>)
    ensures
        transmit_post(*pkg, readme, license_file_exists, dry_run, r),
{
    let m = &pkg.manifest;
    match &m.metadata.license_file {
        Some(file) => {
            if !license_file_exists {
                return Err(CargoError::LicenseFileMissing(file.clone()));
            }
        },
        None => {},
    }
    if dry_run {
        return Ok(Transmit::DryRun);
    }
    let src = &m.summary.dependencies;
    let mut deps: Vec<NewCrateDependency> = Vec::new();
    let mut i: usize = 0;
    while i < src.len()
        invariant
            i <= src@.len(),
            deps@.len() == i,
            forall|k: int| 0 <= k < i ==> wire_dep(#[trigger] deps@[k], src@[k]),
        decreases src@.len() - i,
    {
        deps.push(new_crate_dependency(&src[i]));
        i = i + 1;
    }
    let md = &m.metadata;
    Ok(
        Transmit::Upload(
            NewCrate {
                name: m.summary.package_id.name.clone(),
                vers: m.summary.package_id.version.clone(),
                deps,
                features: clone_features(&m.summary.features),
                authors: clone_strings(&md.authors),
                description: clone_opt(&md.description),
                homepage: clone_opt(&md.homepage),
                documentation: clone_opt(&md.documentation),
                keywords: clone_strings(&md.keywords),
                readme,
                repository: clone_opt(&md.repository),
                license: clone_opt(&md.license),
                license_file: clone_opt(&md.license_file),
            },
        ),
    )
}

/// Where the license file is in order, a dry run succeeds and sends nothing,
/// and any other run sends exactly one request, each of whose dependency
/// records carries one of the three kind tags.
pub proof fn transmit_sends_at_most_one_request(
    pkg: Package,
    readme: Option<String>,
    license_file_exists: bool,
    dry_run: bool,
    r: Result<Transmit, CargoError>,
)
    requires
        transmit_post(pkg, readme, license_file_exists, dry_run, r),
        !license_missing(pkg, license_file_exists),
    ensures
        dry_run ==> r == Ok::<Transmit, CargoError>(Transmit::DryRun),
        !dry_run ==> r is Ok && r->Ok_0 is Upload && forall|i: int|
            0 <= i < r->Ok_0->Upload_0.deps@.len() ==> {
                let t = (#[trigger] r->Ok_0->Upload_0.deps@[i]).kind@;
                t == "normal"@ || t == "build"@ || t == "dev"@
            },
{
    if !dry_run {
        let c = r->Ok_0->Upload_0;
        assert forall|i: int| 0 <= i < c.deps@.len() implies {
            let t = (#[trigger] c.deps@[i]).kind@;
            t == "normal"@ || t == "build"@ || t == "dev"@
        } by {
            assert(wire_dep(c.deps@[i], pkg.manifest.summary.dependencies@[i]));
        }
    }
}

/// The crate an operation is about: the one named, else the one whose
/// manifest was found in the working directory.
pub fn crate_name(krate: Option<String>, manifest_name: Option<String>) -> (r: Result<String, CargoError>)
    ensures
        krate is Some ==> r == Ok::<String, CargoError>(krate->0),
        krate is None && manifest_name is Some ==> r == Ok::<String, CargoError>(manifest_name->0),
        krate is None && manifest_name is None ==> r == Err::<String, CargoError>(
            CargoError::ManifestNotFound,
        ),
{
    match krate {
        Some(k) => Ok(k),
        None => match manifest_name {
            Some(m) => Ok(m),
            None => Err(CargoError::ManifestNotFound),
        },
    }
}

/// The requests of one owners invocation, in the order they are sent:
/// additions, removals, then the listing.
pub struct OwnersPlan {
    pub name: String,
    pub to_add: Option<Vec<String>>,
    pub to_remove: Option<Vec<String>>,
    pub list: bool,
}

/// Decides the owners requests for `opts`; the crate is the one named in
/// `opts`, else the one of the manifest found (`manifest_name`).
pub fn modify_owners(opts: OwnersOptions, manifest_name: Option<String>) -> (r: Result<OwnersPlan, CargoError>)
    ensures
        opts.krate is None && manifest_name is None <==> r is Err,
        r is Err ==> r->Err_0 is ManifestNotFound,
        r is Ok ==> {
            let p = r->Ok_0;
            &&& p.name == if opts.krate is Some {
                opts.krate->0
            } else {
                manifest_name->0
            }
            &&& p.to_add == opts.to_add
            &&& p.to_remove == opts.to_remove
            &&& p.list == opts.list
        },
{
    let OwnersOptions { krate, token: _, index: _, to_add, to_remove, list } = opts;
    let name = crate_name(krate, manifest_name)?;
    Ok(OwnersPlan { name, to_add, to_remove, list })
}

/// `s` with each double quote and backslash preceded by a backslash.
pub open spec fn escape_spec(s: Seq<char>) -> Seq<char>
    decreases s.len(),
{
    if s.len() == 0 {
        Seq::empty()
    } else {
        let c = s.last();
        escape_spec(s.drop_last()) + if c == '"' || c == '\\' {
            seq!['\\', c]
        } else {
            seq![c]
        }
    }
}

/// The items of `v`, each quoted, separated by ", ".
pub open spec fn quoted_items(v: Seq<Seq<char>>) -> Seq<char>
    decreases v.len(),
{
    if v.len() == 0 {
        Seq::empty()
    } else {
        let q = seq!['"'] + escape_spec(v.last()) + seq!['"'];
        if v.len() == 1 {
            q
        } else {
            quoted_items(v.drop_last()) + ", "@ + q
        }
    }
}

fn escape(s: &str) -> (r: String)
    ensures
        r@ == escape_spec(s@),
{
    let n = s.unicode_len();
    let mut r = String::new();
    let mut i: usize = 0;
    while i < n
        invariant
            n == s@.len(),
            i <= n,
            r@ == escape_spec(s@.subrange(0, i as int)),
        decreases n - i,
    {
        let c = s.get_char(i);
        let one = s.substring_char(i, i + 1);
        assert(one@ =~= seq![c]);
        let ghost before = r@;
        if c == '"' || c == '\\' {
            proof {
                reveal_strlit("\\");
            }
            r.append("\\");
        }
        r.append(one);
        assert(s@.subrange(0, i + 1).drop_last() =~= s@.subrange(0, i as int));
        assert(r@ =~= escape_spec(s@.subrange(0, i + 1)));
        i = i + 1;
    }
    assert(s@.subrange(0, n as int) =~= s@);
    r
}

/// The logins of `v` as a bracketed list of quoted strings: `["a", "b"]`.
pub fn quoted_list(v: &Vec<String>) -> (r: String)
    ensures
        r@ == "["@ + quoted_items(strings_view(v@)) + "]"@,
{
    let mut body = String::new();
    let mut i: usize = 0;
    while i < v.len()
        invariant
            i <= v@.len(),
            body@ == quoted_items(strings_view(v@.subrange(0, i as int))),
        decreases v@.len() - i,
    {
        proof {
            reveal_strlit("\"");
            reveal_strlit(", ");
        }
        let ghost before = body@;
        if i > 0 {
            body.append(", ");
        }
        body.append("\"");
        body.append(escape(v[i].as_str()).as_str());
        body.append("\"");
        let ghost w = strings_view(v@.subrange(0, i + 1));
        assert(w.drop_last() =~= strings_view(v@.subrange(0, i as int)));
        assert(w.last() == v@[i as int]@);
        assert(body@ =~= quoted_items(w));
        i = i + 1;
    }
    assert(v@.subrange(0, v@.len() as int) =~= v@);
    let r = String::from_str("[");
    let r = r.concat(body.as_str());
    r.concat("]")
}

/// The status printed before adding owners (`adding`) or removing them.
pub fn owners_status(adding: bool, logins: &Vec<String>, name: &str) -> (r: String)
    ensures
        adding ==> r@ == "adding "@ + "["@ + quoted_items(strings_view(logins@)) + "]"@
            + " to crate "@ + name@,
        !adding ==> r@ == "removing "@ + "["@ + quoted_items(strings_view(logins@)) + "]"@
            + " from crate "@ + name@,
{
    let list = quoted_list(logins);
    if adding {
        String::from_str("adding ").concat(list.as_str()).concat(" to crate ").concat(name)
    } else {
        String::from_str("removing ").concat(list.as_str()).concat(" from crate ").concat(name)
    }
}

} // verus!
