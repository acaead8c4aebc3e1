use crate::error::CargoError;
use crate::lev::{lev, lev_distance};
use vstd::prelude::*;

verus! {

/// Where a package comes from.
#[derive(Clone, Copy, PartialEq, Eq, Structural, Debug)]
pub enum SourceKind {
    Path,
    Registry,
    Git,
}

/// Identifies a source: its kind and its location.
#[derive(Debug)]
pub struct SourceId {
    pub kind: SourceKind,
    pub url: String,
}

pub open spec fn same_source(a: SourceId, b: SourceId) -> bool {
    a.kind == b.kind && a.url@ == b.url@
}

impl PartialEq for SourceId {
    fn eq(&self, o: &SourceId) -> (r: bool) {
        self.kind == o.kind && self.url == o.url
    }
}

impl vstd::std_specs::cmp::PartialEqSpecImpl for SourceId {
    open spec fn obeys_eq_spec() -> bool {
        true
    }

    open spec fn eq_spec(&self, o: &SourceId) -> bool {
        same_source(*self, *o)
    }
}

impl PackageId {
    /// The identity as shown to users: `name vversion`.
    pub fn display(&self) -> (r: String)
        ensures
            r@ == self.name@ + " v"@ + self.version@,
    {
        let s = self.name.clone();
        let s = s.concat(" v");
        s.concat(self.version.as_str())
    }
}

impl SourceId {
    pub fn is_path(&self) -> (r: bool)
        ensures
            r == (self.kind == SourceKind::Path),
    {
        self.kind == SourceKind::Path
    }
}

/// A package's identity: name, version and source.
#[derive(Debug)]
pub struct PackageId {
    pub name: String,
    pub version: String,
    pub source_id: SourceId,
}

pub open spec fn same_id(a: PackageId, b: PackageId) -> bool {
    a.name@ == b.name@ && a.version@ == b.version@ && same_source(a.source_id, b.source_id)
}

impl PartialEq for PackageId {
    fn eq(&self, o: &PackageId) -> (r: bool) {
        self.name == o.name && self.version == o.version && self.source_id == o.source_id
    }
}

impl vstd::std_specs::cmp::PartialEqSpecImpl for PackageId {
    open spec fn obeys_eq_spec() -> bool {
        true
    }

    open spec fn eq_spec(&self, o: &PackageId) -> bool {
        same_id(*self, *o)
    }
}

/// When a dependency is needed.
#[derive(Clone, Copy, PartialEq, Eq, Structural, Debug)]
pub enum DepKind {
    Normal,
    Build,
    Development,
}

/// One dependency as the manifest declares it.
#[derive(Debug)]
pub struct Dependency {
    pub name: String,
    pub version_req: String,
    pub source_id: SourceId,
    pub kind: DepKind,
    pub optional: bool,
    pub default_features: bool,
    pub features: Vec<String>,
    pub platform: Option<String>,
    /// Whether the author wrote a version requirement (rather than leaving "any").
    pub specified_req: bool,
}

/// What a build target produces.
#[derive(Clone, Copy, PartialEq, Eq, Structural, Debug)]
pub enum TargetKind {
    Lib,
    Bin,
    Test,
    Bench,
    Example,
    CustomBuild,
}

/// A build target of a package.
#[derive(Debug)]
pub struct Target {
    pub name: String,
    pub kind: TargetKind,
}

/// The descriptive fields of a manifest.
#[derive(Debug)]
pub struct ManifestMetadata {
    pub authors: Vec<String>,
    pub description: Option<String>,
    pub homepage: Option<String>,
    pub documentation: Option<String>,
    pub keywords: Vec<String>,
    pub readme: Option<String>,
    pub repository: Option<String>,
    pub license: Option<String>,
    pub license_file: Option<String>,
}

/// Identity, dependencies and features of a package.
#[derive(Debug)]
pub struct Summary {
    pub package_id: PackageId,
    pub dependencies: Vec<Dependency>,
    pub features: Vec<(String, Vec<String>)>,
}

/// A parsed manifest.
#[derive(Debug)]
pub struct Manifest {
    pub summary: Summary,
    pub targets: Vec<Target>,
    pub metadata: ManifestMetadata,
    pub publish: bool,
}

/// Names derived from a package identity, used to keep build outputs apart.
#[derive(Debug)]
pub struct Metadata {
    pub metadata: String,
    pub extra_filename: String,
}

/// Position of the last '/' in `p`, or -1.
pub open spec fn last_slash(p: Seq<char>) -> int
    decreases p.len(),
{
    if p.len() == 0 {
        -1
    } else if p.last() == '/' {
        p.len() - 1
    } else {
        last_slash(p.drop_last())
    }
}

/// The directory that holds the file at path `p`.
pub open spec fn parent_path(p: Seq<char>) -> Seq<char> {
    let k = last_slash(p);
    if k < 0 {
        Seq::empty()
    } else if k == 0 {
        seq!['/']
    } else {
        p.subrange(0, k)
    }
}

proof fn lemma_last_slash_range(p: Seq<char>)
    ensures
        -1 <= last_slash(p) < p.len(),
        last_slash(p) >= 0 ==> p[last_slash(p)] == '/',
    decreases p.len(),
{
    if p.len() > 0 && p.last() != '/' {
        lemma_last_slash_range(p.drop_last());
    }
}

/// The lowercase hex digits of the `count` low bytes of `v`, least
/// significant byte first, each byte as two digits.
pub open spec fn hex_le(v: nat, count: nat) -> Seq<char>
    decreases count,
{
    if count == 0 {
        Seq::empty()
    } else {
        let b = v % 256;
        seq!["0123456789abcdef"@[(b / 16) as int], "0123456789abcdef"@[(b % 16) as int]] + hex_le(
            v / 256,
            (count - 1) as nat,
        )
    }
}

/// A number for each source kind, fed to the identity hash.
pub open spec fn kind_code(k: SourceKind) -> u8 {
    match k {
        SourceKind::Path => 0,
        SourceKind::Registry => 1,
        SourceKind::Git => 2,
    }
}

/// What std's SipHasher (zero keys) makes of the identity fields.
pub uninterp spec fn id_hash(name: Seq<char>, version: Seq<char>, kind: u8, url: Seq<char>) -> u64;

/// Relies on std::hash::BuildHasher::hash_one over SipHasher with zero keys:
/// the hash depends on the hashed values alone.
#[verifier::external_body]
#[allow(deprecated)]
fn hash_identity(name: &str, version: &str, kind: u8, url: &str) -> (r: u64)
    ensures
        r == id_hash(name@, version@, kind, url@),
{
    std::hash::BuildHasher::hash_one(
        &std::hash::BuildHasherDefault::<std::hash::SipHasher>::default(),
        (name, version, kind, url),
    )
}

/// `hex_le(v, 8)`.
fn hex_u64(v: u64) -> (r: String)
    ensures
        r@ == hex_le(v as nat, 8),
{
    let digits = "0123456789abcdef";
    proof {
        reveal_strlit("0123456789abcdef");
    }
    let mut r = String::new();
    let mut x: u64 = v;
    let mut k: usize = 0;
    while k < 8
        invariant
            k <= 8,
            digits@ == "0123456789abcdef"@,
            digits@.len() == 16,
            r@ + hex_le(x as nat, (8 - k) as nat) == hex_le(v as nat, 8),
        decreases 8 - k,
    {
        let b = (x % 256) as usize;
        let hi = b / 16;
        let lo = b % 16;
        let ghost before = r@;
        let dh = digits.substring_char(hi, hi + 1);
        let dl = digits.substring_char(lo, lo + 1);
        assert(dh@ =~= seq![digits@[hi as int]]);
        assert(dl@ =~= seq![digits@[lo as int]]);
        r.append(dh);
        r.append(dl);
        assert(hex_le(x as nat, (8 - k) as nat) == seq![digits@[hi as int], digits@[lo as int]]
            + hex_le((x / 256) as nat, (8 - k - 1) as nat));
        assert(r@ =~= before + seq![digits@[hi as int], digits@[lo as int]]);
        assert(r@ + hex_le((x / 256) as nat, (8 - k - 1) as nat) =~= before + hex_le(
            x as nat,
            (8 - k) as nat,
        ));
        x = x / 256;
        k = k + 1;
    }
    assert(hex_le(x as nat, 0) =~= Seq::<char>::empty());
    assert(r@ + Seq::<char>::empty() =~= r@);
    r
}

/// A manifest together with the path of the file it was read from.
#[derive(Debug)]
pub struct Package {
    pub manifest: Manifest,
    pub manifest_path: String,
}

/// Two packages are the same package when their identities are the same,
/// whatever their manifests hold.
impl PartialEq for Package {
    fn eq(&self, o: &Package) -> (r: bool) {
        self.manifest.summary.package_id == o.manifest.summary.package_id
    }
}

impl vstd::std_specs::cmp::PartialEqSpecImpl for Package {
    open spec fn obeys_eq_spec() -> bool {
        true
    }

    open spec fn eq_spec(&self, o: &Package) -> bool {
        same_id(self.manifest.summary.package_id, o.manifest.summary.package_id)
    }
}

pub open spec fn is_custom_build(t: Target) -> bool {
    t.kind == TargetKind::CustomBuild
}

pub open spec fn is_candidate(t: Target, q: Seq<char>, kind: TargetKind) -> bool {
    t.kind == kind && lev(q, t.name@) < 4
}

impl Package {
    pub fn new(manifest: Manifest, manifest_path: &str) -> (r: Package)
        ensures
            r.manifest == manifest,
            r.manifest_path@ == manifest_path@,
    {
        Package { manifest, manifest_path: String::from_str(manifest_path) }
    }

    pub fn dependencies(&self) -> (r: &[Dependency])
        ensures
            r@ == self.manifest.summary.dependencies@,
    {
        self.manifest.summary.dependencies.as_slice()
    }

    pub fn manifest(&self) -> (r: &Manifest)
        ensures
            *r == self.manifest,
    {
        &self.manifest
    }

    pub fn manifest_path(&self) -> (r: &str)
        ensures
            r@ == self.manifest_path@,
    {
        self.manifest_path.as_str()
    }

    pub fn name(&self) -> (r: &str)
        ensures
            r@ == self.manifest.summary.package_id.name@,
    {
        self.manifest.summary.package_id.name.as_str()
    }

    pub fn package_id(&self) -> (r: &PackageId)
        ensures
            *r == self.manifest.summary.package_id,
    {
        &self.manifest.summary.package_id
    }

    /// The directory that holds the manifest.
    pub fn root(&self) -> (r: &str)
        requires
            self.manifest_path@.len() > 0,
            self.manifest_path@.last() != '/',
        ensures
            r@ == parent_path(self.manifest_path@),
    {
        let p = self.manifest_path.as_str();
        let n: usize = p.unicode_len();
        let mut i: usize = n;
        assert(p@.subrange(0, n as int) =~= p@);
        while i > 0
            invariant
                n == p@.len(),
                i <= n,
                p@ == self.manifest_path@,
                last_slash(p@) == last_slash(p@.subrange(0, i as int)),
            decreases i,
        {
            assert(p@.subrange(0, i as int).drop_last() =~= p@.subrange(0, i - 1));
            if p.get_char(i - 1) == '/' {
                assert(last_slash(p@) == i - 1);
                if i == 1 {
                    proof {
                        reveal_strlit("/");
                    }
                    let r = "/";
                    assert(r@ =~= seq!['/']);
                    return r;
                }
                return p.substring_char(0, i - 1);
            }
            i = i - 1;
        }
        assert(p@.subrange(0, 0) =~= Seq::<char>::empty());
        proof {
            reveal_strlit("");
        }
        let r = "";
        assert(r@ =~= Seq::<char>::empty());
        r
    }

    pub fn version(&self) -> (r: &str)
        ensures
            r@ == self.manifest.summary.package_id.version@,
    {
        self.manifest.summary.package_id.version.as_str()
    }

    /// Names derived from the package's identity: the hex digits of its hash,
    /// and the same with a leading dash for file names.
    pub fn generate_metadata(&self) -> (r: Metadata)
        ensures
            ({
                let id = self.manifest.summary.package_id;
                let h = hex_le(
                    id_hash(id.name@, id.version@, kind_code(id.source_id.kind), id.source_id.url@)
                        as nat,
                    8,
                );
                r.metadata@ == h && r.extra_filename@ == seq!['-'] + h
            }),
    {
        let id = &self.manifest.summary.package_id;
        let kind: u8 = match id.source_id.kind {
            SourceKind::Path => 0,
            SourceKind::Registry => 1,
            SourceKind::Git => 2,
        };
        let h = hash_identity(id.name.as_str(), id.version.as_str(), kind, id.source_id.url.as_str());
        let metadata = hex_u64(h);
        proof {
            reveal_strlit("-");
        }
        let extra_filename = String::from_str("-").concat(metadata.as_str());
        Metadata { metadata, extra_filename }
    }

    pub fn summary(&self) -> (r: &Summary)
        ensures
            *r == self.manifest.summary,
    {
        &self.manifest.summary
    }

    pub fn targets(&self) -> (r: &[Target])
        ensures
            r@ == self.manifest.targets@,
    {
        self.manifest.targets.as_slice()
    }

    pub fn authors(&self) -> (r: &Vec<String>)
        ensures
            *r == self.manifest.metadata.authors,
    {
        &self.manifest.metadata.authors
    }

    pub fn publish(&self) -> (r: bool)
        ensures
            r == self.manifest.publish,
    {
        self.manifest.publish
    }

    /// Whether any target is a custom build step.
    pub fn has_custom_build(&self) -> (r: bool)
        ensures
            r == exists|i: int|
                0 <= i < self.manifest.targets@.len() && is_custom_build(
                    #[trigger] self.manifest.targets@[i],
                ),
    {
        let ts = &self.manifest.targets;
        let mut i: usize = 0;
        while i < ts.len()
            invariant
                ts == &self.manifest.targets,
                i <= ts@.len(),
                forall|j: int| 0 <= j < i ==> !is_custom_build(#[trigger] ts@[j]),
            decreases ts@.len() - i,
        {
            if ts[i].kind == TargetKind::CustomBuild {
                assert(is_custom_build(ts@[i as int]));
                return true;
            }
            i = i + 1;
        }
        false
    }

    /// The target of the given kind whose name is nearest to `target`, among
    /// those at edit distance under 4; the first such target on a tie.
    pub fn find_closest_target(&self, target: &str, kind: TargetKind) -> (r: Option<&Target>)
        ensures
            r is None <==> forall|i: int|
                0 <= i < self.manifest.targets@.len() ==> !is_candidate(
                    #[trigger] self.manifest.targets@[i],
                    target@,
                    kind,
                ),
            r is Some ==> exists|i: int|
                0 <= i < self.manifest.targets@.len() && *r->0 == self.manifest.targets@[i]
                    && is_candidate(self.manifest.targets@[i], target@, kind) && (forall|j: int|
                    0 <= j < self.manifest.targets@.len() && is_candidate(
                        #[trigger] self.manifest.targets@[j],
                        target@,
                        kind,
                    ) ==> lev(target@, self.manifest.targets@[i].name@) <= lev(
                        target@,
                        self.manifest.targets@[j].name@,
                    ) && (j < i ==> lev(target@, self.manifest.targets@[i].name@) < lev(
                        target@,
                        self.manifest.targets@[j].name@,
                    ))),
    {
        let ts = &self.manifest.targets;
        let mut best: Option<usize> = None;
        let mut best_d: usize = 0;
        let mut i: usize = 0;
        while i < ts.len()
            invariant
                ts == &self.manifest.targets,
                i <= ts@.len(),
                best is None ==> forall|j: int|
                    0 <= j < i ==> !is_candidate(#[trigger] ts@[j], target@, kind),
                best is Some ==> {
                    let b = best->0 as int;
                    0 <= b < i && is_candidate(ts@[b], target@, kind) && best_d == lev(
                        target@,
                        ts@[b].name@,
                    ) && forall|j: int|
                        0 <= j < i && is_candidate(#[trigger] ts@[j], target@, kind) ==> best_d
                            <= lev(target@, ts@[j].name@) && (j < b ==> best_d < lev(
                            target@,
                            ts@[j].name@,
                        ))
                },
            decreases ts@.len() - i,
        {
            if ts[i].kind == kind {
                let d = lev_distance(target, ts[i].name.as_str());
                if d < 4 {
                    match best {
                        None => {
                            best = Some(i);
                            best_d = d;
                        },
                        Some(_) => {
                            if d < best_d {
                                best = Some(i);
                                best_d = d;
                            }
                        },
                    }
                }
            }
            i = i + 1;
        }
        match best {
            None => None,
            Some(b) => Some(&ts[b]),
        }
    }
}

/// Something that can turn a package identifier into a package.
pub trait Source {
    fn download(&mut self, id: &PackageId) -> Result<Package, CargoError>;
}

/// Sources keyed by their identifier; at most one source per identifier.
pub struct SourceMap<S> {
    entries: Vec<(SourceId, S)>,
}

/// Index of the first entry whose key is `key`, or -1.
pub open spec fn find_source<S>(entries: Seq<(SourceId, S)>, key: SourceId) -> int
    decreases entries.len(),
{
    if entries.len() == 0 {
        -1
    } else if same_source(entries.last().0, key) {
        let k = find_source(entries.drop_last(), key);
        if k < 0 {
            entries.len() - 1
        } else {
            k
        }
    } else {
        find_source(entries.drop_last(), key)
    }
}

proof fn lemma_find_source<S>(entries: Seq<(SourceId, S)>, key: SourceId)
    ensures
        -1 <= find_source(entries, key) < entries.len(),
        find_source(entries, key) >= 0 ==> same_source(entries[find_source(entries, key)].0, key),
        forall|j: int|
            0 <= j < entries.len() && (find_source(entries, key) < 0 || j < find_source(
                entries,
                key,
            )) ==> !same_source(#[trigger] entries[j].0, key),
    decreases entries.len(),
{
    if entries.len() > 0 {
        let pre = entries.drop_last();
        lemma_find_source(pre, key);
        assert(forall|j: int| 0 <= j < pre.len() ==> pre[j] == entries[j]);
    }
}

impl<S> SourceMap<S> {
    pub closed spec fn entries(&self) -> Seq<(SourceId, S)> {
        self.entries@
    }

    pub fn new() -> (r: SourceMap<S>)
        ensures
            r.entries().len() == 0,
    {
        SourceMap { entries: Vec::new() }
    }

    /// Registers `source` under `id`, replacing a source already registered there.
    pub fn insert(&mut self, id: SourceId, source: S)
        ensures
            find_source(old(self).entries(), id) >= 0 ==> final(self).entries() == old(
                self,
            ).entries().update(find_source(old(self).entries(), id), (id, source)),
            find_source(old(self).entries(), id) < 0 ==> final(self).entries() == old(
                self,
            ).entries().push((id, source)),
    {
        let k = self.position(&id);
        proof {
            lemma_find_source(self.entries@, id);
        }
        if k < self.entries.len() {
            self.entries.set(k, (id, source));
        } else {
            self.entries.push((id, source));
        }
    }

    pub fn len(&self) -> (r: usize)
        ensures
            r == self.entries().len(),
    {
        self.entries.len()
    }

    /// Index of the source registered under `id`, or the number of sources.
    fn position(&self, id: &SourceId) -> (r: usize)
        ensures
            find_source(self.entries@, *id) >= 0 ==> r == find_source(self.entries@, *id),
            find_source(self.entries@, *id) < 0 ==> r == self.entries@.len(),
    {
        proof {
            lemma_find_source(self.entries@, *id);
        }
        let mut k: usize = 0;
        while k < self.entries.len()
            invariant
                k <= self.entries@.len(),
                -1 <= find_source(self.entries@, *id) < self.entries@.len(),
                find_source(self.entries@, *id) >= 0 ==> same_source(
                    self.entries@[find_source(self.entries@, *id)].0,
                    *id,
                ),
                forall|j: int|
                    0 <= j < self.entries@.len() && (find_source(self.entries@, *id) < 0 || j
                        < find_source(self.entries@, *id)) ==> !same_source(
                        #[trigger] self.entries@[j].0,
                        *id,
                    ),
                forall|j: int| 0 <= j < k ==> !same_source(#[trigger] self.entries@[j].0, *id),
            decreases self.entries@.len() - k,
        {
            if self.entries[k].0 == *id {
                return k;
            }
            k = k + 1;
        }
        k
    }
}

/// Index of the identifier `id` in `ids`, or -1.
pub open spec fn find_id(ids: Seq<PackageId>, id: PackageId) -> int {
    if exists|i: int| 0 <= i < ids.len() && same_id(#[trigger] ids[i], id) {
        choose|i: int| 0 <= i < ids.len() && same_id(#[trigger] ids[i], id)
    } else {
        -1
    }
}

/// No identifier occurs twice.
pub open spec fn distinct_ids(ids: Seq<PackageId>) -> bool {
    forall|i: int, j: int|
        0 <= i < ids.len() && 0 <= j < ids.len() && i != j ==> !same_id(
            #[trigger] ids[i],
            #[trigger] ids[j],
        )
}

/// A fixed set of package identifiers, each with a slot that is filled from
/// the sources the first time the package is asked for.
pub struct PackageSet<S> {
    packages: Vec<PackageId>,
    slots: Vec<Option<Package>>,
    sources: SourceMap<S>,
}

impl<S: Source> PackageSet<S> {
    pub closed spec fn ids(&self) -> Seq<PackageId> {
        self.packages@
    }

    pub closed spec fn slots(&self) -> Seq<Option<Package>> {
        self.slots@
    }

    pub closed spec fn sources_view(&self) -> Seq<(SourceId, S)> {
        self.sources.entries()
    }

    pub open spec fn wf(&self) -> bool {
        self.ids().len() == self.slots().len() && distinct_ids(self.ids())
    }

    /// What a call of `get(id)` on `pre` that left `post` and returned `r` did.
    pub open spec fn get_post(pre: Self, post: Self, id: PackageId, r: Result<Package, CargoError>) -> bool {
        let i = find_id(pre.ids(), id);
        post.wf() && post.ids() == pre.ids() && if i < 0 {
            r == Err::<Package, CargoError>(CargoError::PackageNotInSet) && post == pre
        } else if pre.slots()[i] is Some {
            r == Ok::<Package, CargoError>(pre.slots()[i]->0) && post == pre
        } else if find_source(pre.sources_view(), id.source_id) < 0 {
            r == Err::<Package, CargoError>(CargoError::SourceNotFound) && post == pre
        } else {
            post.sources_view().len() == pre.sources_view().len() && (forall|k: int|
                0 <= k < pre.sources_view().len() && k != find_source(pre.sources_view(), id.source_id)
                    ==> #[trigger] post.sources_view()[k] == pre.sources_view()[k]) && (forall|
                k: int,
            |
                0 <= k < pre.sources_view().len() ==> #[trigger] post.sources_view()[k].0
                    == pre.sources_view()[k].0) && match r {
                Ok(p) => post.slots() == pre.slots().update(i, Some(p)),
                Err(e) => e is Download && post.slots() == pre.slots(),
            }
        }
    }

    /// A set of the given identifiers, each slot empty.
    pub fn new(package_ids: Vec<PackageId>, sources: SourceMap<S>) -> (r: PackageSet<S>)
        requires
            distinct_ids(package_ids@),
        ensures
            r.wf(),
            r.ids() == package_ids@,
            forall|i: int| 0 <= i < r.slots().len() ==> #[trigger] r.slots()[i] is None,
            r.sources_view() == sources.entries(),
    {
        let mut slots: Vec<Option<Package>> = Vec::new();
        let mut i: usize = 0;
        while i < package_ids.len()
            invariant
                i <= package_ids@.len(),
                slots@.len() == i,
                forall|k: int| 0 <= k < i ==> #[trigger] slots@[k] is None,
            decreases package_ids@.len() - i,
        {
            slots.push(None);
            i = i + 1;
        }
        PackageSet { packages: package_ids, slots, sources }
    }

    /// The identifiers of the set, in order.
    pub fn package_ids(&self) -> (r: &[PackageId])
        ensures
            r@ == self.ids(),
    {
        self.packages.as_slice()
    }

    pub fn sources(&self) -> (r: &SourceMap<S>)
        ensures
            r.entries() == self.sources_view(),
    {
        &self.sources
    }

    /// Index of `id` in the set, or the set's size.
    fn index_of(&self, id: &PackageId) -> (r: usize)
        requires
            self.wf(),
        ensures
            find_id(self.ids(), *id) >= 0 ==> r == find_id(self.ids(), *id),
            find_id(self.ids(), *id) < 0 ==> r == self.ids().len(),
    {
        let mut k: usize = 0;
        while k < self.packages.len()
            invariant
                self.wf(),
                k <= self.packages@.len(),
                forall|j: int| 0 <= j < k ==> !same_id(#[trigger] self.packages@[j], *id),
            decreases self.packages@.len() - k,
        {
            if self.packages[k] == *id {
                proof {
                    let c = find_id(self.ids(), *id);
                    assert(same_id(self.packages@[k as int], *id));
                    assert(0 <= c < self.ids().len() && same_id(self.ids()[c], *id));
                    if c != k {
                        assert(same_id(self.ids()[c], self.ids()[k as int]));
                        assert(false);
                    }
                }
                return k;
            }
            k = k + 1;
        }
        k
    }

    /// The package `id`, downloaded from its source the first time it is asked
    /// for and kept for every later call.
    pub fn get(&mut self, id: &PackageId) -> (r: Result<&Package, CargoError>)
        requires
            old(self).wf(),
        ensures
            Self::get_post(
                *old(self),
                *final(self),
                *id,
                match r {
                    Ok(p) => Ok(*p),
                    Err(e) => Err(e),
                },
            ),
    {
        let i = self.index_of(id);
        if i >= self.packages.len() {
            return Err(CargoError::PackageNotInSet);
        }
        if self.slots[i].is_some() {
            return match &self.slots[i] {
                Some(p) => Ok(p),
                None => Err(CargoError::PackageNotInSet),
            };
        }
        let k = self.sources.position(&id.source_id);
        proof {
            lemma_find_source(self.sources.entries@, id.source_id);
        }
        if k >= self.sources.entries.len() {
            return Err(CargoError::SourceNotFound);
        }
        let downloaded = self.sources.entries[k].1.download(id);
        match downloaded {
            Ok(pkg) => {
                self.slots.set(i, Some(pkg));
                match &self.slots[i] {
                    Some(p) => Ok(p),
                    None => Err(CargoError::PackageNotInSet),
                }
            },
            Err(e) => Err(CargoError::Download(e.message())),
        }
    }

    /// Asking twice for the same package downloads it at most once: after a
    /// successful `get`, a second `get` of the same identifier returns the same
    /// package and leaves the set, sources included, as it was.
    pub proof fn get_is_memoized(
        s0: Self,
        s1: Self,
        s2: Self,
        id: PackageId,
        r1: Result<Package, CargoError>,
        r2: Result<Package, CargoError>,
    )
        requires
            s0.wf(),
            Self::get_post(s0, s1, id, r1),
            r1 is Ok,
            Self::get_post(s1, s2, id, r2),
        ensures
            s2 == s1,
            r2 == r1,
    {
    }

    /// Resolving one identifier leaves the slot of every other identifier as
    /// it was.
    pub proof fn get_leaves_other_slots(
        s0: Self,
        s1: Self,
        a: PackageId,
        b: PackageId,
        r: Result<Package, CargoError>,
    )
        requires
            s0.wf(),
            Self::get_post(s0, s1, a, r),
            !same_id(a, b),
            find_id(s0.ids(), b) >= 0,
        ensures
            s1.ids() == s0.ids(),
            s1.slots()[find_id(s0.ids(), b)] == s0.slots()[find_id(s0.ids(), b)],
    {
        let ia = find_id(s0.ids(), a);
        let ib = find_id(s0.ids(), b);
        assert(same_id(s0.ids()[ib], b));
        if ia >= 0 {
            assert(same_id(s0.ids()[ia], a));
            assert(ia != ib);
        }
    }
}

} // verus!
