//! The managed strategy: the runtime owns the package layout, holds the
//! resolution snapshot, and answers every contract query from it.

use vstd::prelude::*;

use crate::model::alookup;
use crate::model::encode_pairs;
use crate::model::lemma_alookup_match_at;
use crate::model::lemma_alookup_none;
use crate::model::ResolverModel;
use crate::model::spec_folder_for_nv;
use crate::model::spec_folder_for_req;
use crate::model::spec_folder_for_specifier;
use crate::model::spec_is_cached;
use crate::model::spec_resolve_result;
use crate::model::spec_resolve_state;
use crate::types::opt_str_view;
use crate::types::NpmPackageNvReference;
use crate::types::NpmPackageReqReference;
use crate::types::NpmPackageReqResolution;
use crate::types::NpmResolverError;
use crate::types::PackageNv;
use crate::types::PackageNvView;
use crate::types::PackageReq;
use crate::types::PackageReqNotFoundError;
use crate::types::PackageReqView;

verus! {

/// Image of resolved pairs as pairs of views.
pub open spec fn req_pairs_view(s: Seq<(PackageReq, PackageNv)>) -> Seq<
    (PackageReqView, PackageNvView),
> {
    s.map_values(|p: (PackageReq, PackageNv)| (p.0@, p.1@))
}

/// Image of folder pairs as pairs of views.
pub open spec fn folder_pairs_view(s: Seq<(PackageNv, String)>) -> Seq<
    (PackageNvView, Seq<char>),
> {
    s.map_values(|p: (PackageNv, String)| (p.0@, p.1@))
}

/// Where the initial snapshot of a managed resolver comes from: lock data to
/// resolve against on demand, or a snapshot already resolved elsewhere.
#[derive(Debug)]
pub enum CliNpmResolverManagedSnapshotOption {
    ResolveFromLockfile(Vec<(PackageReq, PackageNv)>),
    Specified(Option<Vec<(PackageReq, PackageNv)>>),
}

impl CliNpmResolverManagedSnapshotOption {
    /// The lock data the resolver may resolve against on demand.
    pub open spec fn lock_view(&self) -> Seq<(PackageReqView, PackageNvView)> {
        match self {
            CliNpmResolverManagedSnapshotOption::ResolveFromLockfile(pairs) => {
                req_pairs_view(pairs@)
            },
            CliNpmResolverManagedSnapshotOption::Specified(Some(pairs)) => {
                req_pairs_view(pairs@)
            },
            CliNpmResolverManagedSnapshotOption::Specified(None) => Seq::empty(),
        }
    }

    /// What the snapshot holds as already resolved at construction.
    pub open spec fn initial_resolved_view(&self) -> Seq<(PackageReqView, PackageNvView)> {
        match self {
            CliNpmResolverManagedSnapshotOption::ResolveFromLockfile(_) => Seq::empty(),
            CliNpmResolverManagedSnapshotOption::Specified(Some(pairs)) => {
                req_pairs_view(pairs@)
            },
            CliNpmResolverManagedSnapshotOption::Specified(None) => Seq::empty(),
        }
    }
}

/// Whether construction should install what the manifest asks for before the
/// first resolution. A policy choice recorded at construction; installing
/// itself is a collaborator's concern.
#[derive(Clone, Copy, Debug, PartialEq, Eq, Structural)]
pub enum CliNpmResolverManagedPackageJsonInstallerOption {
    ConditionalInstall,
    NoInstall,
}

/// Configuration of the managed strategy, fixed at construction.
#[derive(Debug)]
pub struct CliNpmResolverManagedCreateOptions {
    pub snapshot: CliNpmResolverManagedSnapshotOption,
    pub package_json_installer: CliNpmResolverManagedPackageJsonInstallerOption,
    pub root_dir_url: String,
    pub maybe_node_modules_path: Option<String>,
    pub package_folders: Vec<(PackageNv, String)>,
}

/// Mathematical image of a [`ManagedCliNpmResolver`].
#[verifier::ext_equal]
pub struct ManagedResolverView {
    pub root_dir_url: Seq<char>,
    pub node_modules_path: Option<Seq<char>>,
    pub package_json_installer: CliNpmResolverManagedPackageJsonInstallerOption,
    pub lock: Seq<(PackageReqView, PackageNvView)>,
    pub resolved: Seq<(PackageReqView, PackageNvView)>,
    pub folders: Seq<(PackageNvView, Seq<char>)>,
}

impl ManagedResolverView {
    /// The snapshot state of this resolver.
    pub open spec fn model(self) -> ResolverModel {
        ResolverModel { lock: self.lock, resolved: self.resolved, folders: self.folders }
    }

    /// The same resolver with its resolved pairs replaced.
    pub open spec fn with_resolved(
        self,
        resolved: Seq<(PackageReqView, PackageNvView)>,
    ) -> ManagedResolverView {
        ManagedResolverView { resolved, ..self }
    }
}

impl CliNpmResolverManagedCreateOptions {
    /// The resolver these options construct.
    pub open spec fn resolver_view(&self) -> ManagedResolverView {
        ManagedResolverView {
            root_dir_url: self.root_dir_url@,
            node_modules_path: opt_str_view(self.maybe_node_modules_path),
            package_json_installer: self.package_json_installer,
            lock: self.snapshot.lock_view(),
            resolved: self.snapshot.initial_resolved_view(),
            folders: folder_pairs_view(self.package_folders@),
        }
    }
}

/// The managed resolver: configuration fixed at construction plus the
/// snapshot it grows. The snapshot only ever grows by appending a newly
/// resolved pair; nothing is rewritten or rolled back.
#[derive(Debug)]
pub struct ManagedCliNpmResolver {
    root_dir_url: String,
    maybe_node_modules_path: Option<String>,
    package_json_installer: CliNpmResolverManagedPackageJsonInstallerOption,
    lock: Vec<(PackageReq, PackageNv)>,
    resolved: Vec<(PackageReq, PackageNv)>,
    folders: Vec<(PackageNv, String)>,
}

impl View for ManagedCliNpmResolver {
    type V = ManagedResolverView;

    closed spec fn view(&self) -> ManagedResolverView {
        ManagedResolverView {
            root_dir_url: self.root_dir_url@,
            node_modules_path: opt_str_view(self.maybe_node_modules_path),
            package_json_installer: self.package_json_installer,
            lock: req_pairs_view(self.lock@),
            resolved: req_pairs_view(self.resolved@),
            folders: folder_pairs_view(self.folders@),
        }
    }
}

/// A copy of an optional string.
fn clone_opt_string(s: &Option<String>) -> (r: Option<String>)
    ensures
        r == *s,
{
    match s {
        Some(x) => Some(x.clone()),
        None => None,
    }
}

/// A copy of requirement-to-identity pairs.
fn clone_req_pairs(pairs: &Vec<(PackageReq, PackageNv)>) -> (r: Vec<(PackageReq, PackageNv)>)
    ensures
        r@ == pairs@,
{
    let mut out: Vec<(PackageReq, PackageNv)> = Vec::new();
    let mut i: usize = 0;
    while i < pairs.len()
        invariant
            i <= pairs.len(),
            out@ =~= pairs@.subrange(0, i as int),
        decreases pairs.len() - i,
    {
        let p = &pairs[i];
        out.push((p.0.clone(), p.1.clone()));
        i += 1;
    }
    proof {
        assert(out@ =~= pairs@);
    }
    out
}

/// A copy of identity-to-folder pairs.
fn clone_folder_pairs(pairs: &Vec<(PackageNv, String)>) -> (r: Vec<(PackageNv, String)>)
    ensures
        r@ == pairs@,
{
    let mut out: Vec<(PackageNv, String)> = Vec::new();
    let mut i: usize = 0;
    while i < pairs.len()
        invariant
            i <= pairs.len(),
            out@ =~= pairs@.subrange(0, i as int),
        decreases pairs.len() - i,
    {
        let p = &pairs[i];
        out.push((p.0.clone(), p.1.clone()));
        i += 1;
    }
    proof {
        assert(out@ =~= pairs@);
    }
    out
}

/// First-match lookup of a requirement among resolved pairs.
fn lookup_req(pairs: &Vec<(PackageReq, PackageNv)>, key: &PackageReq) -> (r: Option<PackageNv>)
    ensures
        match r {
            Some(nv) => alookup(req_pairs_view(pairs@), key@) == Some(nv@),
            None => alookup(req_pairs_view(pairs@), key@) is None,
        },
{
    let ghost pv = req_pairs_view(pairs@);
    let mut i: usize = 0;
    while i < pairs.len()
        invariant
            i <= pairs.len(),
            pv == req_pairs_view(pairs@),
            pv.len() == pairs@.len(),
            forall|j: int| 0 <= j < i ==> (#[trigger] pv[j]).0 != key@,
        decreases pairs.len() - i,
    {
        if &pairs[i].0 == key {
            proof {
                assert(pv[i as int] == (pairs@[i as int].0@, pairs@[i as int].1@));
                lemma_alookup_match_at(pv, key@, i as int);
            }
            return Some(pairs[i].1.clone());
        }
        proof {
            assert(pv[i as int] == (pairs@[i as int].0@, pairs@[i as int].1@));
        }
        i += 1;
    }
    proof {
        lemma_alookup_none(pv, key@);
    }
    None
}

/// Whether `prefix` is a prefix of `s`, character by character.
fn str_starts_with(s: &String, prefix: &String) -> (r: bool)
    ensures
        r == prefix@.is_prefix_of(s@),
{
    let n = prefix.as_str().unicode_len();
    let m = s.as_str().unicode_len();
    if n > m {
        return false;
    }
    let mut i: usize = 0;
    while i < n
        invariant
            i <= n,
            n == prefix@.len(),
            m == s@.len(),
            n <= m,
            forall|j: int| 0 <= j < i ==> prefix@[j] == s@[j],
        decreases n - i,
    {
        if s.as_str().get_char(i) != prefix.as_str().get_char(i) {
            proof {
                if prefix@.is_prefix_of(s@) {
                    assert(prefix@ == s@.subrange(0, prefix@.len() as int));
                    assert(prefix@[i as int] == s@[i as int]);
                }
            }
            return false;
        }
        i += 1;
    }
    proof {
        assert(prefix@ =~= s@.subrange(0, prefix@.len() as int));
    }
    true
}

/// Constructs the managed strategy from its configuration. Construction is
/// the one step that may have waited on lock or cache data; everything the
/// resolver answers afterwards comes from the snapshot built here.
pub(crate) fn create_managed_npm_resolver(options: CliNpmResolverManagedCreateOptions) -> (r:
    ManagedCliNpmResolver)
    ensures
        r@ == options.resolver_view(),
{
    let (lock, resolved): (Vec<(PackageReq, PackageNv)>, Vec<(PackageReq, PackageNv)>) =
        match options.snapshot {
        CliNpmResolverManagedSnapshotOption::ResolveFromLockfile(pairs) => (pairs, Vec::new()),
        CliNpmResolverManagedSnapshotOption::Specified(Some(pairs)) => {
            let copy = clone_req_pairs(&pairs);
            (pairs, copy)
        },
        CliNpmResolverManagedSnapshotOption::Specified(None) => (Vec::new(), Vec::new()),
    };
    let r = ManagedCliNpmResolver {
        root_dir_url: options.root_dir_url,
        maybe_node_modules_path: options.maybe_node_modules_path,
        package_json_installer: options.package_json_installer,
        lock,
        resolved,
        folders: options.package_folders,
    };
    proof {
        assert(req_pairs_view(Seq::<(PackageReq, PackageNv)>::empty()) =~= Seq::<
            (PackageReqView, PackageNvView),
        >::empty());
    }
    r
}

impl ManagedCliNpmResolver {
    /// Resolves a requirement: the memoized identity when the snapshot holds
    /// one, else on-demand resolution against the lock data, recording the
    /// newly resolved pair. Not finding a package is a normal outcome and
    /// leaves the snapshot as it was.
    pub fn resolve_npm_for_deno_graph(&mut self, pkg_req: &PackageReq) -> (r:
        NpmPackageReqResolution)
        ensures
            r@ == spec_resolve_result(old(self)@.model(), pkg_req@),
            final(self)@ == old(self)@.with_resolved(
                spec_resolve_state(old(self)@.model(), pkg_req@).resolved,
            ),
    {
        match lookup_req(&self.resolved, pkg_req) {
            Some(nv) => {
                proof {
                    assert(self@ =~= old(self)@.with_resolved(
                        spec_resolve_state(old(self)@.model(), pkg_req@).resolved,
                    ));
                }
                NpmPackageReqResolution::Found(nv)
            },
            None => match lookup_req(&self.lock, pkg_req) {
                Some(nv) => {
                    let recorded = (pkg_req.clone(), nv.clone());
                    self.resolved.push(recorded);
                    proof {
                        assert(req_pairs_view(self.resolved@) =~= req_pairs_view(
                            old(self).resolved@,
                        ).push((pkg_req@, nv@)));
                        assert(self@ =~= old(self)@.with_resolved(
                            spec_resolve_state(old(self)@.model(), pkg_req@).resolved,
                        ));
                    }
                    NpmPackageReqResolution::Found(nv)
                },
                None => {
                    proof {
                        assert(self@ =~= old(self)@.with_resolved(
                            spec_resolve_state(old(self)@.model(), pkg_req@).resolved,
                        ));
                    }
                    NpmPackageReqResolution::NotFound
                },
            },
        }
    }

    /// Dereferences a requirement reference into an identity reference,
    /// failing when the active snapshot never resolved the requirement.
    pub fn resolve_pkg_nv_ref_from_pkg_req_ref(&self, req_ref: &NpmPackageReqReference) -> (r:
        Result<NpmPackageNvReference, PackageReqNotFoundError>)
        ensures
            match alookup(self@.resolved, req_ref@.req) {
                Some(nv) => r matches Ok(nv_ref) && nv_ref@.nv == nv && nv_ref@.sub_path
                    == req_ref@.sub_path,
                None => r matches Err(e) && e@ == req_ref@.req,
            },
    {
        match lookup_req(&self.resolved, &req_ref.req) {
            Some(nv) => Ok(
                NpmPackageNvReference { nv, sub_path: clone_opt_string(&req_ref.sub_path) },
            ),
            None => Err(PackageReqNotFoundError(req_ref.req.clone())),
        }
    }

    /// The folder of the package the specifier addresses, or the absent case
    /// when the specifier does not point inside any materialized package:
    /// a normal outcome, never a failure.
    pub fn resolve_pkg_folder_from_specifier(&self, specifier: &String) -> (r: Option<String>)
        ensures
            match r {
                Some(f) => spec_folder_for_specifier(self@.folders, specifier@) == Some(f@),
                None => spec_folder_for_specifier(self@.folders, specifier@) is None,
            },
    {
        let ghost fv = self@.folders;
        proof {
            assert(fv.skip(0) =~= fv);
        }
        let mut i: usize = 0;
        while i < self.folders.len()
            invariant
                i <= self.folders.len(),
                fv == self@.folders,
                fv == folder_pairs_view(self.folders@),
                fv.len() == self.folders@.len(),
                spec_folder_for_specifier(fv.skip(i as int), specifier@)
                    == spec_folder_for_specifier(fv, specifier@),
            decreases self.folders.len() - i,
        {
            proof {
                assert(fv[i as int] == (self.folders@[i as int].0@, self.folders@[i as int].1@));
                assert(fv.skip(i as int)[0] == fv[i as int]);
            }
            if str_starts_with(specifier, &self.folders[i].1) {
                return Some(self.folders[i].1.clone());
            }
            proof {
                assert(fv.skip(i as int).drop_first() =~= fv.skip(i as int + 1));
            }
            i += 1;
        }
        proof {
            assert(fv.skip(fv.len() as int) =~= Seq::<(PackageNvView, Seq<char>)>::empty());
        }
        None
    }

    /// The folder of a requirement the snapshot has resolved; fails when the
    /// requirement was never resolved, or with a broken install when its
    /// identity has no materialized folder.
    pub fn resolve_pkg_folder_from_deno_module_req(&self, req: &PackageReq) -> (r: Result<
        String,
        NpmResolverError,
    >)
        ensures
            match spec_folder_for_req(self@.model(), req@) {
                Ok(f) => r matches Ok(s) && s@ == f,
                Err(e) => r matches Err(x) && x@ == e,
            },
    {
        match lookup_req(&self.resolved, req) {
            Some(nv) => self.resolve_pkg_folder_from_deno_module(&nv),
            None => Err(NpmResolverError::RequirementNotResolved(req.clone())),
        }
    }

    /// The folder of a resolved identity; an identity absent from the folder
    /// set fails with a broken install naming the package and version.
    pub fn resolve_pkg_folder_from_deno_module(&self, nv: &PackageNv) -> (r: Result<
        String,
        NpmResolverError,
    >)
        ensures
            match spec_folder_for_nv(self@.model(), nv@) {
                Ok(f) => r matches Ok(s) && s@ == f,
                Err(e) => r matches Err(x) && x@ == e,
            },
    {
        match lookup_nv_folder(&self.folders, nv) {
            Some(f) => Ok(f),
            None => Err(NpmResolverError::BrokenInstall(nv.clone())),
        }
    }

    /// Whether the requirement's folder is already materialized: a pure probe
    /// that never mutates the snapshot.
    pub fn is_pkg_req_folder_cached(&self, req: &PackageReq) -> (r: bool)
        ensures
            r == spec_is_cached(self@.model(), req@),
    {
        match lookup_req(&self.resolved, req) {
            Some(nv) => match lookup_nv_folder(&self.folders, &nv) {
                Some(_) => true,
                None => false,
            },
            None => false,
        }
    }

    /// Serializes the resolved mapping for a spawned child process, which
    /// reconstructs an equivalent resolver from it without re-resolving.
    pub fn get_npm_process_state(&self) -> (r: String)
        ensures
            r@ == encode_pairs(self@.resolved),
    {
        let ghost rv = self@.resolved;
        let mut out = String::new();
        proof {
            assert(rv.take(0) =~= Seq::<(PackageReqView, PackageNvView)>::empty());
        }
        let mut i: usize = 0;
        while i < self.resolved.len()
            invariant
                i <= self.resolved.len(),
                rv == self@.resolved,
                rv == req_pairs_view(self.resolved@),
                rv.len() == self.resolved@.len(),
                out@ == encode_pairs(rv.take(i as int)),
            decreases self.resolved.len() - i,
        {
            proof {
                assert(rv[i as int] == (self.resolved@[i as int].0@, self.resolved@[i as int].1@));
            }
            let p = &self.resolved[i];
            out.append(p.0.name.as_str());
            out.append("@");
            out.append(p.0.version_req.as_str());
            out.append(" ");
            out.append(p.1.name.as_str());
            out.append("@");
            out.append(p.1.version.as_str());
            out.append("\n");
            proof {
                assert(rv.take(i as int + 1).drop_last() =~= rv.take(i as int));
                assert(rv.take(i as int + 1).last() == rv[i as int]);
                assert(out@ =~= encode_pairs(rv.take(i as int + 1)));
            }
            i += 1;
        }
        proof {
            assert(rv.take(rv.len() as int) =~= rv);
        }
        out
    }

    /// The full requirement-to-identity mapping resolved so far, for cache
    /// validity hashing and comparison.
    pub fn package_reqs(&self) -> (r: Vec<(PackageReq, PackageNv)>)
        ensures
            req_pairs_view(r@) == self@.resolved,
    {
        clone_req_pairs(&self.resolved)
    }

    /// Forks the snapshot: the copy shares strategy and configuration and
    /// starts from the same resolved state, and each side's future growth is
    /// invisible to the other.
    pub fn clone_snapshotted(&self) -> (r: ManagedCliNpmResolver)
        ensures
            r@ == self@,
    {
        ManagedCliNpmResolver {
            root_dir_url: self.root_dir_url.clone(),
            maybe_node_modules_path: clone_opt_string(&self.maybe_node_modules_path),
            package_json_installer: self.package_json_installer,
            lock: clone_req_pairs(&self.lock),
            resolved: clone_req_pairs(&self.resolved),
            folders: clone_folder_pairs(&self.folders),
        }
    }

    /// The root the managed layout lives under.
    pub fn root_dir_url(&self) -> (r: &String)
        ensures
            r@ == self@.root_dir_url,
    {
        &self.root_dir_url
    }

    /// The local node_modules folder, when the configuration chose one.
    pub fn node_modules_path(&self) -> (r: Option<String>)
        ensures
            opt_str_view(r) == self@.node_modules_path,
    {
        clone_opt_string(&self.maybe_node_modules_path)
    }
}

/// First-match lookup of an identity's folder.
fn lookup_nv_folder(pairs: &Vec<(PackageNv, String)>, key: &PackageNv) -> (r: Option<String>)
    ensures
        match r {
            Some(f) => alookup(folder_pairs_view(pairs@), key@) == Some(f@),
            None => alookup(folder_pairs_view(pairs@), key@) is None,
        },
{
    let ghost pv = folder_pairs_view(pairs@);
    let mut i: usize = 0;
    while i < pairs.len()
        invariant
            i <= pairs.len(),
            pv == folder_pairs_view(pairs@),
            pv.len() == pairs@.len(),
            forall|j: int| 0 <= j < i ==> (#[trigger] pv[j]).0 != key@,
        decreases pairs.len() - i,
    {
        if &pairs[i].0 == key {
            proof {
                assert(pv[i as int] == (pairs@[i as int].0@, pairs@[i as int].1@));
                lemma_alookup_match_at(pv, key@, i as int);
            }
            return Some(pairs[i].1.clone());
        }
        proof {
            assert(pv[i as int] == (pairs@[i as int].0@, pairs@[i as int].1@));
        }
        i += 1;
    }
    proof {
        lemma_alookup_none(pv, key@);
    }
    None
}

} // verus!
