//! npm package resolution behind one contract: a resolver maps package
//! requirements to exact identities and on-disk folders, grows its snapshot
//! monotonically, and can be forked so isolated contexts evolve
//! independently. Exactly two strategies exist — managed and user-managed —
//! a set closed at build time, so one tagged type dispatches the contract.

use vstd::prelude::*;

pub mod managed;
pub mod model;
pub mod types;

pub use managed::CliNpmResolverManagedCreateOptions;
pub use managed::CliNpmResolverManagedPackageJsonInstallerOption;
pub use managed::CliNpmResolverManagedSnapshotOption;
pub use managed::ManagedCliNpmResolver;
pub use managed::ManagedResolverView;
pub use types::NpmPackageNvReference;
pub use types::NpmPackageNvReferenceView;
pub use types::NpmPackageReqReference;
pub use types::NpmPackageReqReferenceView;
pub use types::NpmPackageReqResolution;
pub use types::NpmResolverCreateError;
pub use types::NpmResolverError;
pub use types::NpmResolverErrorView;
pub use types::PackageNv;
pub use types::PackageNvView;
pub use types::PackageReq;
pub use types::PackageReqNotFoundError;
pub use types::PackageReqView;

use model::alookup;
use model::encode_pairs;
use model::ResolverModel;
use model::spec_folder_for_nv;
use model::spec_folder_for_req;
use model::spec_folder_for_specifier;
use model::spec_is_cached;
use model::spec_resolve_result;
use model::spec_resolve_state;

verus! {

/// The user-managed strategy: an external package manager already produced
/// the dependency layout and the runtime only reads it. Present so the
/// contract and factory are already shaped for it; constructing it through
/// the factory fails fast with the explicit not-yet-implemented error.
#[derive(Debug)]
pub struct ByonmCliNpmResolver;

/// A resolver behind the one contract both strategies satisfy. The strategy
/// set is closed at build time, so callers dispatch over this tagged type
/// while the capability set stays open for them.
#[derive(Debug)]
pub enum CliNpmResolver {
    Managed(ManagedCliNpmResolver),
    Byonm(ByonmCliNpmResolver),
}

/// Mathematical image of a [`CliNpmResolver`].
pub enum CliNpmResolverView {
    Managed(ManagedResolverView),
    Byonm,
}

impl CliNpmResolverView {
    /// The snapshot state of the resolver. The user-managed placeholder
    /// holds nothing resolved and no folders.
    pub open spec fn model(self) -> ResolverModel {
        match self {
            CliNpmResolverView::Managed(m) => m.model(),
            CliNpmResolverView::Byonm => ResolverModel::empty(),
        }
    }

    /// The same resolver with its resolved pairs replaced.
    pub open spec fn with_resolved(
        self,
        resolved: Seq<(PackageReqView, PackageNvView)>,
    ) -> CliNpmResolverView {
        match self {
            CliNpmResolverView::Managed(m) => CliNpmResolverView::Managed(
                m.with_resolved(resolved),
            ),
            CliNpmResolverView::Byonm => CliNpmResolverView::Byonm,
        }
    }
}

impl View for CliNpmResolver {
    type V = CliNpmResolverView;

    open spec fn view(&self) -> CliNpmResolverView {
        match self {
            CliNpmResolver::Managed(m) => CliNpmResolverView::Managed(m@),
            CliNpmResolver::Byonm(_) => CliNpmResolverView::Byonm,
        }
    }
}

/// A borrowed view of the concrete strategy behind a resolver, for the few
/// callers that support only one of them.
pub enum InnerCliNpmResolverRef<'a> {
    Managed(&'a ManagedCliNpmResolver),
    Byonm(&'a ByonmCliNpmResolver),
}

impl CliNpmResolver {
    /// Resolves a requirement against the current snapshot lineage: the
    /// memoized identity on a hit, on-demand resolution against lock data
    /// otherwise. Not finding a package is a normal outcome, never an error,
    /// and leaves the snapshot unchanged.
    pub fn resolve_npm_for_deno_graph(&mut self, pkg_req: &PackageReq) -> (r:
        NpmPackageReqResolution)
        ensures
            r@ == spec_resolve_result(old(self)@.model(), pkg_req@),
            final(self)@ == old(self)@.with_resolved(
                spec_resolve_state(old(self)@.model(), pkg_req@).resolved,
            ),
    {
        match self {
            CliNpmResolver::Managed(m) => m.resolve_npm_for_deno_graph(pkg_req),
            CliNpmResolver::Byonm(_) => NpmPackageReqResolution::NotFound,
        }
    }

    /// Dereferences a requirement reference into an identity reference; a
    /// requirement the active snapshot never resolved is a caller-contract
    /// violation and fails.
    pub fn resolve_pkg_nv_ref_from_pkg_req_ref(&self, req_ref: &NpmPackageReqReference) -> (r:
        Result<NpmPackageNvReference, PackageReqNotFoundError>)
        ensures
            match alookup(self@.model().resolved, req_ref@.req) {
                Some(nv) => r matches Ok(nv_ref) && nv_ref@.nv == nv && nv_ref@.sub_path
                    == req_ref@.sub_path,
                None => r matches Err(e) && e@ == req_ref@.req,
            },
    {
        match self {
            CliNpmResolver::Managed(m) => m.resolve_pkg_nv_ref_from_pkg_req_ref(req_ref),
            CliNpmResolver::Byonm(_) => Err(PackageReqNotFoundError(req_ref.req.clone())),
        }
    }

    /// The folder of the package a module specifier points into, or the
    /// absent case when it addresses nothing inside a resolved package — a
    /// normal "not an npm import" outcome, never a failure.
    pub fn resolve_pkg_folder_from_specifier(&self, specifier: &String) -> (r: Option<String>)
        ensures
            match r {
                Some(f) => spec_folder_for_specifier(self@.model().folders, specifier@) == Some(
                    f@,
                ),
                None => spec_folder_for_specifier(self@.model().folders, specifier@) is None,
            },
    {
        match self {
            CliNpmResolver::Managed(m) => m.resolve_pkg_folder_from_specifier(specifier),
            CliNpmResolver::Byonm(_) => None,
        }
    }

    /// The folder of a requirement the snapshot has resolved. Fails when the
    /// requirement was never resolved, or with a broken install when the
    /// resolution succeeded but no folder is materialized.
    pub fn resolve_pkg_folder_from_deno_module_req(&self, req: &PackageReq) -> (r: Result<
        String,
        NpmResolverError,
    >)
        ensures
            match spec_folder_for_req(self@.model(), req@) {
                Ok(f) => r matches Ok(s) && s@ == f,
                Err(e) => r matches Err(x) && x@ == e,
            },
    {
        match self {
            CliNpmResolver::Managed(m) => m.resolve_pkg_folder_from_deno_module_req(req),
            CliNpmResolver::Byonm(_) => Err(
                NpmResolverError::RequirementNotResolved(req.clone()),
            ),
        }
    }

    /// The folder of a resolved identity; an identity with no materialized
    /// folder fails with a broken install naming the package and version.
    pub fn resolve_pkg_folder_from_deno_module(&self, nv: &PackageNv) -> (r: Result<
        String,
        NpmResolverError,
    >)
        ensures
            match spec_folder_for_nv(self@.model(), nv@) {
                Ok(f) => r matches Ok(s) && s@ == f,
                Err(e) => r matches Err(x) && x@ == e,
            },
    {
        match self {
            CliNpmResolver::Managed(m) => m.resolve_pkg_folder_from_deno_module(nv),
            CliNpmResolver::Byonm(_) => Err(NpmResolverError::BrokenInstall(nv.clone())),
        }
    }

    /// Whether the requirement's folder is already materialized: a pure
    /// probe that never mutates state, used to short-circuit install steps.
    pub fn is_pkg_req_folder_cached(&self, req: &PackageReq) -> (r: bool)
        ensures
            r == spec_is_cached(self@.model(), req@),
    {
        match self {
            CliNpmResolver::Managed(m) => m.is_pkg_req_folder_cached(req),
            CliNpmResolver::Byonm(_) => false,
        }
    }

    /// Serializes the minimum snapshot data a spawned child process needs to
    /// skip re-resolution.
    pub fn get_npm_process_state(&self) -> (r: String)
        ensures
            r@ == encode_pairs(self@.model().resolved),
    {
        match self {
            CliNpmResolver::Managed(m) => m.get_npm_process_state(),
            CliNpmResolver::Byonm(_) => String::new(),
        }
    }

    /// The full requirement-to-identity mapping resolved so far, for
    /// external cache-validity hashing and comparison.
    pub fn package_reqs(&self) -> (r: Vec<(PackageReq, PackageNv)>)
        ensures
            managed::req_pairs_view(r@) == self@.model().resolved,
    {
        match self {
            CliNpmResolver::Managed(m) => m.package_reqs(),
            CliNpmResolver::Byonm(_) => {
                let r: Vec<(PackageReq, PackageNv)> = Vec::new();
                proof {
                    assert(managed::req_pairs_view(r@) =~= Seq::<
                        (PackageReqView, PackageNvView),
                    >::empty());
                }
                r
            },
        }
    }

    /// Forks the snapshot: the new resolver shares strategy and
    /// configuration and starts from the same resolved state, and each
    /// side's future growth is invisible to the other.
    pub fn clone_snapshotted(&self) -> (r: CliNpmResolver)
        ensures
            r@ == self@,
    {
        match self {
            CliNpmResolver::Managed(m) => CliNpmResolver::Managed(m.clone_snapshotted()),
            CliNpmResolver::Byonm(_) => CliNpmResolver::Byonm(ByonmCliNpmResolver),
        }
    }

    /// The root the active strategy's package layout lives under; the
    /// user-managed placeholder has none yet.
    pub fn root_dir_url(&self) -> (r: Option<&String>)
        ensures
            match self@ {
                CliNpmResolverView::Managed(m) => r matches Some(u) && u@ == m.root_dir_url,
                CliNpmResolverView::Byonm => r is None,
            },
    {
        match self {
            CliNpmResolver::Managed(m) => Some(m.root_dir_url()),
            CliNpmResolver::Byonm(_) => None,
        }
    }

    /// The local node_modules folder, when the configuration chose one.
    pub fn node_modules_path(&self) -> (r: Option<String>)
        ensures
            match self@ {
                CliNpmResolverView::Managed(m) => types::opt_str_view(r) == m.node_modules_path,
                CliNpmResolverView::Byonm => r is None,
            },
    {
        match self {
            CliNpmResolver::Managed(m) => m.node_modules_path(),
            CliNpmResolver::Byonm(_) => None,
        }
    }

    /// A borrowed view of the concrete strategy.
    pub fn as_inner(&self) -> (r: InnerCliNpmResolverRef)
        ensures
            (self is Managed <==> r is Managed),
            (self is Byonm <==> r is Byonm),
            r matches InnerCliNpmResolverRef::Managed(m) ==> *m == self->Managed_0,
    {
        match self {
            CliNpmResolver::Managed(m) => InnerCliNpmResolverRef::Managed(m),
            CliNpmResolver::Byonm(b) => InnerCliNpmResolverRef::Byonm(b),
        }
    }

    /// The managed strategy behind this resolver, for callers that support
    /// only it; cleanly absent when the active strategy is another one.
    pub fn as_managed(&self) -> (r: Option<&ManagedCliNpmResolver>)
        ensures
            (self is Managed <==> r is Some),
            r matches Some(m) ==> *m == self->Managed_0,
    {
        match self.as_inner() {
            InnerCliNpmResolverRef::Managed(inner) => Some(inner),
            InnerCliNpmResolverRef::Byonm(_) => None,
        }
    }
}

/// A one-time, immutable-after-construction choice of strategy, with the
/// managed strategy's sub-options for its snapshot source and manifest
/// install policy.
#[derive(Debug)]
pub enum CliNpmResolverCreateOptions {
    Managed(CliNpmResolverManagedCreateOptions),
    Byonm,
}

/// Constructs the strategy the options select. Asking for the user-managed
/// strategy fails fast and explicitly; it is never silently treated as
/// managed.
pub fn create_cli_npm_resolver(options: CliNpmResolverCreateOptions) -> (r: Result<
    CliNpmResolver,
    NpmResolverCreateError,
>)
    ensures
        match options {
            CliNpmResolverCreateOptions::Managed(o) => r matches Ok(res) && res@
                == CliNpmResolverView::Managed(o.resolver_view()),
            CliNpmResolverCreateOptions::Byonm => r matches Err(e) && e
                == NpmResolverCreateError::NotYetImplemented,
        },
{
    match options {
        CliNpmResolverCreateOptions::Managed(o) => Ok(
            CliNpmResolver::Managed(managed::create_managed_npm_resolver(o)),
        ),
        CliNpmResolverCreateOptions::Byonm => Err(NpmResolverCreateError::NotYetImplemented),
    }
}

/// Constructs the strategy for a language server, which only ever selects
/// the managed one; the options must select it.
pub fn create_cli_npm_resolver_for_lsp(options: CliNpmResolverCreateOptions) -> (r:
    CliNpmResolver)
    requires
        options is Managed,
    ensures
        match options {
            CliNpmResolverCreateOptions::Managed(o) => r@ == CliNpmResolverView::Managed(
                o.resolver_view(),
            ),
            CliNpmResolverCreateOptions::Byonm => true,
        },
{
    match options {
        CliNpmResolverCreateOptions::Managed(o) => CliNpmResolver::Managed(
            managed::create_managed_npm_resolver(o),
        ),
        CliNpmResolverCreateOptions::Byonm => vstd::pervasive::unreached(),
    }
}

} // verus!
