//! Value types of the resolver: requirements, identities, parsed references,
//! resolution outcomes and the error taxonomy.

use vstd::prelude::*;

verus! {

/// Mathematical image of a [`PackageReq`]: both parts as character sequences.
pub struct PackageReqView {
    pub name: Seq<char>,
    pub version_req: Seq<char>,
}

/// Mathematical image of a [`PackageNv`]: both parts as character sequences.
pub struct PackageNvView {
    pub name: Seq<char>,
    pub version: Seq<char>,
}

/// A package requirement as a consumer wrote it: a package name plus the
/// version range or tag text. Two requirements are equal exactly when both
/// parts are equal.
#[derive(Debug)]
pub struct PackageReq {
    pub name: String,
    pub version_req: String,
}

/// The concrete identity a requirement resolves to: a package name plus one
/// exact version.
#[derive(Debug)]
pub struct PackageNv {
    pub name: String,
    pub version: String,
}

impl View for PackageReq {
    type V = PackageReqView;

    open spec fn view(&self) -> PackageReqView {
        PackageReqView { name: self.name@, version_req: self.version_req@ }
    }
}

impl View for PackageNv {
    type V = PackageNvView;

    open spec fn view(&self) -> PackageNvView {
        PackageNvView { name: self.name@, version: self.version@ }
    }
}

impl Clone for PackageReq {
    fn clone(&self) -> (r: Self)
        ensures
            r == *self,
    {
        PackageReq { name: self.name.clone(), version_req: self.version_req.clone() }
    }
}

impl Clone for PackageNv {
    fn clone(&self) -> (r: Self)
        ensures
            r == *self,
    {
        PackageNv { name: self.name.clone(), version: self.version.clone() }
    }
}

impl PartialEq for PackageReq {
    fn eq(&self, other: &Self) -> (r: bool) {
        self.name == other.name && self.version_req == other.version_req
    }
}

impl vstd::std_specs::cmp::PartialEqSpecImpl for PackageReq {
    open spec fn obeys_eq_spec() -> bool {
        true
    }

    open spec fn eq_spec(&self, other: &Self) -> bool {
        self@ == other@
    }
}

impl PartialEq for PackageNv {
    fn eq(&self, other: &Self) -> (r: bool) {
        self.name == other.name && self.version == other.version
    }
}

impl vstd::std_specs::cmp::PartialEqSpecImpl for PackageNv {
    open spec fn obeys_eq_spec() -> bool {
        true
    }

    open spec fn eq_spec(&self, other: &Self) -> bool {
        self@ == other@
    }
}

/// Mathematical image of an [`NpmPackageReqReference`].
pub struct NpmPackageReqReferenceView {
    pub req: PackageReqView,
    pub sub_path: Option<Seq<char>>,
}

/// Mathematical image of an [`NpmPackageNvReference`].
pub struct NpmPackageNvReferenceView {
    pub nv: PackageNvView,
    pub sub_path: Option<Seq<char>>,
}

/// A parsed specifier naming an unresolved requirement, with an optional
/// in-package sub-path.
#[derive(Debug)]
pub struct NpmPackageReqReference {
    pub req: PackageReq,
    pub sub_path: Option<String>,
}

/// A parsed specifier naming an already-resolved identity, with an optional
/// in-package sub-path.
#[derive(Debug)]
pub struct NpmPackageNvReference {
    pub nv: PackageNv,
    pub sub_path: Option<String>,
}

/// Image of an optional string as an optional character sequence.
pub open spec fn opt_str_view(o: Option<String>) -> Option<Seq<char>> {
    match o {
        Some(s) => Some(s@),
        None => None,
    }
}

impl View for NpmPackageReqReference {
    type V = NpmPackageReqReferenceView;

    open spec fn view(&self) -> NpmPackageReqReferenceView {
        NpmPackageReqReferenceView { req: self.req@, sub_path: opt_str_view(self.sub_path) }
    }
}

impl View for NpmPackageNvReference {
    type V = NpmPackageNvReferenceView;

    open spec fn view(&self) -> NpmPackageNvReferenceView {
        NpmPackageNvReferenceView { nv: self.nv@, sub_path: opt_str_view(self.sub_path) }
    }
}

/// Outcome of resolving a requirement. Not finding a package is a normal
/// outcome, never an error: callers branch on it.
#[derive(Debug)]
pub enum NpmPackageReqResolution {
    Found(PackageNv),
    NotFound,
}

impl View for NpmPackageReqResolution {
    type V = Option<PackageNvView>;

    open spec fn view(&self) -> Option<PackageNvView> {
        match self {
            NpmPackageReqResolution::Found(nv) => Some(nv@),
            NpmPackageReqResolution::NotFound => None,
        }
    }
}

/// Failure of dereferencing a requirement reference that the active snapshot
/// never resolved: a caller-contract violation, distinct from not finding a
/// package.
#[derive(Debug)]
pub struct PackageReqNotFoundError(pub PackageReq);

impl View for PackageReqNotFoundError {
    type V = PackageReqView;

    open spec fn view(&self) -> PackageReqView {
        self.0@
    }
}

/// Mathematical image of an [`NpmResolverError`].
pub enum NpmResolverErrorView {
    RequirementNotResolved(PackageReqView),
    BrokenInstall(PackageNvView),
}

/// Failures of folder resolution. A broken install names the exact package
/// and version whose resolution succeeded but whose folder is missing.
#[derive(Debug)]
pub enum NpmResolverError {
    RequirementNotResolved(PackageReq),
    BrokenInstall(PackageNv),
}

impl View for NpmResolverError {
    type V = NpmResolverErrorView;

    open spec fn view(&self) -> NpmResolverErrorView {
        match self {
            NpmResolverError::RequirementNotResolved(req) => {
                NpmResolverErrorView::RequirementNotResolved(req@)
            },
            NpmResolverError::BrokenInstall(nv) => NpmResolverErrorView::BrokenInstall(nv@),
        }
    }
}

/// The user-facing text of a folder-resolution failure.
pub open spec fn spec_error_message(e: NpmResolverErrorView) -> Seq<char> {
    match e {
        NpmResolverErrorView::RequirementNotResolved(req) => {
            "could not find a resolved npm package for "@ + req.name + "@"@ + req.version_req
        },
        NpmResolverErrorView::BrokenInstall(nv) => {
            "missing folder for npm package "@ + nv.name + "@"@ + nv.version
        },
    }
}

impl NpmResolverError {
    /// The text shown to the user: the failure with the offending package
    /// identifier attached.
    pub fn message(&self) -> (r: String)
        ensures
            r@ == spec_error_message(self@),
    {
        let mut out = String::new();
        match self {
            NpmResolverError::RequirementNotResolved(req) => {
                out.append("could not find a resolved npm package for ");
                out.append(req.name.as_str());
                out.append("@");
                out.append(req.version_req.as_str());
            },
            NpmResolverError::BrokenInstall(nv) => {
                out.append("missing folder for npm package ");
                out.append(nv.name.as_str());
                out.append("@");
                out.append(nv.version.as_str());
            },
        }
        out
    }
}

/// Failure of constructing a resolver: the user-managed strategy cannot be
/// built yet, and asking for it fails fast and explicitly.
#[derive(Clone, Copy, Debug, PartialEq, Eq, Structural)]
pub enum NpmResolverCreateError {
    NotYetImplemented,
}

} // verus!
