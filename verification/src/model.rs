//! Mathematical model of a resolution snapshot and the laws the contract
//! keeps: a snapshot is an association list from requirement to identity,
//! looked up by first match, plus the set of identities with a materialized
//! folder.

use vstd::prelude::*;

use crate::types::NpmResolverErrorView;
use crate::types::PackageNvView;
use crate::types::PackageReqView;

verus! {

/// First-match lookup in an association list.
pub open spec fn alookup<K, V>(s: Seq<(K, V)>, k: K) -> Option<V>
    decreases s.len(),
{
    if s.len() == 0 {
        None
    } else if s[0].0 == k {
        Some(s[0].1)
    } else {
        alookup(s.drop_first(), k)
    }
}

/// The snapshot state every strategy maintains: lock data available for
/// on-demand resolution, the requirement-to-identity pairs resolved so far,
/// and the identities that have a materialized on-disk folder.
#[verifier::ext_equal]
pub struct ResolverModel {
    pub lock: Seq<(PackageReqView, PackageNvView)>,
    pub resolved: Seq<(PackageReqView, PackageNvView)>,
    pub folders: Seq<(PackageNvView, Seq<char>)>,
}

impl ResolverModel {
    /// The model of a resolver that has nothing resolved and no folders.
    pub open spec fn empty() -> ResolverModel {
        ResolverModel { lock: Seq::empty(), resolved: Seq::empty(), folders: Seq::empty() }
    }
}

/// The identity that resolving a requirement yields: the memoized one when
/// the snapshot already holds the requirement, else whatever the lock data
/// offers, else nothing.
pub open spec fn spec_resolve_result(m: ResolverModel, req: PackageReqView) -> Option<
    PackageNvView,
> {
    match alookup(m.resolved, req) {
        Some(nv) => Some(nv),
        None => alookup(m.lock, req),
    }
}

/// The snapshot state after resolving a requirement: unchanged on a memoized
/// hit or a miss, extended by exactly the newly resolved pair otherwise.
pub open spec fn spec_resolve_state(m: ResolverModel, req: PackageReqView) -> ResolverModel {
    match alookup(m.resolved, req) {
        Some(_) => m,
        None => match alookup(m.lock, req) {
            Some(nv) => ResolverModel { resolved: m.resolved.push((req, nv)), ..m },
            None => m,
        },
    }
}

/// A requirement's folder is cached when the snapshot has resolved it and the
/// resolved identity has a materialized folder.
pub open spec fn spec_is_cached(m: ResolverModel, req: PackageReqView) -> bool {
    match alookup(m.resolved, req) {
        Some(nv) => alookup(m.folders, nv) is Some,
        None => false,
    }
}

/// The folder of an identity, or the broken-install failure naming it.
pub open spec fn spec_folder_for_nv(m: ResolverModel, nv: PackageNvView) -> Result<
    Seq<char>,
    NpmResolverErrorView,
> {
    match alookup(m.folders, nv) {
        Some(f) => Ok(f),
        None => Err(NpmResolverErrorView::BrokenInstall(nv)),
    }
}

/// The folder of a requirement: resolve it in the snapshot, then take the
/// identity's folder.
pub open spec fn spec_folder_for_req(m: ResolverModel, req: PackageReqView) -> Result<
    Seq<char>,
    NpmResolverErrorView,
> {
    match alookup(m.resolved, req) {
        Some(nv) => spec_folder_for_nv(m, nv),
        None => Err(NpmResolverErrorView::RequirementNotResolved(req)),
    }
}

/// The folder of the first materialized package whose folder path is a prefix
/// of the specifier, if any.
pub open spec fn spec_folder_for_specifier(
    folders: Seq<(PackageNvView, Seq<char>)>,
    specifier: Seq<char>,
) -> Option<Seq<char>>
    decreases folders.len(),
{
    if folders.len() == 0 {
        None
    } else if folders[0].1.is_prefix_of(specifier) {
        Some(folders[0].1)
    } else {
        spec_folder_for_specifier(folders.drop_first(), specifier)
    }
}

/// One resolved pair on the process-state wire: requirement and identity,
/// each as name, separator, version text.
pub open spec fn encode_pair(p: (PackageReqView, PackageNvView)) -> Seq<char> {
    p.0.name + "@"@ + p.0.version_req + " "@ + p.1.name + "@"@ + p.1.version + "\n"@
}

/// The process-state wire text: every resolved pair in snapshot order, one
/// line each.
pub open spec fn encode_pairs(s: Seq<(PackageReqView, PackageNvView)>) -> Seq<char>
    decreases s.len(),
{
    if s.len() == 0 {
        Seq::empty()
    } else {
        encode_pairs(s.drop_last()) + encode_pair(s.last())
    }
}

pub proof fn lemma_alookup_match_at<K, V>(s: Seq<(K, V)>, k: K, i: int)
    requires
        0 <= i < s.len(),
        s[i].0 == k,
        forall|j: int| 0 <= j < i ==> (#[trigger] s[j]).0 != k,
    ensures
        alookup(s, k) == Some(s[i].1),
    decreases i,
{
    if i > 0 {
        assert forall|j: int| 0 <= j < i - 1 implies (#[trigger] s.drop_first()[j]).0 != k by {
            assert(s.drop_first()[j] == s[j + 1]);
        }
        lemma_alookup_match_at(s.drop_first(), k, i - 1);
    }
}

pub proof fn lemma_alookup_none<K, V>(s: Seq<(K, V)>, k: K)
    requires
        forall|j: int| 0 <= j < s.len() ==> (#[trigger] s[j]).0 != k,
    ensures
        alookup(s, k) is None,
    decreases s.len(),
{
    if s.len() > 0 {
        assert forall|j: int| 0 <= j < s.len() - 1 implies (#[trigger] s.drop_first()[j]).0 != k by {
            assert(s.drop_first()[j] == s[j + 1]);
        }
        lemma_alookup_none(s.drop_first(), k);
    }
}

/// Appending a pair changes no lookup that already found something, and
/// answers a lookup of the appended key that found nothing before.
pub proof fn lemma_alookup_push<K, V>(s: Seq<(K, V)>, k: K, p: (K, V))
    ensures
        alookup(s.push(p), k) == (if alookup(s, k) is Some {
            alookup(s, k)
        } else if p.0 == k {
            Some(p.1)
        } else {
            None::<V>
        }),
    decreases s.len(),
{
    if s.len() == 0 {
        assert(s.push(p).len() == 1);
        assert(s.push(p)[0] == p);
        assert(alookup(s, k) is None);
        if p.0 == k {
            assert(alookup(s.push(p), k) == Some(p.1));
        } else {
            assert(s.push(p).drop_first() =~= Seq::<(K, V)>::empty());
            assert(alookup(s.push(p), k) == alookup(s.push(p).drop_first(), k));
            assert(alookup(s.push(p), k) is None);
        }
    } else {
        assert(s.push(p)[0] == s[0]);
        assert(s.push(p).len() == s.len() + 1);
        assert(s.push(p).drop_first() =~= s.drop_first().push(p));
        lemma_alookup_push(s.drop_first(), k, p);
        if s[0].0 == k {
            assert(alookup(s, k) == Some(s[0].1));
            assert(alookup(s.push(p), k) == Some(s[0].1));
        } else {
            assert(alookup(s, k) == alookup(s.drop_first(), k));
            assert(alookup(s.push(p), k) == alookup(s.drop_first().push(p), k));
        }
    }
}

/// Within one snapshot lineage, resolving the same requirement twice yields
/// the same identity both times, and the second resolution changes nothing.
pub proof fn lemma_resolve_idempotent(m: ResolverModel, req: PackageReqView)
    ensures
        spec_resolve_result(spec_resolve_state(m, req), req) == spec_resolve_result(m, req),
        spec_resolve_state(spec_resolve_state(m, req), req) == spec_resolve_state(m, req),
{
    if alookup(m.resolved, req) is None {
        match alookup(m.lock, req) {
            Some(nv) => {
                lemma_alookup_push(m.resolved, req, (req, nv));
            },
            None => {
            },
        }
    }
}

/// Growth never rewrites what a snapshot already resolved: a requirement
/// resolved before any later resolution still maps to the same identity
/// after it.
pub proof fn lemma_growth_preserves_resolved(
    m: ResolverModel,
    req: PackageReqView,
    k: PackageReqView,
)
    requires
        alookup(m.resolved, k) is Some,
    ensures
        alookup(spec_resolve_state(m, req).resolved, k) == alookup(m.resolved, k),
{
    if alookup(m.resolved, req) is None {
        match alookup(m.lock, req) {
            Some(nv) => {
                lemma_alookup_push(m.resolved, k, (req, nv));
            },
            None => {
            },
        }
    }
}

/// The only transition a snapshot has is appending a newly resolved pair:
/// resolution never touches lock data or folders, and the resolved pairs
/// before any resolution are a prefix of the pairs after it — growth is
/// monotonic, with no rollback. In particular, a fork's growth happens in
/// the fork's own state alone.
pub proof fn lemma_resolve_grows_monotonically(m: ResolverModel, req: PackageReqView)
    ensures
        spec_resolve_state(m, req).lock == m.lock,
        spec_resolve_state(m, req).folders == m.folders,
        m.resolved.is_prefix_of(spec_resolve_state(m, req).resolved),
{
    let grown = spec_resolve_state(m, req).resolved;
    assert(m.resolved =~= grown.subrange(0, m.resolved.len() as int));
}

/// A requirement's folder is cached exactly when asking for that folder
/// succeeds: the two probes agree on every snapshot state.
pub proof fn lemma_is_cached_iff_folder(m: ResolverModel, req: PackageReqView)
    ensures
        spec_is_cached(m, req) <==> spec_folder_for_req(m, req) is Ok,
{
}

/// A specifier addresses no npm package exactly when no materialized folder
/// path is a prefix of it; folder lookup by specifier then yields the absent
/// case rather than a failure.
pub proof fn lemma_specifier_outside_packages(
    folders: Seq<(PackageNvView, Seq<char>)>,
    specifier: Seq<char>,
)
    ensures
        spec_folder_for_specifier(folders, specifier) is None <==> (forall|i: int|
            0 <= i < folders.len() ==> !(#[trigger] folders[i]).1.is_prefix_of(specifier)),
    decreases folders.len(),
{
    if folders.len() > 0 {
        lemma_specifier_outside_packages(folders.drop_first(), specifier);
        if !folders[0].1.is_prefix_of(specifier) {
            if spec_folder_for_specifier(folders, specifier) is None {
                assert forall|i: int|
                    0 <= i < folders.len() implies !(#[trigger] folders[i]).1.is_prefix_of(
                    specifier,
                ) by {
                    if i > 0 {
                        assert(folders.drop_first()[i - 1] == folders[i]);
                    }
                }
            } else {
                let i = choose|i: int|
                    0 <= i < folders.drop_first().len() && (#[trigger] folders.drop_first()[
                        i
                    ]).1.is_prefix_of(specifier);
                assert(folders[i + 1] == folders.drop_first()[i]);
            }
        }
    }
}

} // verus!
