use npm_resolver::create_cli_npm_resolver;
use npm_resolver::create_cli_npm_resolver_for_lsp;
use npm_resolver::ByonmCliNpmResolver;
use npm_resolver::CliNpmResolver;
use npm_resolver::CliNpmResolverCreateOptions;
use npm_resolver::CliNpmResolverManagedCreateOptions;
use npm_resolver::CliNpmResolverManagedPackageJsonInstallerOption;
use npm_resolver::CliNpmResolverManagedSnapshotOption;
use npm_resolver::InnerCliNpmResolverRef;
use npm_resolver::NpmPackageReqReference;
use npm_resolver::NpmPackageReqResolution;
use npm_resolver::NpmResolverCreateError;
use npm_resolver::NpmResolverError;
use npm_resolver::PackageNv;
use npm_resolver::PackageReq;

fn req(name: &str, version_req: &str) -> PackageReq {
    PackageReq { name: name.to_string(), version_req: version_req.to_string() }
}

fn nv(name: &str, version: &str) -> PackageNv {
    PackageNv { name: name.to_string(), version: version.to_string() }
}

fn lodash_options() -> CliNpmResolverManagedCreateOptions {
    CliNpmResolverManagedCreateOptions {
        snapshot: CliNpmResolverManagedSnapshotOption::ResolveFromLockfile(vec![
            (req("lodash", "^4.17.0"), nv("lodash", "4.17.21")),
            (req("chalk", "^5.0.0"), nv("chalk", "5.3.0")),
        ]),
        package_json_installer: CliNpmResolverManagedPackageJsonInstallerOption::NoInstall,
        root_dir_url: "file:///deno-dir/npm/".to_string(),
        maybe_node_modules_path: None,
        package_folders: vec![(
            nv("lodash", "4.17.21"),
            "file:///deno-dir/npm/lodash/4.17.21/".to_string(),
        )],
    }
}

fn lodash_resolver() -> CliNpmResolver {
    create_cli_npm_resolver(CliNpmResolverCreateOptions::Managed(lodash_options())).unwrap()
}

#[test]
fn resolve_finds_exact_identity() {
    let mut resolver = lodash_resolver();
    match resolver.resolve_npm_for_deno_graph(&req("lodash", "^4.17.0")) {
        NpmPackageReqResolution::Found(found) => {
            assert_eq!(found, nv("lodash", "4.17.21"));
        }
        NpmPackageReqResolution::NotFound => panic!("lodash must resolve"),
    }
    let all = resolver.package_reqs();
    assert_eq!(all.len(), 1);
    assert_eq!(all[0].0, req("lodash", "^4.17.0"));
    assert_eq!(all[0].1, nv("lodash", "4.17.21"));
}

#[test]
fn resolve_twice_returns_same_identity() {
    let mut resolver = lodash_resolver();
    let first = resolver.resolve_npm_for_deno_graph(&req("lodash", "^4.17.0"));
    let second = resolver.resolve_npm_for_deno_graph(&req("lodash", "^4.17.0"));
    match (first, second) {
        (NpmPackageReqResolution::Found(a), NpmPackageReqResolution::Found(b)) => {
            assert_eq!(a, b);
            assert_eq!(a, nv("lodash", "4.17.21"));
        }
        _ => panic!("both resolutions must find lodash"),
    }
    assert_eq!(resolver.package_reqs().len(), 1);
}

#[test]
fn resolve_nonexistent_is_not_found_and_records_nothing() {
    let mut resolver = lodash_resolver();
    let outcome = resolver.resolve_npm_for_deno_graph(&req("left-pad", "^9.9.9"));
    assert!(matches!(outcome, NpmPackageReqResolution::NotFound));
    assert!(resolver.package_reqs().is_empty());
}

#[test]
fn folder_for_identity_of_materialized_package() {
    let resolver = lodash_resolver();
    let folder = resolver.resolve_pkg_folder_from_deno_module(&nv("lodash", "4.17.21"));
    assert_eq!(folder.unwrap(), "file:///deno-dir/npm/lodash/4.17.21/");
}

#[test]
fn folder_for_identity_without_folder_is_broken_install() {
    let mut resolver = lodash_resolver();
    resolver.resolve_npm_for_deno_graph(&req("chalk", "^5.0.0"));
    match resolver.resolve_pkg_folder_from_deno_module(&nv("chalk", "5.3.0")) {
        Err(NpmResolverError::BrokenInstall(broken)) => {
            assert_eq!(broken, nv("chalk", "5.3.0"));
        }
        other => panic!("expected a broken install, got {:?}", other),
    }
}

#[test]
fn folder_for_requirement_follows_resolution() {
    let mut resolver = lodash_resolver();
    resolver.resolve_npm_for_deno_graph(&req("lodash", "^4.17.0"));
    let folder = resolver.resolve_pkg_folder_from_deno_module_req(&req("lodash", "^4.17.0"));
    assert_eq!(folder.unwrap(), "file:///deno-dir/npm/lodash/4.17.21/");
}

#[test]
fn folder_for_unresolved_requirement_fails() {
    let resolver = lodash_resolver();
    match resolver.resolve_pkg_folder_from_deno_module_req(&req("lodash", "^4.17.0")) {
        Err(NpmResolverError::RequirementNotResolved(missing)) => {
            assert_eq!(missing, req("lodash", "^4.17.0"));
        }
        other => panic!("expected an unresolved requirement, got {:?}", other),
    }
}

#[test]
fn specifier_outside_packages_is_absent_not_error() {
    let resolver = lodash_resolver();
    let outcome =
        resolver.resolve_pkg_folder_from_specifier(&"https://deno.land/x/oak/mod.ts".to_string());
    assert_eq!(outcome, None);
}

#[test]
fn specifier_inside_package_finds_its_folder() {
    let resolver = lodash_resolver();
    let outcome = resolver.resolve_pkg_folder_from_specifier(
        &"file:///deno-dir/npm/lodash/4.17.21/fp/map.js".to_string(),
    );
    assert_eq!(outcome, Some("file:///deno-dir/npm/lodash/4.17.21/".to_string()));
}

#[test]
fn specifier_equal_to_the_folder_is_inside_it() {
    let resolver = lodash_resolver();
    let outcome = resolver
        .resolve_pkg_folder_from_specifier(&"file:///deno-dir/npm/lodash/4.17.21/".to_string());
    assert_eq!(outcome, Some("file:///deno-dir/npm/lodash/4.17.21/".to_string()));
}

#[test]
fn specifier_shorter_than_any_folder_is_absent() {
    let resolver = lodash_resolver();
    let outcome = resolver
        .resolve_pkg_folder_from_specifier(&"file:///deno-dir/npm/lodash".to_string());
    assert_eq!(outcome, None);
}

#[test]
fn fork_growth_is_invisible_to_original() {
    let mut original = lodash_resolver();
    original.resolve_npm_for_deno_graph(&req("lodash", "^4.17.0"));
    let before = original.package_reqs();

    let mut fork = original.clone_snapshotted();
    fork.resolve_npm_for_deno_graph(&req("chalk", "^5.0.0"));

    let after = original.package_reqs();
    assert_eq!(before.len(), after.len());
    assert_eq!(after.len(), 1);
    assert_eq!(after[0].0, req("lodash", "^4.17.0"));
    assert_eq!(fork.package_reqs().len(), 2);
}

#[test]
fn fork_keeps_what_was_already_resolved() {
    let mut original = lodash_resolver();
    original.resolve_npm_for_deno_graph(&req("lodash", "^4.17.0"));
    let fork = original.clone_snapshotted();
    let folder = fork.resolve_pkg_folder_from_deno_module_req(&req("lodash", "^4.17.0"));
    assert_eq!(folder.unwrap(), "file:///deno-dir/npm/lodash/4.17.21/");
}

#[test]
fn is_cached_agrees_with_folder_resolution() {
    let mut resolver = lodash_resolver();

    let lodash = req("lodash", "^4.17.0");
    assert!(!resolver.is_pkg_req_folder_cached(&lodash));
    assert!(resolver.resolve_pkg_folder_from_deno_module_req(&lodash).is_err());

    resolver.resolve_npm_for_deno_graph(&lodash);
    assert!(resolver.is_pkg_req_folder_cached(&lodash));
    assert!(resolver.resolve_pkg_folder_from_deno_module_req(&lodash).is_ok());

    let chalk = req("chalk", "^5.0.0");
    resolver.resolve_npm_for_deno_graph(&chalk);
    assert!(!resolver.is_pkg_req_folder_cached(&chalk));
    assert!(resolver.resolve_pkg_folder_from_deno_module_req(&chalk).is_err());
}

#[test]
fn process_state_lists_resolved_pairs_in_order() {
    let mut resolver = lodash_resolver();
    assert_eq!(resolver.get_npm_process_state(), "");
    resolver.resolve_npm_for_deno_graph(&req("lodash", "^4.17.0"));
    resolver.resolve_npm_for_deno_graph(&req("chalk", "^5.0.0"));
    assert_eq!(
        resolver.get_npm_process_state(),
        "lodash@^4.17.0 lodash@4.17.21\nchalk@^5.0.0 chalk@5.3.0\n"
    );
}

#[test]
fn dereference_of_resolved_requirement_keeps_sub_path() {
    let mut resolver = lodash_resolver();
    resolver.resolve_npm_for_deno_graph(&req("lodash", "^4.17.0"));
    let req_ref = NpmPackageReqReference {
        req: req("lodash", "^4.17.0"),
        sub_path: Some("fp/map".to_string()),
    };
    let nv_ref = resolver.resolve_pkg_nv_ref_from_pkg_req_ref(&req_ref).unwrap();
    assert_eq!(nv_ref.nv, nv("lodash", "4.17.21"));
    assert_eq!(nv_ref.sub_path, Some("fp/map".to_string()));
}

#[test]
fn dereference_of_unresolved_requirement_fails() {
    let resolver = lodash_resolver();
    let req_ref = NpmPackageReqReference { req: req("lodash", "^4.17.0"), sub_path: None };
    let err = resolver.resolve_pkg_nv_ref_from_pkg_req_ref(&req_ref).unwrap_err();
    assert_eq!(err.0, req("lodash", "^4.17.0"));
}

#[test]
fn specified_snapshot_starts_already_resolved() {
    let options = CliNpmResolverManagedCreateOptions {
        snapshot: CliNpmResolverManagedSnapshotOption::Specified(Some(vec![(
            req("lodash", "^4.17.0"),
            nv("lodash", "4.17.21"),
        )])),
        package_json_installer:
            CliNpmResolverManagedPackageJsonInstallerOption::ConditionalInstall,
        root_dir_url: "file:///deno-dir/npm/".to_string(),
        maybe_node_modules_path: Some("/work/node_modules".to_string()),
        package_folders: vec![],
    };
    let resolver = create_cli_npm_resolver(CliNpmResolverCreateOptions::Managed(options)).unwrap();
    let all = resolver.package_reqs();
    assert_eq!(all.len(), 1);
    assert_eq!(all[0].1, nv("lodash", "4.17.21"));

    let managed = resolver.as_managed().expect("the managed strategy is active");
    assert_eq!(managed.root_dir_url(), "file:///deno-dir/npm/");
    assert_eq!(managed.node_modules_path(), Some("/work/node_modules".to_string()));
}

#[test]
fn empty_specified_snapshot_resolves_nothing() {
    let options = CliNpmResolverManagedCreateOptions {
        snapshot: CliNpmResolverManagedSnapshotOption::Specified(None),
        package_json_installer: CliNpmResolverManagedPackageJsonInstallerOption::NoInstall,
        root_dir_url: "file:///deno-dir/npm/".to_string(),
        maybe_node_modules_path: None,
        package_folders: vec![],
    };
    let mut resolver =
        create_cli_npm_resolver(CliNpmResolverCreateOptions::Managed(options)).unwrap();
    let outcome = resolver.resolve_npm_for_deno_graph(&req("lodash", "^4.17.0"));
    assert!(matches!(outcome, NpmPackageReqResolution::NotFound));
    assert!(resolver.package_reqs().is_empty());
}

#[test]
fn error_messages_name_the_offending_package() {
    let unresolved = NpmResolverError::RequirementNotResolved(req("lodash", "^4.17.0"));
    assert_eq!(
        unresolved.message(),
        "could not find a resolved npm package for lodash@^4.17.0"
    );
    let broken = NpmResolverError::BrokenInstall(nv("chalk", "5.3.0"));
    assert_eq!(broken.message(), "missing folder for npm package chalk@5.3.0");
}

#[test]
fn byonm_construction_fails_fast() {
    let err = create_cli_npm_resolver(CliNpmResolverCreateOptions::Byonm).unwrap_err();
    assert_eq!(err, NpmResolverCreateError::NotYetImplemented);
}

#[test]
fn lsp_construction_of_managed_strategy() {
    let resolver =
        create_cli_npm_resolver_for_lsp(CliNpmResolverCreateOptions::Managed(lodash_options()));
    assert!(resolver.as_managed().is_some());
}

#[test]
fn as_inner_names_the_active_strategy() {
    let resolver = lodash_resolver();
    assert!(matches!(resolver.as_inner(), InnerCliNpmResolverRef::Managed(_)));

    let byonm = CliNpmResolver::Byonm(ByonmCliNpmResolver);
    assert!(matches!(byonm.as_inner(), InnerCliNpmResolverRef::Byonm(_)));
    assert!(byonm.as_managed().is_none());
}

#[test]
fn root_and_node_modules_follow_the_strategy() {
    let resolver = lodash_resolver();
    assert_eq!(resolver.root_dir_url(), Some(&"file:///deno-dir/npm/".to_string()));
    assert_eq!(resolver.node_modules_path(), None);

    let byonm = CliNpmResolver::Byonm(ByonmCliNpmResolver);
    assert_eq!(byonm.root_dir_url(), None);
    assert_eq!(byonm.node_modules_path(), None);
}

#[test]
fn byonm_placeholder_has_empty_snapshot_behavior() {
    let mut byonm = CliNpmResolver::Byonm(ByonmCliNpmResolver);
    let outcome = byonm.resolve_npm_for_deno_graph(&req("lodash", "^4.17.0"));
    assert!(matches!(outcome, NpmPackageReqResolution::NotFound));
    assert!(byonm.package_reqs().is_empty());
    assert!(!byonm.is_pkg_req_folder_cached(&req("lodash", "^4.17.0")));
    assert_eq!(byonm.get_npm_process_state(), "");
    assert_eq!(byonm.resolve_pkg_folder_from_specifier(&"file:///x.js".to_string()), None);
    match byonm.resolve_pkg_folder_from_deno_module(&nv("lodash", "4.17.21")) {
        Err(NpmResolverError::BrokenInstall(broken)) => {
            assert_eq!(broken, nv("lodash", "4.17.21"));
        }
        other => panic!("expected a broken install, got {:?}", other),
    }
}
