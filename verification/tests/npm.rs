use ai_deno::entries::{lookup, merge_dependencies, position, Entry};
use ai_deno::error::NpmPackageError;
use ai_deno::npm::{
    confirm_file, confirm_manifest, confirm_package_dir, entry_file, extract_tarball, in_npm_package, install_key,
    package_json_candidates, resolve_closest_package_json, ExtractPlan, InstallTicket,
    NpmPackageManager, PackageLocation, PackageManifest, PackageOnDisk,
};
use ai_deno::npm_registry::{
    encode_name, find_version, registry_url_for, resolve_version, NpmPackageInfo, NpmVersionInfo,
    ResolvedVersion, NPM_REGISTRY_URL,
};

fn entry(key: &str, value: &str) -> Entry {
    Entry { key: key.to_string(), value: value.to_string() }
}

fn manifest(version: Option<&str>) -> PackageManifest {
    PackageManifest {
        version: version.map(|v| v.to_string()),
        main: None,
        module: None,
        typ: "none".to_string(),
        dependencies: vec![],
        optional_dependencies: vec![],
    }
}

fn version(version: &str, tarball: Option<&str>) -> NpmVersionInfo {
    NpmVersionInfo {
        version: version.to_string(),
        tarball: tarball.map(|t| t.to_string()),
        dependencies: vec![],
        optional_dependencies: vec![],
    }
}

fn lodash() -> NpmPackageInfo {
    NpmPackageInfo {
        name: "lodash".to_string(),
        dist_tags: Some(vec![entry("latest", "4.17.21"), entry("next", "5.0.0-beta.1")]),
        versions: vec![
            version("4.17.20", Some("https://registry.npmjs.org/lodash/-/lodash-4.17.20.tgz")),
            version("4.17.21", Some("https://registry.npmjs.org/lodash/-/lodash-4.17.21.tgz")),
            version("5.0.0-beta.1", None),
        ],
    }
}

fn unresolved(message: &str) -> Result<ResolvedVersion, NpmPackageError> {
    Err(NpmPackageError::ResolutionFailed(message.to_string()))
}

fn location(subpath: Option<&str>) -> PackageLocation {
    PackageLocation {
        name: "lodash".to_string(),
        version: "4.17.21".to_string(),
        subpath: subpath.map(|s| s.to_string()),
        package_dir: "/root/npm/lodash/4.17.21".to_string(),
    }
}

#[test]
fn first_entry_with_a_key() {
    let entries = vec![entry("a", "1"), entry("b", "2"), entry("a", "3")];
    assert_eq!(position(&entries, "a"), 0);
    assert_eq!(position(&entries, "b"), 1);
    assert_eq!(position(&entries, "c"), 3);
    assert_eq!(lookup(&entries, "a"), Some("1".to_string()));
    assert_eq!(lookup(&entries, "c"), None);
    assert_eq!(lookup(&vec![], "a"), None);
}

#[test]
fn optional_dependencies_win_over_required_ones() {
    let required = vec![entry("a", "1"), entry("b", "2"), entry("a", "9")];
    let optional = vec![entry("c", "3"), entry("b", "4"), entry("c", "8")];
    assert_eq!(
        merge_dependencies(&required, &optional),
        vec![entry("a", "1"), entry("b", "4"), entry("c", "3")]
    );
    assert_eq!(merge_dependencies(&vec![], &vec![]), vec![]);
    assert_eq!(merge_dependencies(&required, &vec![]), vec![entry("a", "1"), entry("b", "2")]);
    assert_eq!(merge_dependencies(&vec![], &optional), vec![entry("c", "3"), entry("b", "4")]);
}

#[test]
fn registry_address_of_a_package() {
    assert_eq!(NPM_REGISTRY_URL, "https://registry.npmjs.org");
    assert_eq!(registry_url_for(NPM_REGISTRY_URL, "lodash"), "https://registry.npmjs.org/lodash");
    assert_eq!(
        registry_url_for(NPM_REGISTRY_URL, "@types/react"),
        "https://registry.npmjs.org/@types%2Freact"
    );
    assert_eq!(registry_url_for("http://r", "a/b"), "http://r/a/b");
    assert_eq!(encode_name("@a/b/c"), "@a%2Fb%2Fc");
    assert_eq!(encode_name("/"), "%2F");
    assert_eq!(encode_name(""), "");
}

#[test]
fn version_that_is_asked_for() {
    assert_eq!(
        resolve_version(&lodash(), "lodash", Some("4.17.20")),
        Ok(ResolvedVersion {
            version: "4.17.20".to_string(),
            tarball: "https://registry.npmjs.org/lodash/-/lodash-4.17.20.tgz".to_string(),
            index: 0,
        })
    );
}

#[test]
fn latest_without_a_version() {
    assert_eq!(
        resolve_version(&lodash(), "lodash", None),
        Ok(ResolvedVersion {
            version: "4.17.21".to_string(),
            tarball: "https://registry.npmjs.org/lodash/-/lodash-4.17.21.tgz".to_string(),
            index: 1,
        })
    );
}

#[test]
fn version_that_is_a_dist_tag() {
    assert_eq!(
        resolve_version(&lodash(), "lodash", Some("latest")),
        Ok(ResolvedVersion {
            version: "4.17.21".to_string(),
            tarball: "https://registry.npmjs.org/lodash/-/lodash-4.17.21.tgz".to_string(),
            index: 1,
        })
    );
}

#[test]
fn versions_that_cannot_be_resolved() {
    assert_eq!(
        resolve_version(&lodash(), "lodash", Some("1.0.0")),
        unresolved("tarball URLが見つかりません: lodash@1.0.0")
    );
    assert_eq!(
        resolve_version(&lodash(), "lodash", Some("next")),
        unresolved("tarball URLが見つかりません: lodash@5.0.0-beta.1")
    );
    let mut untagged = lodash();
    untagged.dist_tags = None;
    assert_eq!(
        resolve_version(&untagged, "lodash", None),
        unresolved("バージョン情報が見つかりません: lodash")
    );
    let mut no_latest = lodash();
    no_latest.dist_tags = Some(vec![entry("next", "5.0.0-beta.1")]);
    assert_eq!(
        resolve_version(&no_latest, "lodash", None),
        unresolved("latestタグが見つかりません: lodash")
    );
    assert_eq!(find_version(&lodash(), "4.17.21"), 1);
    assert_eq!(find_version(&lodash(), "0.0.0"), 3);
}

#[test]
fn nothing_is_installed_in_a_new_cache() {
    let manager = NpmPackageManager::new("/root/npm".to_string());
    assert_eq!(manager.packages_root_dir, "/root/npm");
    assert_eq!(manager.cache_dir, "/root/npm");
    assert!(!manager.is_marked_installed("lodash", "4.17.21"));
    assert!(!manager.is_package_installed("lodash", "4.17.21", &PackageOnDisk::Missing));
    assert!(!manager.is_package_installed("lodash", "4.17.21", &PackageOnDisk::NoManifest));
}

#[test]
fn manifest_with_the_version_is_installed() {
    let manager = NpmPackageManager::new("/root/npm".to_string());
    let on_disk = PackageOnDisk::Manifest(manifest(Some("4.17.21")));
    assert!(manager.is_package_installed("lodash", "4.17.21", &on_disk));
}

#[test]
fn manifest_with_another_version_is_not_installed() {
    let manager = NpmPackageManager::new("/root/npm".to_string());
    assert!(!manager.is_package_installed(
        "lodash",
        "4.17.21",
        &PackageOnDisk::Manifest(manifest(Some("4.17.20")))
    ));
    assert!(!manager.is_package_installed(
        "lodash",
        "4.17.21",
        &PackageOnDisk::Manifest(manifest(None))
    ));
}

#[test]
fn what_is_remembered_does_not_count_as_installed() {
    let mut manager = NpmPackageManager::new("/root/npm".to_string());
    manager.mark_installed("lodash", "4.17.21");
    manager.mark_installed("lodash", "4.17.21");
    assert_eq!(manager.installed_packages, vec!["lodash@4.17.21".to_string()]);
    assert!(manager.is_marked_installed("lodash", "4.17.21"));
    assert!(!manager.is_marked_installed("lodash", "4.17.20"));
    assert!(!manager.is_marked_installed("lodas", "h4.17.21"));
    assert!(!manager.is_package_installed("lodash", "4.17.21", &PackageOnDisk::Missing));
    assert!(!manager.is_package_installed("lodash", "4.17.21", &PackageOnDisk::NoManifest));
    assert!(!manager.is_package_installed(
        "lodash",
        "4.17.21",
        &PackageOnDisk::Manifest(manifest(Some("4.17.20")))
    ));
    assert!(manager.is_package_installed(
        "lodash",
        "4.17.21",
        &PackageOnDisk::Manifest(manifest(Some("4.17.21")))
    ));
    assert_eq!(install_key("@a/b", "1.0.0"), "@a/b@1.0.0");
}

#[test]
fn remembered_package_that_left_the_disk_is_installed_anew() {
    let mut manager = NpmPackageManager::new("/root/npm".to_string());
    manager.mark_installed("lodash", "4.17.21");
    assert_eq!(
        manager.begin_install("lodash", "4.17.21", &PackageOnDisk::Missing),
        InstallTicket::Start
    );
}

#[test]
fn one_installation_at_a_time() {
    let mut manager = NpmPackageManager::new("/root/npm".to_string());
    let missing = PackageOnDisk::Missing;
    assert_eq!(manager.begin_install("lodash", "4.17.21", &missing), InstallTicket::Start);
    assert_eq!(manager.begin_install("lodash", "4.17.21", &missing), InstallTicket::Wait);
    assert_eq!(manager.begin_install("lodash", "4.17.20", &missing), InstallTicket::Start);
    manager.finish_install("lodash", "4.17.21", true);
    let installed = PackageOnDisk::Manifest(manifest(Some("4.17.21")));
    assert_eq!(
        manager.begin_install("lodash", "4.17.21", &installed),
        InstallTicket::AlreadyInstalled
    );
    manager.finish_install("lodash", "4.17.20", false);
    assert_eq!(manager.begin_install("lodash", "4.17.20", &missing), InstallTicket::Start);
    assert_eq!(manager.in_flight, vec!["lodash@4.17.20".to_string()]);
}

#[test]
fn package_found_on_disk_is_not_installed_again() {
    let mut manager = NpmPackageManager::new("/root/npm".to_string());
    let on_disk = PackageOnDisk::Manifest(manifest(Some("4.17.21")));
    assert_eq!(manager.begin_install("lodash", "4.17.21", &on_disk), InstallTicket::AlreadyInstalled);
    assert!(manager.is_marked_installed("lodash", "4.17.21"));
    assert!(manager.in_flight.is_empty());
}

#[test]
fn directory_of_a_package() {
    let manager = NpmPackageManager::new("/root/npm".to_string());
    assert_eq!(manager.compute_package_dir("lodash", Some("4.17.21")), "/root/npm/lodash/4.17.21");
    assert_eq!(manager.compute_package_dir("@types/react", None), "/root/npm/@types/react");
}

#[test]
fn explicit_version_wins() {
    let manager = NpmPackageManager::new("/root/npm".to_string());
    let mut referrer = manifest(Some("1.0.0"));
    referrer.dependencies = vec![entry("lodash", "3.0.0")];
    assert_eq!(
        manager.resolve_specifier_to_package_dir(
            "npm:lodash@4.17.20/map.js",
            Some(&referrer),
            Some(&lodash())
        ),
        Ok(PackageLocation {
            name: "lodash".to_string(),
            version: "4.17.20".to_string(),
            subpath: Some("map.js".to_string()),
            package_dir: "/root/npm/lodash/4.17.20".to_string(),
        })
    );
}

#[test]
fn version_of_the_importing_package_comes_next() {
    let manager = NpmPackageManager::new("/root/npm".to_string());
    let mut referrer = manifest(Some("1.0.0"));
    referrer.dependencies = vec![entry("zod", "3.0.0"), entry("lodash", "v4.17.20")];
    referrer.optional_dependencies = vec![entry("lodash", "1.0.0")];
    assert_eq!(
        manager.resolve_specifier_to_package_dir("lodash", Some(&referrer), Some(&lodash())),
        Ok(PackageLocation {
            name: "lodash".to_string(),
            version: "4.17.20".to_string(),
            subpath: None,
            package_dir: "/root/npm/lodash/4.17.20".to_string(),
        })
    );
    assert_eq!(referrer.version_of_dependency("zod"), Some("3.0.0".to_string()));
    assert_eq!(referrer.version_of_dependency("react"), None);
}

#[test]
fn optional_dependency_of_the_importing_package() {
    let manager = NpmPackageManager::new("/root/npm".to_string());
    let mut referrer = manifest(Some("1.0.0"));
    referrer.optional_dependencies = vec![entry("lodash", "4.0.0")];
    assert_eq!(
        manager
            .resolve_specifier_to_package_dir("npm:lodash", Some(&referrer), None)
            .map(|l| l.version),
        Ok("4.0.0".to_string())
    );
}

#[test]
fn range_of_the_importing_package_is_passed_over() {
    let manager = NpmPackageManager::new("/root/npm".to_string());
    let mut referrer = manifest(Some("1.0.0"));
    referrer.dependencies = vec![entry("lodash", "^4.0.0")];
    assert_eq!(
        manager
            .resolve_specifier_to_package_dir("npm:lodash", Some(&referrer), Some(&lodash()))
            .map(|l| l.version),
        Ok("4.17.21".to_string())
    );
}

#[test]
fn latest_of_the_registry_comes_last() {
    let manager = NpmPackageManager::new("/root/npm".to_string());
    assert_eq!(
        manager.resolve_specifier_to_package_dir("npm:lodash/fp", None, Some(&lodash())),
        Ok(PackageLocation {
            name: "lodash".to_string(),
            version: "4.17.21".to_string(),
            subpath: Some("fp".to_string()),
            package_dir: "/root/npm/lodash/4.17.21".to_string(),
        })
    );
}

#[test]
fn specifier_without_any_version() {
    let manager = NpmPackageManager::new("/root/npm".to_string());
    assert_eq!(
        manager.resolve_specifier_to_package_dir("npm:lodash", None, None),
        Err(NpmPackageError::ResolutionFailed(
            "Could not resolve npm package: npm:lodash".to_string()
        ))
    );
    assert_eq!(
        manager.resolve_specifier_to_package_dir("npm:lodash@latest/fp", None, None),
        Err(NpmPackageError::ResolutionFailed(
            "Could not resolve npm package: npm:lodash@latest/fp".to_string()
        ))
    );
    assert_eq!(
        manager.resolve_specifier_to_package_dir("npm:", None, None),
        Err(NpmPackageError::InvalidPackageSpec("Invalid npm package specifier: npm:".to_string()))
    );
}

#[test]
fn package_directory_that_is_missing() {
    assert_eq!(confirm_package_dir(&location(None), true), Ok("/root/npm/lodash/4.17.21".to_string()));
    assert_eq!(
        confirm_package_dir(&location(None), false),
        Err(NpmPackageError::ResolutionFailed(
            "Could not resolve npm package: npm:lodash@4.17.21".to_string()
        ))
    );
    assert_eq!(location(Some("fp/map.js")).specifier(), "npm:lodash@4.17.21/fp/map.js");
    assert_eq!(location(Some("")).specifier(), "npm:lodash@4.17.21");
}

#[test]
fn installed_package_resolves_to_its_main_entry() {
    let manager = NpmPackageManager::new("/root/npm".to_string());
    let found = manager.resolve_specifier_to_package_dir("npm:P@1.0.0", None, None).unwrap();
    assert_eq!(found.package_dir, manager.compute_package_dir("P", Some("1.0.0")));
    let mut package = manifest(Some("1.0.0"));
    package.main = Some("lib/main.js".to_string());
    let path = manager.resolve_specifier_to_file_path(&found, &package);
    assert_eq!(path, "/root/npm/P/1.0.0/lib/main.js");
    assert_eq!(confirm_file(&found, path.clone(), true), Ok(path));
}

#[test]
fn main_entry_of_a_manifest() {
    let mut package = manifest(Some("1.0.0"));
    assert_eq!(package.main_entry(), "index.js");
    package.main = Some("".to_string());
    assert_eq!(package.main_entry(), "index.js");
    package.main = Some("main.cjs".to_string());
    package.module = Some("main.mjs".to_string());
    assert_eq!(package.main_entry(), "main.cjs");
    package.typ = "module".to_string();
    assert_eq!(package.main_entry(), "main.mjs");
    package.module = None;
    assert_eq!(package.main_entry(), "main.cjs");
    package.typ = "commonjs".to_string();
    package.module = Some("main.mjs".to_string());
    assert_eq!(package.main_entry(), "main.cjs");
}

#[test]
fn file_of_a_subpath() {
    let package = manifest(Some("4.17.21"));
    assert_eq!(entry_file(&location(Some("map.js")), &package), "/root/npm/lodash/4.17.21/map.js");
    assert_eq!(entry_file(&location(Some("")), &package), "/root/npm/lodash/4.17.21/index.js");
    assert_eq!(entry_file(&location(None), &package), "/root/npm/lodash/4.17.21/index.js");
}

#[test]
fn manifest_that_cannot_be_read() {
    let package = manifest(Some("4.17.21"));
    assert_eq!(confirm_manifest(&location(None), Some(package.clone())), Ok(package));
    assert_eq!(
        confirm_manifest(&location(Some("map.js")), None),
        Err(NpmPackageError::ResolutionFailed(
            "package.json could not be read: npm:lodash@4.17.21/map.js".to_string()
        ))
    );
}

#[test]
fn file_that_is_missing() {
    assert_eq!(
        confirm_file(&location(None), "/root/npm/lodash/4.17.21/index.js".to_string(), false),
        Err(NpmPackageError::ResolutionFailed(
            "main module could not be resolved: npm:lodash@4.17.21".to_string()
        ))
    );
    assert_eq!(
        confirm_file(&location(Some("map.js")), "/root/npm/lodash/4.17.21/map.js".to_string(), false),
        Err(NpmPackageError::ResolutionFailed(
            "module could not be resolved: npm:lodash@4.17.21/map.js".to_string()
        ))
    );
}

#[test]
fn specifier_below_the_packages_root() {
    assert!(in_npm_package("file:///root/npm", "file:///root/npm/lodash/4.17.21/index.js"));
    assert!(in_npm_package("file:///root/npm", "file:///root/npm"));
    assert!(!in_npm_package("file:///root/npm", "file:///root/np"));
    assert!(!in_npm_package("file:///root/npm", "file:///home/a.js"));
}

#[test]
fn candidates_for_the_nearest_manifest() {
    assert_eq!(
        package_json_candidates("/a/b/c"),
        vec![
            "/a/b/c/package.json".to_string(),
            "/a/b/package.json".to_string(),
            "/a/package.json".to_string(),
            "/package.json".to_string(),
        ]
    );
    assert_eq!(package_json_candidates("dir"), vec!["dir/package.json".to_string()]);
}

#[test]
fn nearest_usable_manifest_wins() {
    let candidates = package_json_candidates("/a/b/c");
    assert_eq!(
        resolve_closest_package_json(&candidates, &vec![false, true, true, false]),
        Some("/a/b/package.json".to_string())
    );
    assert_eq!(
        resolve_closest_package_json(&candidates, &vec![true, true, true, true]),
        Some("/a/b/c/package.json".to_string())
    );
    assert_eq!(resolve_closest_package_json(&candidates, &vec![false, false, false, false]), None);
    assert_eq!(resolve_closest_package_json(&candidates, &vec![false]), None);
    assert_eq!(resolve_closest_package_json(&vec![], &vec![true]), None);
}

#[test]
fn archive_is_unpacked_beside_the_package() {
    assert_eq!(
        extract_tarball("/root/npm/lodash/4.17.21"),
        ExtractPlan {
            staging: "/root/npm/lodash/4.17.21._temp".to_string(),
            unpacked: "/root/npm/lodash/4.17.21._temp/package".to_string(),
            destination: "/root/npm/lodash/4.17.21".to_string(),
        }
    );
}
