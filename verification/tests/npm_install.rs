use ai_deno::entries::Entry;
use ai_deno::error::NpmPackageError;
use ai_deno::npm::{NpmPackage, NpmPackageManager, PackageManifest, PackageOnDisk};
use ai_deno::npm_install::{
    install_package_with_deps, InstallFailure, InstallOutcome, InstallStep,
};
use ai_deno::npm_registry::{NpmPackageInfo, NpmVersionInfo};

fn entry(key: &str, value: &str) -> Entry {
    Entry { key: key.to_string(), value: value.to_string() }
}

fn package(name: &str, version: &str, deps: &[(&str, &str)], optional: &[(&str, &str)]) -> NpmPackageInfo {
    NpmPackageInfo {
        name: name.to_string(),
        dist_tags: Some(vec![entry("latest", version)]),
        versions: vec![NpmVersionInfo {
            version: version.to_string(),
            tarball: Some(format!("https://r/{}/-/{}-{}.tgz", name, name, version)),
            dependencies: deps.iter().map(|(k, v)| entry(k, v)).collect(),
            optional_dependencies: optional.iter().map(|(k, v)| entry(k, v)).collect(),
        }],
    }
}

fn on_disk(version: &str) -> PackageOnDisk {
    PackageOnDisk::Manifest(PackageManifest {
        version: Some(version.to_string()),
        main: None,
        module: None,
        typ: "none".to_string(),
        dependencies: vec![],
        optional_dependencies: vec![],
    })
}

fn installed(name: &str, version: &str) -> NpmPackage {
    NpmPackage {
        name: name.to_string(),
        version: version.to_string(),
        content_path: format!("/root/npm/{}/{}", name, version),
    }
}

/// A registry and a disk for one run.
struct World {
    packages: Vec<NpmPackageInfo>,
    on_disk: Vec<(String, String)>,
    broken: Vec<String>,
    fetched: Vec<String>,
    downloads: Vec<String>,
}

impl World {
    fn new(packages: Vec<NpmPackageInfo>) -> World {
        World { packages, on_disk: vec![], broken: vec![], fetched: vec![], downloads: vec![] }
    }

    fn probe(&self, dir: &str) -> PackageOnDisk {
        for (path, version) in &self.on_disk {
            if path == dir {
                return PackageOnDisk::Manifest(PackageManifest {
                    version: Some(version.clone()),
                    main: None,
                    module: None,
                    typ: "none".to_string(),
                    dependencies: vec![],
                    optional_dependencies: vec![],
                });
            }
        }
        PackageOnDisk::Missing
    }

    fn run(&mut self, manager: &mut NpmPackageManager, name: &str, version: &str) -> InstallOutcome {
        let mut step = install_package_with_deps(name, version);
        for _ in 0..1000 {
            step = match step {
                InstallStep::FetchInfo(state) => {
                    let wanted = state.package_name().to_string();
                    self.fetched.push(wanted.clone());
                    let info = match self.packages.iter().find(|p| p.name == wanted) {
                        Some(p) => Ok(p.clone()),
                        None => Err(format!("no such package: {}", wanted)),
                    };
                    state.on_info(manager, info)
                }
                InstallStep::Probe(state) => {
                    let on_disk = self.probe(state.package_dir());
                    state.on_probe(manager, on_disk)
                }
                InstallStep::Waiting(_) => panic!("nothing else is installing"),
                InstallStep::Install(state) => {
                    let url = state.tarball_url().to_string();
                    self.downloads.push(url.clone());
                    let result = if self.broken.contains(&url) {
                        Err(NpmPackageError::DownloadFailed(format!("HTTP status: 404 for {}", url)))
                    } else {
                        let dir = state.package_dir().to_string();
                        let version = dir.rsplit('/').next().unwrap().to_string();
                        self.on_disk.retain(|(path, _)| *path != dir);
                        self.on_disk.push((dir.clone(), version));
                        Ok(self.probe(dir.as_str()))
                    };
                    state.on_installed(manager, result)
                }
                InstallStep::Done(outcome) => return outcome,
            };
        }
        panic!("the installation did not end");
    }
}

#[test]
fn first_step_asks_for_the_document() {
    match install_package_with_deps("lodash", "4.17.21") {
        InstallStep::FetchInfo(state) => {
            assert_eq!(state.package_name(), "lodash");
            assert_eq!(state.core.current.version, "4.17.21");
            assert!(state.core.queue.is_empty());
            assert_eq!(state.core.visited, vec!["lodash@4.17.21".to_string()]);
            assert_eq!(state.core.root, None);
        }
        other => panic!("unexpected {:?}", other),
    }
}

#[test]
fn package_without_dependencies() {
    let mut world = World::new(vec![package("lodash", "4.17.21", &[], &[])]);
    let mut manager = NpmPackageManager::new("/root/npm".to_string());
    let outcome = world.run(&mut manager, "lodash", "4.17.21");
    assert_eq!(outcome, InstallOutcome { result: Ok(installed("lodash", "4.17.21")), failures: vec![] });
    assert_eq!(world.downloads, vec!["https://r/lodash/-/lodash-4.17.21.tgz".to_string()]);
    assert!(manager.is_marked_installed("lodash", "4.17.21"));
    assert!(manager.in_flight.is_empty());
}

#[test]
fn second_installation_downloads_nothing() {
    let mut world = World::new(vec![package("lodash", "4.17.21", &[], &[])]);
    let mut manager = NpmPackageManager::new("/root/npm".to_string());
    let first = world.run(&mut manager, "lodash", "4.17.21");
    let disk_after_first = world.on_disk.clone();
    let second = world.run(&mut manager, "lodash", "4.17.21");
    assert_eq!(first, second);
    assert_eq!(world.downloads.len(), 1);
    assert_eq!(world.on_disk, disk_after_first);
}

#[test]
fn cold_manager_finds_the_package_on_disk() {
    let mut world = World::new(vec![package("lodash", "4.17.21", &[], &[])]);
    let mut manager = NpmPackageManager::new("/root/npm".to_string());
    world.run(&mut manager, "lodash", "4.17.21");
    let mut cold = NpmPackageManager::new("/root/npm".to_string());
    let outcome = world.run(&mut cold, "lodash", "4.17.21");
    assert_eq!(outcome.result, Ok(installed("lodash", "4.17.21")));
    assert_eq!(world.downloads.len(), 1);
    assert!(cold.is_marked_installed("lodash", "4.17.21"));
}

#[test]
fn other_version_on_disk_is_installed_anew() {
    let mut world = World::new(vec![package("lodash", "4.17.21", &[], &[])]);
    world.on_disk.push(("/root/npm/lodash/4.17.21".to_string(), "4.17.20".to_string()));
    let mut manager = NpmPackageManager::new("/root/npm".to_string());
    let outcome = world.run(&mut manager, "lodash", "4.17.21");
    assert_eq!(outcome.result, Ok(installed("lodash", "4.17.21")));
    assert_eq!(world.downloads.len(), 1);
}

#[test]
fn dist_tag_is_resolved() {
    let mut world = World::new(vec![package("lodash", "4.17.21", &[], &[])]);
    let mut manager = NpmPackageManager::new("/root/npm".to_string());
    let outcome = world.run(&mut manager, "lodash", "latest");
    assert_eq!(outcome.result, Ok(installed("lodash", "4.17.21")));
}

#[test]
fn dependencies_are_installed_breadth_first() {
    let mut world = World::new(vec![
        package("app", "1.0.0", &[("a", "1.0.0"), ("b", "1.0.0")], &[("c", "1.0.0")]),
        package("a", "1.0.0", &[("d", "1.0.0")], &[]),
        package("b", "1.0.0", &[("d", "1.0.0"), ("app", "1.0.0")], &[]),
        package("c", "1.0.0", &[], &[]),
        package("d", "1.0.0", &[], &[]),
    ]);
    let mut manager = NpmPackageManager::new("/root/npm".to_string());
    let outcome = world.run(&mut manager, "app", "1.0.0");
    assert_eq!(outcome, InstallOutcome { result: Ok(installed("app", "1.0.0")), failures: vec![] });
    assert_eq!(world.fetched, vec!["app", "a", "b", "c", "d"]);
    assert_eq!(world.downloads.len(), 5);
}

#[test]
fn failed_dependency_does_not_fail_the_package() {
    let mut world = World::new(vec![
        package("app", "1.0.0", &[("gone", "1.0.0"), ("a", "1.0.0"), ("b", "2.0.0")], &[]),
        package("a", "1.0.0", &[], &[]),
        package("b", "1.0.0", &[], &[]),
    ]);
    world.broken.push("https://r/a/-/a-1.0.0.tgz".to_string());
    let mut manager = NpmPackageManager::new("/root/npm".to_string());
    let outcome = world.run(&mut manager, "app", "1.0.0");
    assert_eq!(outcome.result, Ok(installed("app", "1.0.0")));
    assert_eq!(
        outcome.failures,
        vec![
            InstallFailure {
                name: "gone".to_string(),
                version: "1.0.0".to_string(),
                error: NpmPackageError::ResolutionFailed("no such package: gone".to_string()),
            },
            InstallFailure {
                name: "a".to_string(),
                version: "1.0.0".to_string(),
                error: NpmPackageError::DownloadFailed(
                    "HTTP status: 404 for https://r/a/-/a-1.0.0.tgz".to_string()
                ),
            },
            InstallFailure {
                name: "b".to_string(),
                version: "2.0.0".to_string(),
                error: NpmPackageError::ResolutionFailed(
                    "tarball URLが見つかりません: b@2.0.0".to_string()
                ),
            },
        ]
    );
    assert!(!manager.is_marked_installed("a", "1.0.0"));
    assert!(manager.in_flight.is_empty());
}

#[test]
fn failure_of_the_package_itself_is_fatal() {
    let mut world = World::new(vec![package("app", "1.0.0", &[("a", "1.0.0")], &[])]);
    world.broken.push("https://r/app/-/app-1.0.0.tgz".to_string());
    let mut manager = NpmPackageManager::new("/root/npm".to_string());
    let outcome = world.run(&mut manager, "app", "1.0.0");
    assert_eq!(
        outcome,
        InstallOutcome {
            result: Err(NpmPackageError::DownloadFailed(
                "HTTP status: 404 for https://r/app/-/app-1.0.0.tgz".to_string()
            )),
            failures: vec![],
        }
    );
    assert_eq!(world.fetched, vec!["app"]);
    let unknown = World::new(vec![]).run(&mut manager, "nothing", "1.0.0");
    assert_eq!(
        unknown.result,
        Err(NpmPackageError::ResolutionFailed("no such package: nothing".to_string()))
    );
}

#[test]
fn package_that_another_caller_installs_is_waited_for() {
    let mut manager = NpmPackageManager::new("/root/npm".to_string());
    let info = package("lodash", "4.17.21", &[], &[]);
    let first = match install_package_with_deps("lodash", "4.17.21") {
        InstallStep::FetchInfo(state) => state.on_info(&manager, Ok(info.clone())),
        other => panic!("unexpected {:?}", other),
    };
    let second = match install_package_with_deps("lodash", "latest") {
        InstallStep::FetchInfo(state) => state.on_info(&manager, Ok(info.clone())),
        other => panic!("unexpected {:?}", other),
    };
    let first = match first {
        InstallStep::Probe(state) => state.on_probe(&mut manager, PackageOnDisk::Missing),
        other => panic!("unexpected {:?}", other),
    };
    let second = match second {
        InstallStep::Probe(state) => state.on_probe(&mut manager, PackageOnDisk::Missing),
        other => panic!("unexpected {:?}", other),
    };
    assert!(matches!(first, InstallStep::Install(_)));
    let waiting = match second {
        InstallStep::Waiting(state) => state,
        other => panic!("unexpected {:?}", other),
    };
    match first {
        InstallStep::Install(state) => {
            let done = state.on_installed(&mut manager, Ok(on_disk("4.17.21")));
            assert!(matches!(done, InstallStep::Done(_)));
        }
        other => panic!("unexpected {:?}", other),
    }
    match waiting.on_probe(&mut manager, on_disk("4.17.21")) {
        InstallStep::Done(outcome) => {
            assert_eq!(outcome.result, Ok(installed("lodash", "4.17.21")))
        }
        other => panic!("unexpected {:?}", other),
    }
}

#[test]
fn empty_version_stands_for_latest() {
    let mut world = World::new(vec![package("lodash", "4.17.21", &[], &[])]);
    let mut manager = NpmPackageManager::new("/root/npm".to_string());
    let outcome = world.run(&mut manager, "lodash", "");
    assert_eq!(outcome.result, Ok(installed("lodash", "4.17.21")));
}

#[test]
fn range_is_taken_as_it_is_written() {
    let mut world = World::new(vec![package("lodash", "4.17.21", &[], &[])]);
    let mut manager = NpmPackageManager::new("/root/npm".to_string());
    let outcome = world.run(&mut manager, "lodash", "^4.0.0");
    assert_eq!(
        outcome.result,
        Err(NpmPackageError::ResolutionFailed("tarball URLが見つかりません: lodash@^4.0.0".to_string()))
    );
    assert!(world.downloads.is_empty());
}

#[test]
fn remembered_package_that_left_the_disk_is_downloaded_again() {
    let mut world = World::new(vec![package("lodash", "4.17.21", &[], &[])]);
    let mut manager = NpmPackageManager::new("/root/npm".to_string());
    world.run(&mut manager, "lodash", "4.17.21");
    assert!(manager.is_marked_installed("lodash", "4.17.21"));
    world.on_disk.clear();
    let outcome = world.run(&mut manager, "lodash", "4.17.21");
    assert_eq!(outcome.result, Ok(installed("lodash", "4.17.21")));
    assert_eq!(world.downloads.len(), 2);
    assert_eq!(world.on_disk, vec![("/root/npm/lodash/4.17.21".to_string(), "4.17.21".to_string())]);
}

#[test]
fn installation_that_leaves_no_manifest_has_failed() {
    let step = |after: PackageOnDisk| {
        let mut manager = NpmPackageManager::new("/root/npm".to_string());
        let info = package("lodash", "4.17.21", &[], &[]);
        let probe = match install_package_with_deps("lodash", "4.17.21") {
            InstallStep::FetchInfo(state) => state.on_info(&manager, Ok(info)),
            other => panic!("unexpected {:?}", other),
        };
        let install = match probe {
            InstallStep::Probe(state) => state.on_probe(&mut manager, PackageOnDisk::Missing),
            other => panic!("unexpected {:?}", other),
        };
        let done = match install {
            InstallStep::Install(state) => state.on_installed(&mut manager, Ok(after)),
            other => panic!("unexpected {:?}", other),
        };
        (done, manager)
    };
    let not_unpacked = InstallStep::Done(InstallOutcome {
        result: Err(NpmPackageError::ExtractionFailed(
            "package was not unpacked: lodash@4.17.21".to_string(),
        )),
        failures: vec![],
    });
    let (done, manager) = step(PackageOnDisk::Missing);
    assert_eq!(done, not_unpacked);
    assert!(!manager.is_marked_installed("lodash", "4.17.21"));
    assert!(manager.in_flight.is_empty());
    assert_eq!(step(PackageOnDisk::NoManifest).0, not_unpacked);
    assert_eq!(step(on_disk("4.17.20")).0, not_unpacked);
    let (done, manager) = step(on_disk("4.17.21"));
    assert_eq!(
        done,
        InstallStep::Done(InstallOutcome {
            result: Ok(installed("lodash", "4.17.21")),
            failures: vec![],
        })
    );
    assert!(manager.is_package_installed("lodash", "4.17.21", &on_disk("4.17.21")));
}

#[test]
fn installed_package_is_found_where_it_was_installed() {
    let mut world = World::new(vec![package("P", "1.0.0", &[("a", "1.0.0")], &[]), package("a", "1.0.0", &[], &[])]);
    let mut manager = NpmPackageManager::new("/root/npm".to_string());
    let outcome = world.run(&mut manager, "P", "1.0.0");
    let installed = outcome.result.unwrap();
    assert_eq!(installed.name, "P");
    assert_eq!(installed.version, "1.0.0");
    let found = manager.resolve_specifier_to_package_dir("npm:P@1.0.0", None, None).unwrap();
    assert_eq!(found.package_dir, installed.content_path);
    assert_eq!(found.version, installed.version);
    let on_disk = world.probe(found.package_dir.as_str());
    assert!(manager.is_package_installed("P", "1.0.0", &on_disk));
    let manifest = match on_disk {
        PackageOnDisk::Manifest(manifest) => manifest,
        other => panic!("unexpected {:?}", other),
    };
    assert_eq!(
        manager.resolve_specifier_to_file_path(&found, &manifest),
        "/root/npm/P/1.0.0/index.js"
    );
}
