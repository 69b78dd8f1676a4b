//! The npm package manager: which packages are installed, where a package
//! lives below the cache root, and which file a specifier stands for.
//!
//! A package is installed below `<root>/<name>/<version>/` with its
//! `package.json` at the top. The manager performs no I/O: what is on disk
//! is handed to it as a value.

use vstd::prelude::*;
use vstd::string::*;

use crate::entries::{entries_view, lookup, value_of, Entry, EntryView};
use crate::error::NpmPackageError;
use crate::npm_registry::{latest_tag, NpmPackageInfo, NpmPackageInfoView};
use crate::paths::{join_path, joined};
use crate::semver::{normal_version, normalize_version};
use crate::specifier::{
    compose, invalid_npm_message, is_package_name, is_version_text, lemma_split_complete, npm_prefix, parse_npm_spec, parse_npm_specifier, SpecifierParts,
};
use crate::text::{
    chars_of, has_prefix, join2, join3, opt_view, same_text, slice_text, starts_with, strings_view,
};

verus! {

/// An installed package: its name, its exact version and the directory that
/// holds its files.
#[derive(Debug, Clone, PartialEq, Eq)]
pub struct NpmPackage {
    pub name: String,
    pub version: String,
    pub content_path: String,
}

pub struct NpmPackageView {
    pub name: Seq<char>,
    pub version: Seq<char>,
    pub content_path: Seq<char>,
}

impl View for NpmPackage {
    type V = NpmPackageView;

    open spec fn view(&self) -> NpmPackageView {
        NpmPackageView {
            name: self.name@,
            version: self.version@,
            content_path: self.content_path@,
        }
    }
}

/// What the manager reads of a `package.json`.
#[derive(Debug, Clone, PartialEq, Eq)]
pub struct PackageManifest {
    pub version: Option<String>,
    pub main: Option<String>,
    pub module: Option<String>,
    /// The `type` field: `module`, `commonjs`, or `none` where it is absent.
    pub typ: String,
    pub dependencies: Vec<Entry>,
    pub optional_dependencies: Vec<Entry>,
}

pub struct ManifestView {
    pub version: Option<Seq<char>>,
    pub main: Option<Seq<char>>,
    pub module: Option<Seq<char>>,
    pub typ: Seq<char>,
    pub dependencies: Seq<EntryView>,
    pub optional_dependencies: Seq<EntryView>,
}

impl View for PackageManifest {
    type V = ManifestView;

    open spec fn view(&self) -> ManifestView {
        ManifestView {
            version: opt_view(self.version),
            main: opt_view(self.main),
            module: opt_view(self.module),
            typ: self.typ@,
            dependencies: entries_view(self.dependencies@),
            optional_dependencies: entries_view(self.optional_dependencies@),
        }
    }
}

/// The view of an optional manifest.
pub open spec fn opt_manifest_view(o: Option<&PackageManifest>) -> Option<ManifestView> {
    match o {
        Some(m) => Some(m@),
        None => None,
    }
}

/// What is on disk where a package would be installed.
#[derive(Debug, Clone, PartialEq, Eq)]
pub enum PackageOnDisk {
    /// There is no such directory.
    Missing,
    /// The directory is there, without a `package.json` that can be read.
    NoManifest,
    /// The directory is there with this `package.json`.
    Manifest(PackageManifest),
}

/// The directory holds a manifest whose version is exactly `version`.
pub open spec fn installed_on_disk(on_disk: PackageOnDisk, version: Seq<char>) -> bool {
    on_disk matches PackageOnDisk::Manifest(m) && m@.version == Some(version)
}

/// The key under which an installed package is remembered: `name@version`.
pub open spec fn key_of(name: Seq<char>, version: Seq<char>) -> Seq<char> {
    name + seq!['@'] + version
}

/// The texts of a list of keys, as a set.
pub open spec fn key_set(keys: Seq<String>) -> Set<Seq<char>> {
    Set::new(|k: Seq<char>| exists|i: int| 0 <= i < keys.len() && (#[trigger] keys[i])@ == k)
}

/// The file that a package is entered by: `module`, else `main`, for a
/// package of type `module`; `main` for any other; `index.js` where that is
/// missing or empty.
pub open spec fn main_entry(m: ManifestView) -> Seq<char> {
    let declared = if m.typ == "module"@ && m.module is Some {
        m.module
    } else {
        m.main
    };
    match declared {
        Some(e) => if e.len() > 0 {
            e
        } else {
            "index.js"@
        },
        None => "index.js"@,
    }
}

/// The version that the manifest of the importing package asks of `name`:
/// the entry of `dependencies`, else that of `optionalDependencies`, where
/// it is an exact version.
pub open spec fn version_from_manifest(m: ManifestView, name: Seq<char>) -> Option<Seq<char>> {
    let entry = match value_of(m.dependencies, name) {
        Some(v) => Some(v),
        None => value_of(m.optional_dependencies, name),
    };
    match entry {
        Some(v) => normal_version(v),
        None => None,
    }
}

/// The version that the registry's dist-tag `latest` points to.
pub open spec fn version_from_tags(info: NpmPackageInfoView) -> Option<Seq<char>> {
    match info.dist_tags {
        Some(tags) => value_of(tags, latest_tag()),
        None => None,
    }
}

/// The version that a specifier resolves to: the one it names; else the one
/// that the importing package asks for; else the registry's `latest`.
pub open spec fn resolved_version(
    explicit: Option<Seq<char>>,
    referrer: Option<ManifestView>,
    cached: Option<NpmPackageInfoView>,
    name: Seq<char>,
) -> Option<Seq<char>> {
    match explicit {
        Some(v) => Some(v),
        None => {
            let asked = match referrer {
                Some(m) => version_from_manifest(m, name),
                None => None,
            };
            match asked {
                Some(v) => Some(v),
                None => match cached {
                    Some(info) => version_from_tags(info),
                    None => None,
                },
            }
        },
    }
}

/// Where a specifier leads: the package, its exact version, the subpath
/// asked for and the directory of the package.
#[derive(Debug, Clone, PartialEq, Eq)]
pub struct PackageLocation {
    pub name: String,
    pub version: String,
    pub subpath: Option<String>,
    pub package_dir: String,
}

pub struct PackageLocationView {
    pub name: Seq<char>,
    pub version: Seq<char>,
    pub subpath: Option<Seq<char>>,
    pub package_dir: Seq<char>,
}

impl View for PackageLocation {
    type V = PackageLocationView;

    open spec fn view(&self) -> PackageLocationView {
        PackageLocationView {
            name: self.name@,
            version: self.version@,
            subpath: opt_view(self.subpath),
            package_dir: self.package_dir@,
        }
    }
}

/// Where a package lives below `root`: `<root>/<name>/<version>`.
pub open spec fn package_dir_of(root: Seq<char>, name: Seq<char>, version: Seq<char>) -> Seq<
    char,
> {
    joined(joined(root, name), version)
}

/// The outcome of locating a specifier, as a value of the model.
pub enum Located {
    /// The specifier is no npm specifier.
    Invalid,
    /// No version could be found for the package.
    NoVersion(Seq<char>),
    /// The version found is no exact version.
    BadVersion(Seq<char>, Seq<char>),
    At(PackageLocationView),
}

/// Where `specifier` leads, given the manifest nearest to the importing
/// file and the registry document kept in the cache.
pub open spec fn located(
    root: Seq<char>,
    specifier: Seq<char>,
    referrer: Option<ManifestView>,
    cached: Option<NpmPackageInfoView>,
) -> Located {
    match parse_npm_spec(specifier) {
        None => Located::Invalid,
        Some(p) => match resolved_version(p.version, referrer, cached, p.name) {
            None => Located::NoVersion(p.name),
            Some(v) => match normal_version(v) {
                None => Located::BadVersion(p.name, v),
                Some(exact) => Located::At(
                    PackageLocationView {
                        name: p.name,
                        version: exact,
                        subpath: p.subpath,
                        package_dir: package_dir_of(root, p.name, exact),
                    },
                ),
            },
        },
    }
}

/// The file that a location stands for: the subpath inside the package
/// directory, or the main entry where no subpath is asked for.
pub open spec fn entry_path(location: PackageLocationView, manifest: ManifestView) -> Seq<char> {
    match location.subpath {
        Some(s) => if s.len() > 0 {
            joined(location.package_dir, s)
        } else {
            joined(location.package_dir, main_entry(manifest))
        },
        None => joined(location.package_dir, main_entry(manifest)),
    }
}

/// The specifier under which a package version is loaded: `npm:`, the
/// name, `@`, the version, and the subpath behind `/` where there is one.
pub open spec fn versioned_specifier(
    name: Seq<char>,
    version: Seq<char>,
    subpath: Option<Seq<char>>,
) -> Seq<char> {
    npm_prefix() + name + seq!['@'] + version + (match subpath {
        Some(s) => if s.len() > 0 {
            seq!['/'] + s
        } else {
            Seq::empty()
        },
        None => Seq::empty(),
    })
}

/// The specifier that leads to a location, with the version written out.
pub open spec fn location_specifier(location: PackageLocationView) -> Seq<char> {
    versioned_specifier(location.name, location.version, location.subpath)
}

/// The message for a file that is not there: it names the specifier that
/// leads to the file.
pub open spec fn missing_file_message(location: PackageLocationView) -> Seq<char> {
    match location.subpath {
        Some(s) => if s.len() > 0 {
            "module could not be resolved: "@ + location_specifier(location)
        } else {
            "main module could not be resolved: "@ + location_specifier(location)
        },
        None => "main module could not be resolved: "@ + location_specifier(location),
    }
}

/// Writes the specifier of a package version.
pub fn versioned(name: &str, version: &str, subpath: &Option<String>) -> (r: String)
    ensures
        r@ == versioned_specifier(name@, version@, opt_view(*subpath)),
{
    proof {
        reveal_strlit("npm:");
        assert("npm:"@ =~= npm_prefix());
        reveal_strlit("@");
        assert("@"@ =~= seq!['@']);
        reveal_strlit("/");
        assert("/"@ =~= seq!['/']);
    }
    let head: String = join3("npm:", name, "@");
    let base: String = join2(head.as_str(), version);
    match subpath {
        Some(s) => {
            if s.as_str().unicode_len() > 0 {
                let r = join3(base.as_str(), "/", s.as_str());
                assert(r@ =~= versioned_specifier(name@, version@, opt_view(*subpath)));
                r
            } else {
                assert(base@ =~= versioned_specifier(name@, version@, opt_view(*subpath)));
                base
            }
        },
        None => {
            assert(base@ =~= versioned_specifier(name@, version@, opt_view(*subpath)));
            base
        },
    }
}


impl PackageManifest {
    /// The file that the package is entered by.
    pub fn main_entry(&self) -> (r: String)
        ensures
            r@ == main_entry(self@),
    {
        let declared: &Option<String> = if same_text(self.typ.as_str(), "module")
            && self.module.is_some() {
            &self.module
        } else {
            &self.main
        };
        match declared {
            Some(e) => {
                if e.as_str().unicode_len() > 0 {
                    e.clone()
                } else {
                    "index.js".to_owned()
                }
            },
            None => "index.js".to_owned(),
        }
    }

    /// The exact version that this manifest asks of the package `name`.
    pub fn version_of_dependency(&self, name: &str) -> (r: Option<String>)
        ensures
            opt_view(r) == version_from_manifest(self@, name@),
    {
        let entry: Option<String> = match lookup(&self.dependencies, name) {
            Some(v) => Some(v),
            None => lookup(&self.optional_dependencies, name),
        };
        match entry {
            Some(v) => normalize_version(v.as_str()),
            None => None,
        }
    }
}

/// The file that a location stands for.
pub fn entry_file(location: &PackageLocation, manifest: &PackageManifest) -> (r: String)
    ensures
        r@ == entry_path(location@, manifest@),
{
    let main_wanted: bool = match &location.subpath {
        Some(s) => s.as_str().unicode_len() == 0,
        None => true,
    };
    if main_wanted {
        let main: String = manifest.main_entry();
        join_path(location.package_dir.as_str(), main.as_str())
    } else {
        match &location.subpath {
            Some(s) => join_path(location.package_dir.as_str(), s.as_str()),
            None => join_path(location.package_dir.as_str(), ""),
        }
    }
}

/// Accepts the file of a location if it is there, and names the specifier
/// that could not be resolved if it is not.
pub fn confirm_file(location: &PackageLocation, path: String, exists: bool) -> (r: Result<
    String,
    NpmPackageError,
>)
    ensures
        exists ==> (r matches Ok(p) && p@ == path@),
        !exists ==> (r matches Err(NpmPackageError::ResolutionFailed(m)) && m@
            == missing_file_message(location@)),
{
    if exists {
        return Ok(path);
    }
    let main_wanted: bool = match &location.subpath {
        Some(s) => s.as_str().unicode_len() == 0,
        None => true,
    };
    let named: String = location.specifier();
    if main_wanted {
        Err(
            NpmPackageError::ResolutionFailed(
                join2("main module could not be resolved: ", named.as_str()),
            ),
        )
    } else {
        Err(
            NpmPackageError::ResolutionFailed(
                join2("module could not be resolved: ", named.as_str()),
            ),
        )
    }
}

/// The message for a specifier whose package could not be found, in any
/// version or in the version that was resolved: it names the specifier.
pub open spec fn unresolved_package_message(specifier: Seq<char>) -> Seq<char> {
    "Could not resolve npm package: "@ + specifier
}

/// Accepts the directory of a location if it is there, and names the
/// specifier that could not be resolved if it is not.
pub fn confirm_package_dir(location: &PackageLocation, exists: bool) -> (r: Result<
    String,
    NpmPackageError,
>)
    ensures
        exists ==> (r matches Ok(p) && p@ == location.package_dir@),
        !exists ==> (r matches Err(NpmPackageError::ResolutionFailed(m)) && m@
            == unresolved_package_message(location_specifier(location@))),
{
    if exists {
        Ok(location.package_dir.clone())
    } else {
        let named: String = location.specifier();
        Err(
            NpmPackageError::ResolutionFailed(
                join2("Could not resolve npm package: ", named.as_str()),
            ),
        )
    }
}

/// The message for a package whose `package.json` cannot be read: it
/// names the specifier that leads to the package.
pub open spec fn no_manifest_message(location: PackageLocationView) -> Seq<char> {
    "package.json could not be read: "@ + location_specifier(location)
}

/// Accepts the manifest of the package of a location if it could be read,
/// and names the specifier that could not be resolved if it could not.
pub fn confirm_manifest(location: &PackageLocation, manifest: Option<PackageManifest>) -> (r:
    Result<PackageManifest, NpmPackageError>)
    ensures
        match manifest {
            Some(m) => r == Ok::<PackageManifest, NpmPackageError>(m),
            None => r matches Err(NpmPackageError::ResolutionFailed(m)) && m@
                == no_manifest_message(location@),
        },
{
    match manifest {
        Some(m) => Ok(m),
        None => {
            let named: String = location.specifier();
            Err(
                NpmPackageError::ResolutionFailed(
                    join2("package.json could not be read: ", named.as_str()),
                ),
            )
        },
    }
}

impl PackageLocation {
    /// The specifier that leads to the location, with the version written
    /// out.
    pub fn specifier(&self) -> (r: String)
        ensures
            r@ == location_specifier(self@),
    {
        versioned(self.name.as_str(), self.version.as_str(), &self.subpath)
    }
}

/// Tells whether `specifier` lies below the URL of the packages root.
pub fn in_npm_package(root_url: &str, specifier: &str) -> (r: bool)
    ensures
        r == has_prefix(specifier@, root_url@),
{
    let s: Vec<char> = chars_of(specifier);
    let p: Vec<char> = chars_of(root_url);
    starts_with(&s, &p)
}

/// The manager of the npm package cache below one root directory.
#[derive(Debug, Clone, PartialEq, Eq)]
pub struct NpmPackageManager {
    pub packages_root_dir: String,
    pub cache_dir: String,
    /// Keys of the packages that were seen installed. The list is a note
    /// and decides nothing: whether a package is installed is read off
    /// the disk.
    pub installed_packages: Vec<String>,
    /// Keys of the packages whose installation is under way.
    pub in_flight: Vec<String>,
}

/// Whether a package may be installed now.
#[derive(Debug, Clone, Copy, PartialEq, Eq, Structural)]
pub enum InstallTicket {
    /// The package is installed: there is nothing to do.
    AlreadyInstalled,
    /// Another caller is installing the package: wait for it.
    Wait,
    /// The caller installs the package and reports the end with
    /// `finish_install`.
    Start,
}

impl NpmPackageManager {
    /// The keys of the packages that were seen installed.
    pub open spec fn marked(&self) -> Set<Seq<char>> {
        key_set(self.installed_packages@)
    }

    /// The keys of the packages whose installation is under way.
    pub open spec fn under_way(&self) -> Set<Seq<char>> {
        key_set(self.in_flight@)
    }

    /// A manager for the cache below `package_root_dir`: nothing is known
    /// to be installed and nothing is under way.
    pub fn new(package_root_dir: String) -> (r: NpmPackageManager)
        ensures
            r.packages_root_dir@ == package_root_dir@,
            r.cache_dir@ == package_root_dir@,
            r.marked() =~= Set::empty(),
            r.under_way() =~= Set::empty(),
    {
        let cache_dir: String = package_root_dir.clone();
        NpmPackageManager {
            packages_root_dir: package_root_dir,
            cache_dir,
            installed_packages: Vec::new(),
            in_flight: Vec::new(),
        }
    }

    /// The directory of a package below the root, or of all versions of a
    /// package where no version is given.
    pub fn compute_package_dir(&self, name: &str, version: Option<&str>) -> (r: String)
        ensures
            r@ == (match version {
                Some(v) => package_dir_of(self.packages_root_dir@, name@, v@),
                None => joined(self.packages_root_dir@, name@),
            }),
    {
        let base: String = join_path(self.packages_root_dir.as_str(), name);
        match version {
            Some(v) => join_path(base.as_str(), v),
            None => base,
        }
    }

    /// Tells whether the package was seen installed before. This is a note
    /// of what was seen, and decides nothing: whether a package is
    /// installed is read off the disk every time.
    pub fn is_marked_installed(&self, name: &str, version: &str) -> (r: bool)
        ensures
            r == self.marked().contains(key_of(name@, version@)),
    {
        let key: String = install_key(name, version);
        contains_key(&self.installed_packages, key.as_str())
    }

    /// Tells whether the package is installed: its directory holds a
    /// manifest with exactly this version. What the manager remembers does
    /// not count.
    pub fn is_package_installed(&self, name: &str, version: &str, on_disk: &PackageOnDisk) -> (r:
        bool)
        ensures
            r == installed_on_disk(*on_disk, version@),
    {
        match on_disk {
            PackageOnDisk::Manifest(m) => match &m.version {
                Some(v) => same_text(v.as_str(), version),
                None => false,
            },
            _ => false,
        }
    }

    /// Notes that the package was seen installed.
    pub fn mark_installed(&mut self, name: &str, version: &str)
        ensures
            final(self).marked() =~= old(self).marked().insert(key_of(name@, version@)),
            final(self).under_way() == old(self).under_way(),
            final(self).packages_root_dir == old(self).packages_root_dir,
            final(self).cache_dir == old(self).cache_dir,
    {
        let key: String = install_key(name, version);
        if !contains_key(&self.installed_packages, key.as_str()) {
            let ghost before = self.installed_packages@;
            self.installed_packages.push(key);
            proof {
                lemma_key_set_push(before, self.installed_packages@[before.len() as int]);
                assert(self.installed_packages@ =~= before.push(
                    self.installed_packages@[before.len() as int],
                ));
            }
        }
    }

    /// Asks to install a package. At most one caller is told to start
    /// until the end of that installation is reported.
    pub fn begin_install(&mut self, name: &str, version: &str, on_disk: &PackageOnDisk) -> (r:
        InstallTicket)
        ensures
            r == ticket_for(old(self).under_way(), name@, version@, *on_disk),
            final(self).marked() =~= (if r == InstallTicket::AlreadyInstalled {
                old(self).marked().insert(key_of(name@, version@))
            } else {
                old(self).marked()
            }),
            final(self).under_way() =~= (if r == InstallTicket::Start {
                old(self).under_way().insert(key_of(name@, version@))
            } else {
                old(self).under_way()
            }),
            final(self).packages_root_dir == old(self).packages_root_dir,
            final(self).cache_dir == old(self).cache_dir,
    {
        if self.is_package_installed(name, version, on_disk) {
            self.mark_installed(name, version);
            return InstallTicket::AlreadyInstalled;
        }
        let key: String = install_key(name, version);
        if contains_key(&self.in_flight, key.as_str()) {
            return InstallTicket::Wait;
        }
        let ghost before = self.in_flight@;
        self.in_flight.push(key);
        proof {
            lemma_key_set_push(before, self.in_flight@[before.len() as int]);
            assert(self.in_flight@ =~= before.push(self.in_flight@[before.len() as int]));
        }
        InstallTicket::Start
    }

    /// Reports the end of an installation that `begin_install` told the
    /// caller to start. The package is noted as seen installed if the
    /// installation succeeded.
    pub fn finish_install(&mut self, name: &str, version: &str, succeeded: bool)
        ensures
            final(self).under_way() =~= old(self).under_way().remove(key_of(name@, version@)),
            final(self).marked() =~= (if succeeded {
                old(self).marked().insert(key_of(name@, version@))
            } else {
                old(self).marked()
            }),
            final(self).packages_root_dir == old(self).packages_root_dir,
            final(self).cache_dir == old(self).cache_dir,
    {
        let key: String = install_key(name, version);
        remove_key(&mut self.in_flight, key.as_str());
        if succeeded {
            self.mark_installed(name, version);
        }
    }

    /// Finds the package, the exact version and the directory that
    /// `specifier` leads to. A version named by the specifier wins; else
    /// the one that `referrer`, the manifest nearest to the importing file,
    /// asks for; else the dist-tag `latest` of `cached`, the registry
    /// document kept in the cache. Where no version can be found, or the
    /// one found is no exact version, the error names the specifier.
    pub fn resolve_specifier_to_package_dir(
        &self,
        specifier: &str,
        referrer: Option<&PackageManifest>,
        cached: Option<&NpmPackageInfo>,
    ) -> (r: Result<PackageLocation, NpmPackageError>)
        ensures
            match located(
                self.packages_root_dir@,
                specifier@,
                opt_manifest_view(referrer),
                match cached {
                    Some(info) => Some(info@),
                    None => None,
                },
            ) {
                Located::Invalid => r matches Err(NpmPackageError::InvalidPackageSpec(m)) && m@
                    == invalid_npm_message(specifier@),
                Located::NoVersion(_) => r matches Err(NpmPackageError::ResolutionFailed(m))
                    && m@ == unresolved_package_message(specifier@),
                Located::BadVersion(_, _) => r matches Err(NpmPackageError::ResolutionFailed(m))
                    && m@ == unresolved_package_message(specifier@),
                Located::At(at) => r matches Ok(l) && l@ == at,
            },
    {
        let (name, explicit, subpath) = match parse_npm_specifier(specifier) {
            Ok(t) => t,
            Err(e) => {
                return Err(e);
            },
        };
        let mut version: Option<String> = explicit;
        if version.is_none() {
            version =
            match referrer {
                Some(m) => m.version_of_dependency(name.as_str()),
                None => None,
            };
        }
        if version.is_none() {
            version =
            match cached {
                Some(info) => match &info.dist_tags {
                    Some(tags) => {
                        proof {
                            reveal_strlit("latest");
                            assert("latest"@ =~= latest_tag());
                        }
                        lookup(tags, "latest")
                    },
                    None => None,
                },
                None => None,
            };
        }
        let version: String = match version {
            Some(v) => v,
            None => {
                return Err(
                    NpmPackageError::ResolutionFailed(
                        join2("Could not resolve npm package: ", specifier),
                    ),
                );
            },
        };
        let exact: String = match normalize_version(version.as_str()) {
            Some(v) => v,
            None => {
                return Err(
                    NpmPackageError::ResolutionFailed(
                        join2("Could not resolve npm package: ", specifier),
                    ),
                );
            },
        };
        let package_dir: String = self.compute_package_dir(name.as_str(), Some(exact.as_str()));
        Ok(PackageLocation { name, version: exact, subpath, package_dir })
    }

    /// The file that `specifier` stands for, given the manifest of the
    /// package it leads to: the subpath inside the package directory, or
    /// the main entry of the package.
    pub fn resolve_specifier_to_file_path(
        &self,
        location: &PackageLocation,
        manifest: &PackageManifest,
    ) -> (r: String)
        ensures
            r@ == entry_path(location@, manifest@),
    {
        entry_file(location, manifest)
    }
}

/// What `begin_install` answers.
pub open spec fn ticket_for(
    under_way: Set<Seq<char>>,
    name: Seq<char>,
    version: Seq<char>,
    on_disk: PackageOnDisk,
) -> InstallTicket {
    if installed_on_disk(on_disk, version) {
        InstallTicket::AlreadyInstalled
    } else if under_way.contains(key_of(name, version)) {
        InstallTicket::Wait
    } else {
        InstallTicket::Start
    }
}

/// The key `name@version`.
pub fn install_key(name: &str, version: &str) -> (r: String)
    ensures
        r@ == key_of(name@, version@),
{
    proof {
        reveal_strlit("@");
        assert("@"@ =~= seq!['@']);
    }
    join3(name, "@", version)
}

/// Tells whether the list holds the key.
pub fn contains_key(keys: &Vec<String>, key: &str) -> (r: bool)
    ensures
        r == key_set(keys@).contains(key@),
{
    let mut i: usize = 0;
    while i < keys.len()
        invariant
            i <= keys.len(),
            forall|k: int| 0 <= k < i ==> (#[trigger] keys@[k])@ != key@,
        decreases keys.len() - i,
    {
        if same_text(keys[i].as_str(), key) {
            return true;
        }
        i = i + 1;
    }
    false
}

/// Takes every occurrence of the key out of the list.
pub fn remove_key(keys: &mut Vec<String>, key: &str)
    ensures
        key_set(final(keys)@) =~= key_set(old(keys)@).remove(key@),
{
    let mut kept: Vec<String> = Vec::new();
    let mut i: usize = 0;
    while i < keys.len()
        invariant
            i <= keys.len(),
            keys@ == old(keys)@,
            forall|k: Seq<char>|
                key_set(kept@).contains(k) <==> (k != key@ && exists|j: int|
                    0 <= j < i && (#[trigger] keys@[j])@ == k),
        decreases keys.len() - i,
    {
        let ghost before = kept@;
        if !same_text(keys[i].as_str(), key) {
            kept.push(keys[i].clone());
            proof {
                lemma_key_set_push(before, kept@[before.len() as int]);
                assert(kept@ =~= before.push(kept@[before.len() as int]));
            }
        }
        i = i + 1;
    }
    *keys = kept;
}

/// The keys of a list with one more key at its end.
pub proof fn lemma_key_set_push(keys: Seq<String>, added: String)
    ensures
        key_set(keys.push(added)) =~= key_set(keys).insert(added@),
{
    let more = keys.push(added);
    assert forall|k: Seq<char>| key_set(more).contains(k) <==> key_set(keys).insert(
        added@,
    ).contains(k) by {
        if key_set(more).contains(k) {
            let i = choose|i: int| 0 <= i < more.len() && (#[trigger] more[i])@ == k;
            if i < keys.len() {
                assert(keys[i] == more[i]);
            }
        }
        if key_set(keys).contains(k) {
            let i = choose|i: int| 0 <= i < keys.len() && (#[trigger] keys[i])@ == k;
            assert(more[i] == keys[i]);
        }
        if k == added@ {
            assert(more[keys.len() as int] == added);
        }
    }
}

/// Where there is no package directory, or none with a manifest, no
/// package is installed, whatever the manager remembers.
pub proof fn lemma_fresh_cache_has_nothing(version: Seq<char>)
    ensures
        !installed_on_disk(PackageOnDisk::Missing, version),
        !installed_on_disk(PackageOnDisk::NoManifest, version),
{
}

/// A package is not installed where the manifest on disk has another
/// version or none, even though the directory exists. It is then
/// installed anew, unless another caller is doing so.
pub proof fn lemma_other_version_is_not_installed(
    under_way: Set<Seq<char>>,
    name: Seq<char>,
    version: Seq<char>,
    manifest: PackageManifest,
)
    requires
        manifest@.version != Some(version),
    ensures
        !installed_on_disk(PackageOnDisk::Manifest(manifest), version),
        ticket_for(under_way, name, version, PackageOnDisk::Manifest(manifest))
            != InstallTicket::AlreadyInstalled,
{
}

/// A specifier that names a package and an exact version leads to the
/// directory that the package of that version is installed in, whatever
/// the importing package and the registry say; and without a subpath the
/// file it stands for is the main entry of the package in that directory.
pub proof fn lemma_resolves_to_installed_main(
    root: Seq<char>,
    name: Seq<char>,
    version: Seq<char>,
    referrer: Option<ManifestView>,
    cached: Option<NpmPackageInfoView>,
    manifest: ManifestView,
)
    requires
        is_package_name(name),
        is_version_text(version),
    ensures
        normal_version(version) matches Some(exact) ==> {
            let at = PackageLocationView {
                name,
                version: exact,
                subpath: None,
                package_dir: package_dir_of(root, name, exact),
            };
            &&& located(root, npm_prefix() + name + seq!['@'] + version, referrer, cached)
                == Located::At(at)
            &&& entry_path(at, manifest) == joined(
                package_dir_of(root, name, exact),
                main_entry(manifest),
            )
        },
{
    let p = SpecifierParts { name, version: Some(version), subpath: None };
    let s = npm_prefix() + name + seq!['@'] + version;
    assert(s.subrange(0, 4) =~= npm_prefix());
    assert(s.subrange(4, s.len() as int) =~= compose(p));
    lemma_split_complete(p, false);
}

/// The directories that a directory lies in, nearest first: the texts
/// before each `/` at an index below `upto`.
pub open spec fn ancestors(dir: Seq<char>, upto: int) -> Seq<Seq<char>>
    decreases upto,
{
    if upto <= 0 {
        Seq::empty()
    } else if dir[upto - 1] == '/' {
        seq![dir.subrange(0, upto - 1)] + ancestors(dir, upto - 1)
    } else {
        ancestors(dir, upto - 1)
    }
}

/// The places where the `package.json` nearest to a directory may be: in
/// the directory itself, then in each directory that it lies in, nearest
/// first.
pub open spec fn manifest_candidates(dir: Seq<char>) -> Seq<Seq<char>> {
    (seq![dir] + ancestors(dir, dir.len() as int)).map_values(
        |d: Seq<char>| joined(d, "package.json"@),
    )
}

/// Lists the places where the `package.json` nearest to a directory may
/// be, nearest first.
pub fn package_json_candidates(dir: &str) -> (r: Vec<String>)
    ensures
        strings_view(r@) == manifest_candidates(dir@),
{
    let v: Vec<char> = chars_of(dir);
    let mut out: Vec<String> = Vec::new();
    out.push(join_path(dir, "package.json"));
    let mut i: usize = v.len();
    let ghost whole = ancestors(dir@, dir@.len() as int);
    assert(strings_view(out@) =~= seq![dir@].map_values(
        |d: Seq<char>| joined(d, "package.json"@),
    ));
    let ghost mut done: Seq<Seq<char>> = Seq::empty();
    while i > 0
        invariant
            v@ == dir@,
            i <= v.len(),
            whole == done + ancestors(dir@, i as int),
            strings_view(out@) == (seq![dir@] + done).map_values(
                |d: Seq<char>| joined(d, "package.json"@),
            ),
        decreases i,
    {
        if v[i - 1] == '/' {
            let parent: String = slice_text(dir, 0, i - 1);
            let ghost before = out@;
            out.push(join_path(parent.as_str(), "package.json"));
            proof {
                let next = done.push(parent@);
                assert(whole =~= next + ancestors(dir@, i - 1));
                let lhs = strings_view(out@);
                let old_dirs = seq![dir@] + done;
                let new_dirs = seq![dir@] + next;
                let rhs = new_dirs.map_values(|d: Seq<char>| joined(d, "package.json"@));
                let old_rhs = old_dirs.map_values(|d: Seq<char>| joined(d, "package.json"@));
                assert(strings_view(before) == old_rhs);
                assert(new_dirs =~= old_dirs.push(parent@));
                assert(out@.len() == before.len() + 1);
                assert(lhs.len() == out@.len());
                assert(strings_view(before).len() == before.len());
                assert(old_rhs.len() == old_dirs.len());
                assert(rhs.len() == new_dirs.len());
                assert(new_dirs.len() == old_dirs.len() + 1);
                assert(lhs.len() == rhs.len());
                assert forall|k: int| 0 <= k < lhs.len() implies lhs[k] == rhs[k] by {
                    if k < before.len() {
                        assert(out@[k] == before[k]);
                        assert(strings_view(before)[k] == before[k]@);
                        assert(old_rhs[k] == joined(old_dirs[k], "package.json"@));
                        assert(new_dirs[k] == old_dirs[k]);
                    } else {
                        assert(new_dirs[k] == parent@);
                    }
                }
                assert(lhs =~= rhs);
                done = next;
            }
        }
        i = i - 1;
    }
    proof {
        assert(done + Seq::<Seq<char>>::empty() =~= done);
    }
    out
}

/// The index of the first usable candidate at or after `from`; the length
/// of the list where there is none.
pub open spec fn first_usable(usable: Seq<bool>, from: int) -> int
    decreases usable.len() - from,
{
    if from < 0 || from >= usable.len() {
        usable.len() as int
    } else if usable[from] {
        from
    } else {
        first_usable(usable, from + 1)
    }
}

/// Picks the `package.json` nearest to a directory: the first candidate
/// that exists and can be read. `usable` says so for each candidate.
pub fn resolve_closest_package_json(candidates: &Vec<String>, usable: &Vec<bool>) -> (r: Option<
    String,
>)
    ensures
        match r {
            Some(p) => first_usable(usable@, 0) < candidates.len() && first_usable(usable@, 0)
                < usable.len() && p@ == candidates@[first_usable(usable@, 0)]@,
            None => first_usable(usable@, 0) >= candidates.len() || first_usable(usable@, 0)
                >= usable.len(),
        },
{
    let mut i: usize = 0;
    while i < usable.len() && i < candidates.len()
        invariant
            first_usable(usable@, 0) == first_usable(usable@, i as int),
            i <= usable.len(),
        decreases usable.len() - i,
    {
        if usable[i] {
            return Some(candidates[i].clone());
        }
        i = i + 1;
    }
    proof {
        lemma_first_usable(usable@, i as int);
    }
    None
}

/// `first_usable` never points before `from`.
pub proof fn lemma_first_usable(usable: Seq<bool>, from: int)
    requires
        0 <= from <= usable.len(),
    ensures
        from <= first_usable(usable, from) <= usable.len(),
    decreases usable.len() - from,
{
    if from < usable.len() && !usable[from] {
        lemma_first_usable(usable, from + 1);
    }
}

/// Where the archive of a package is unpacked before the package appears
/// in its directory: the staging directory, the directory inside it that
/// the archive is expected to hold, and the directory of the package.
#[derive(Debug, Clone, PartialEq, Eq)]
pub struct ExtractPlan {
    pub staging: String,
    pub unpacked: String,
    pub destination: String,
}

/// Plans the unpacking of an archive: into a staging directory beside the
/// package directory, so that the package directory is never seen half
/// filled. The files of the package are those below `package` inside the
/// archive, or all of them where there is no such directory.
pub fn extract_tarball(dest_dir: &str) -> (r: ExtractPlan)
    ensures
        r.staging@ == dest_dir@ + "._temp"@,
        r.unpacked@ == joined(dest_dir@ + "._temp"@, "package"@),
        r.destination@ == dest_dir@,
{
    let staging: String = join2(dest_dir, "._temp");
    let unpacked: String = join_path(staging.as_str(), "package");
    ExtractPlan { staging, unpacked, destination: dest_dir.to_owned() }
}

} // verus!
