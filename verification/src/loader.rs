//! The module loader: where a specifier is routed when it is resolved, what
//! has to be fetched when it is loaded, and what is delivered to the
//! engine.
//!
//! A load goes through four stages. Resolve turns a raw specifier into a
//! URL. Fetch brings the source of that URL, installing a package first
//! where the URL names one. Transform transpiles the source where its media
//! type asks for it. Deliver hands the source to the engine with the kind
//! of module and the URL that was really loaded. The loader decides; the
//! caller reads, fetches and transpiles.

use vstd::prelude::*;
use vstd::string::*;

use crate::entries::lookup;
use crate::error::{loader_kind_of, LoaderError, NpmPackageError};
use crate::jsr::JsrPackageManager;
use crate::media::{
    determine_module_type, module_type_of, should_transpile, transpile_media_type, transpile_type_of, is_transpiled, ModuleType,
};
use crate::npm::{
    installed_on_disk, package_dir_of, version_from_tags, versioned, versioned_specifier, NpmPackage,
    NpmPackageManager, PackageOnDisk,
};
use crate::npm_registry::{latest_tag, NpmPackageInfo, NpmPackageInfoView};
use crate::paths::{join_path, joined};
use crate::specifier::{
    node_builtin_name, node_prefix, npm_prefix, jsr_prefix, parse_npm_spec, parse_npm_specifier,
};
use crate::text::{
    chars_of, has_prefix, join2, join3, opt_view, same_text, starts_with, str_starts_with, strip_prefix,
};
use crate::urls::{
    file_url, join_url, joined_url, opt_parts_view, parse_url, parsed_url, UrlParts, UrlPartsView,
};

verus! {

/// What a loader is made from: the root of the package caches and the
/// specifier prefixes that the host serves itself.
#[derive(Debug, Clone, PartialEq, Eq)]
pub struct AiDenoModuleLoaderInit {
    pub package_root_dir: String,
    pub allowed_module_schemas: Vec<String>,
}

/// The loader: the two package managers and the prefixes of the host.
pub struct AiDenoModuleLoader {
    pub pkg_manager: NpmPackageManager,
    pub jsr_manager: JsrPackageManager,
    pub allowed_module_schemas: Vec<String>,
}

/// The kind of module that an import asks for.
#[derive(Debug, Clone, PartialEq, Eq)]
pub enum RequestedModuleType {
    Unspecified,
    Json,
    Other(String),
}

/// Some prefix of the list begins the specifier.
pub open spec fn any_prefix(prefixes: Seq<String>, specifier: Seq<char>) -> bool {
    exists|i: int| 0 <= i < prefixes.len() && has_prefix(specifier, (#[trigger] prefixes[i])@)
}

/// The first character is a letter, the following ones up to the first
/// `:` are letters, digits, `+`, `-` or `.`, and there are at least two
/// characters before that `:`.
pub open spec fn has_uri_scheme(s: Seq<char>) -> bool {
    exists|n: int| #[trigger] scheme_ends_at(s, n)
}

/// The text begins with a scheme of `n` characters and a `:`.
pub open spec fn scheme_ends_at(s: Seq<char>, n: int) -> bool {
    2 <= n < s.len() && s[n] == ':' && is_ascii_letter(s[0]) && forall|k: int|
        1 <= k < n ==> is_scheme_char(#[trigger] s[k])
}

/// An ASCII letter.
pub open spec fn is_ascii_letter(c: char) -> bool {
    ('a' <= c && c <= 'z') || ('A' <= c && c <= 'Z')
}

/// A character of a scheme behind its first: a letter, a digit, `+`, `-`
/// or `.`.
pub open spec fn is_scheme_char(c: char) -> bool {
    is_ascii_letter(c) || ('0' <= c && c <= '9') || c == '+' || c == '-' || c == '.'
}

/// Tells whether the text begins with a URI scheme.
pub fn specifier_has_uri_scheme(specifier: &str) -> (r: bool)
    ensures
        r == has_uri_scheme(specifier@),
{
    let v: Vec<char> = chars_of(specifier);
    if v.len() == 0 || !letter(v[0]) {
        return false;
    }
    let mut i: usize = 1;
    while i < v.len() && scheme_char(v[i])
        invariant
            1 <= i <= v.len(),
            is_ascii_letter(v@[0]),
            forall|k: int| 1 <= k < i ==> is_scheme_char(#[trigger] v@[k]),
        decreases v.len() - i,
    {
        i = i + 1;
    }
    if i < v.len() && v[i] == ':' && i >= 2 {
        assert(scheme_ends_at(v@, i as int));
        true
    } else {
        proof {
            assert forall|n: int| !scheme_ends_at(v@, n) by {
                if 2 <= n < v@.len() && v@[n] == ':' {
                    if n < i {
                        assert(is_scheme_char(v@[n]));
                    } else if n > i {
                        assert(!is_scheme_char(v@[i as int]));
                    }
                }
            }
        }
        false
    }
}

/// Tells whether a character is an ASCII letter.
fn letter(c: char) -> (r: bool)
    ensures
        r == is_ascii_letter(c),
{
    ('a' <= c && c <= 'z') || ('A' <= c && c <= 'Z')
}

/// Tells whether a character may stand in a scheme behind its first.
fn scheme_char(c: char) -> (r: bool)
    ensures
        r == is_scheme_char(c),
{
    letter(c) || ('0' <= c && c <= '9') || c == '+' || c == '-' || c == '.'
}

/// The specifier is written relative to its importer: it begins with `/`,
/// `./` or `../`.
pub open spec fn is_relative(specifier: Seq<char>) -> bool {
    has_prefix(specifier, "/"@) || has_prefix(specifier, "./"@) || has_prefix(specifier, "../"@)
}

/// What the standard resolution of an import makes of a specifier: the
/// specifier itself where it is a URL; a relative specifier read against
/// the referrer; nothing for any other.
pub open spec fn import_resolved(specifier: Seq<char>, referrer: Seq<char>) -> Option<Seq<char>> {
    match parsed_url(specifier) {
        Some(u) => Some(u.href),
        None => if is_relative(specifier) {
            joined_url(referrer, specifier)
        } else {
            None
        },
    }
}

/// Resolves an import by the standard rules.
pub fn resolve_import(specifier: &str, referrer: &str) -> (r: Option<String>)
    ensures
        opt_view(r) == import_resolved(specifier@, referrer@),
{
    match parse_url(specifier) {
        Some(u) => Some(u.href),
        None => {
            if str_starts_with(specifier, "/") || str_starts_with(specifier, "./")
                || str_starts_with(specifier, "../") {
                join_url(referrer, specifier)
            } else {
                None
            }
        },
    }
}

/// Where the resolution of a specifier goes.
#[derive(Debug, Clone, PartialEq, Eq)]
pub enum Resolved {
    /// The specifier is resolved to this URL.
    Url(String),
    /// The node resolver is to be asked for this built-in module.
    NodeBuiltin(String),
    /// The standard rules resolve nothing: the npm package manager is to be
    /// asked what the specifier stands for inside the package of the
    /// importer. If it has no answer, the resolution fails with the error.
    NpmFallback(LoaderError),
}

pub enum ResolvedView {
    Url(Seq<char>),
    NodeBuiltin(Seq<char>),
    NpmFallback(Seq<char>),
    Failed(Seq<char>),
}

/// Where the resolution of a specifier goes, or the message with which it
/// fails. A package specifier is kept as it is, to be fetched on load; so
/// is a specifier that the host serves.
pub open spec fn routed(
    specifier: Seq<char>,
    referrer: Seq<char>,
    allowed: Seq<String>,
) -> ResolvedView {
    if has_prefix(specifier, npm_prefix()) {
        match parsed_url(specifier) {
            Some(u) => ResolvedView::Url(u.href),
            None => ResolvedView::Failed("Failed to parse npm URL: "@ + specifier),
        }
    } else if has_prefix(specifier, jsr_prefix()) {
        match parsed_url(specifier) {
            Some(u) => ResolvedView::Url(u.href),
            None => ResolvedView::Failed("Failed to parse JSR URL: "@ + specifier),
        }
    } else if has_prefix(specifier, node_prefix()) {
        ResolvedView::NodeBuiltin(strip_prefix(specifier, node_prefix()))
    } else if any_prefix(allowed, specifier) {
        match parsed_url(specifier) {
            Some(u) => ResolvedView::Url(u.href),
            None => ResolvedView::Failed("Failed to parse URL: "@ + specifier),
        }
    } else {
        match import_resolved(specifier, referrer) {
            Some(u) => ResolvedView::Url(u),
            None => ResolvedView::NpmFallback("Failed to resolve import: "@ + specifier),
        }
    }
}

/// The route that a load takes, by the scheme of the URL.
#[derive(Debug, Clone, PartialEq, Eq)]
pub enum Fetch {
    /// Read the file that the URL names.
    File,
    /// Install the npm package if need be, then read the file inside it.
    Npm,
    /// Install the JSR package if need be, then read the file inside it.
    Jsr,
    /// Download the URL.
    Remote,
}

pub enum FetchView {
    File,
    Npm,
    Jsr,
    Remote,
    Unsupported(Seq<char>),
    Invalid,
}

/// The route of a URL, or why it has none.
pub open spec fn fetch_route(specifier: Seq<char>) -> FetchView {
    match parsed_url(specifier) {
        None => FetchView::Invalid,
        Some(u) => if u.scheme == "file"@ {
            FetchView::File
        } else if u.scheme == "npm"@ {
            FetchView::Npm
        } else if u.scheme == "jsr"@ {
            FetchView::Jsr
        } else if u.scheme == "http"@ || u.scheme == "https"@ {
            FetchView::Remote
        } else {
            FetchView::Unsupported(u.scheme)
        },
    }
}

/// What is to be installed for an npm specifier.
#[derive(Debug, Clone, PartialEq, Eq)]
pub struct NpmTarget {
    pub name: String,
    pub version: String,
    pub subpath: Option<String>,
    /// The specifier with the version written out.
    pub specifier: String,
}

pub enum NpmTargetView {
    Invalid,
    NoLatest(Seq<char>),
    Target { name: Seq<char>, version: Seq<char>, subpath: Option<Seq<char>> },
}

/// The package version that an npm specifier asks for: the version it
/// names, else the registry's `latest`.
pub open spec fn npm_target(specifier: Seq<char>, info: Option<NpmPackageInfoView>)
    -> NpmTargetView {
    match parse_npm_spec(specifier) {
        None => NpmTargetView::Invalid,
        Some(p) => match p.version {
            Some(v) => NpmTargetView::Target { name: p.name, version: v, subpath: p.subpath },
            None => {
                let latest = match info {
                    Some(i) => version_from_tags(i),
                    None => None,
                };
                match latest {
                    Some(v) => NpmTargetView::Target {
                        name: p.name,
                        version: v,
                        subpath: p.subpath,
                    },
                    None => NpmTargetView::NoLatest(p.name),
                }
            },
        },
    }
}

/// What is delivered to the engine.
#[derive(Debug, Clone, PartialEq, Eq)]
pub struct ModuleSource {
    pub module_type: ModuleType,
    pub code: String,
    /// The URL that was asked for.
    pub specifier: String,
    /// The URL that was loaded.
    pub found: String,
}

/// The kind of module asked for is JSON.
pub open spec fn asks_json(requested: RequestedModuleType) -> bool {
    requested is Json
}

impl AiDenoModuleLoader {
    /// A loader with the npm cache below `<root>/npm` and the JSR cache
    /// below `<root>/jsr`.
    pub fn new(options: AiDenoModuleLoaderInit) -> (r: AiDenoModuleLoader)
        ensures
            r.jsr_manager.wf(),
            r.pkg_manager.packages_root_dir@ == joined(options.package_root_dir@, "npm"@),
            r.jsr_manager.package_root_dir@ == joined(options.package_root_dir@, "jsr"@),
            r.pkg_manager.marked() =~= Set::empty(),
            r.pkg_manager.under_way() =~= Set::empty(),
            r.allowed_module_schemas == options.allowed_module_schemas,
            forall|k: Seq<char>| r.jsr_manager.nv_by_req.recall(k) is None,
            forall|k: Seq<char>| r.jsr_manager.info_by_nv.recall(k) is None,
            forall|k: Seq<char>| r.jsr_manager.info_by_name.recall(k) is None,
    {
        let npm_root: String = join_path(options.package_root_dir.as_str(), "npm");
        AiDenoModuleLoader {
            pkg_manager: NpmPackageManager::new(npm_root),
            jsr_manager: JsrPackageManager::new(options.package_root_dir.as_str()),
            allowed_module_schemas: options.allowed_module_schemas,
        }
    }

    /// Tells whether the host serves the specifier itself: one of the
    /// allowed prefixes begins it.
    pub fn is_allowed(&self, specifier: &str) -> (r: bool)
        ensures
            r == any_prefix(self.allowed_module_schemas@, specifier@),
    {
        let mut i: usize = 0;
        while i < self.allowed_module_schemas.len()
            invariant
                i <= self.allowed_module_schemas.len(),
                forall|k: int|
                    0 <= k < i ==> !has_prefix(
                        specifier@,
                        (#[trigger] self.allowed_module_schemas@[k])@,
                    ),
            decreases self.allowed_module_schemas.len() - i,
        {
            if str_starts_with(specifier, self.allowed_module_schemas[i].as_str()) {
                return true;
            }
            i = i + 1;
        }
        false
    }

    /// Decides whether a source of an extension is transpiled: not where
    /// the host serves the specifier itself; else by its media type.
    pub fn extension_transpiler(&self, specifier: &str) -> (r: bool)
        ensures
            r == (!any_prefix(self.allowed_module_schemas@, specifier@) && is_transpiled(
                transpile_type_of(specifier@),
            )),
    {
        if self.is_allowed(specifier) {
            false
        } else {
            should_transpile(transpile_media_type(specifier))
        }
    }

    /// Resolves a raw specifier. `referrer` is the URL of the importer.
    pub fn resolve(&self, raw_specifier: &str, referrer: &str) -> (r: Result<Resolved, LoaderError>)
        ensures
            match routed(raw_specifier@, referrer@, self.allowed_module_schemas@) {
                ResolvedView::Url(u) => r matches Ok(Resolved::Url(s)) && s@ == u,
                ResolvedView::NodeBuiltin(n) => r matches Ok(Resolved::NodeBuiltin(s)) && s@ == n,
                ResolvedView::NpmFallback(m) => r matches Ok(
                    Resolved::NpmFallback(LoaderError::ResolutionFailed(s)),
                ) && s@ == m,
                ResolvedView::Failed(m) => r matches Err(LoaderError::InvalidSpecifier(s)) && s@
                    == m,
            },
    {
        let v: Vec<char> = chars_of(raw_specifier);
        let npm: Vec<char> = vec!['n', 'p', 'm', ':'];
        let jsr: Vec<char> = vec!['j', 's', 'r', ':'];
        let node: Vec<char> = vec!['n', 'o', 'd', 'e', ':'];
        assert(npm@ =~= npm_prefix());
        assert(jsr@ =~= jsr_prefix());
        assert(node@ =~= node_prefix());
        if starts_with(&v, &npm) {
            match parse_url(raw_specifier) {
                Some(u) => Ok(Resolved::Url(u.href)),
                None => Err(
                    LoaderError::InvalidSpecifier(
                        join2("Failed to parse npm URL: ", raw_specifier),
                    ),
                ),
            }
        } else if starts_with(&v, &jsr) {
            match parse_url(raw_specifier) {
                Some(u) => Ok(Resolved::Url(u.href)),
                None => Err(
                    LoaderError::InvalidSpecifier(
                        join2("Failed to parse JSR URL: ", raw_specifier),
                    ),
                ),
            }
        } else if starts_with(&v, &node) {
            Ok(Resolved::NodeBuiltin(node_builtin_name(raw_specifier).to_owned()))
        } else if self.is_allowed(raw_specifier) {
            match parse_url(raw_specifier) {
                Some(u) => Ok(Resolved::Url(u.href)),
                None => Err(
                    LoaderError::InvalidSpecifier(join2("Failed to parse URL: ", raw_specifier)),
                ),
            }
        } else {
            match resolve_import(raw_specifier, referrer) {
                Some(u) => Ok(Resolved::Url(u)),
                None => Ok(
                    Resolved::NpmFallback(
                        LoaderError::ResolutionFailed(
                            join2("Failed to resolve import: ", raw_specifier),
                        ),
                    ),
                ),
            }
        }
    }

    /// Resolves the referrer of an import: a text with a URI scheme is a
    /// URL; any other is a path below `cwd_url`, the URL of the working
    /// directory.
    pub fn resolve_referrer(&self, referrer: &str, cwd_url: &str) -> (r: Result<
        String,
        LoaderError,
    >)
        ensures
            match referrer_url(referrer@, cwd_url@) {
                Some(u) => r matches Ok(s) && s@ == u,
                None => r matches Err(LoaderError::ResolutionFailed(m)) && m@
                    == "Invalid referrer: "@ + referrer@,
            },
    {
        let found: Option<String> = if specifier_has_uri_scheme(referrer) {
            match parse_url(referrer) {
                Some(u) => Some(u.href),
                None => None,
            }
        } else {
            join_url(cwd_url, referrer)
        };
        match found {
            Some(u) => Ok(u),
            None => Err(LoaderError::ResolutionFailed(join2("Invalid referrer: ", referrer))),
        }
    }

    /// Says how the source of a resolved URL is fetched.
    pub fn fetch_module_content(&self, module_specifier: &str) -> (r: Result<Fetch, LoaderError>)
        ensures
            match fetch_route(module_specifier@) {
                FetchView::File => r == Ok::<Fetch, LoaderError>(Fetch::File),
                FetchView::Npm => r == Ok::<Fetch, LoaderError>(Fetch::Npm),
                FetchView::Jsr => r == Ok::<Fetch, LoaderError>(Fetch::Jsr),
                FetchView::Remote => r == Ok::<Fetch, LoaderError>(Fetch::Remote),
                FetchView::Unsupported(scheme) => r matches Err(LoaderError::UnsupportedScheme(m))
                    && m@ == "Unsupported scheme in module imports: "@ + scheme,
                FetchView::Invalid => r matches Err(LoaderError::InvalidSpecifier(m)) && m@
                    == "Invalid module specifier: "@ + module_specifier@,
            },
    {
        let url: UrlParts = match parse_url(module_specifier) {
            Some(u) => u,
            None => {
                return Err(
                    LoaderError::InvalidSpecifier(
                        join2("Invalid module specifier: ", module_specifier),
                    ),
                );
            },
        };
        let scheme: &str = url.scheme.as_str();
        if same_text(scheme, "file") {
            Ok(Fetch::File)
        } else if same_text(scheme, "npm") {
            Ok(Fetch::Npm)
        } else if same_text(scheme, "jsr") {
            Ok(Fetch::Jsr)
        } else if same_text(scheme, "http") || same_text(scheme, "https") {
            Ok(Fetch::Remote)
        } else {
            Err(
                LoaderError::UnsupportedScheme(
                    join2("Unsupported scheme in module imports: ", scheme),
                ),
            )
        }
    }

    /// Says which package version an npm specifier asks for, so that it
    /// can be installed, and under which specifier it is then loaded.
    /// `info` is the registry's document of the package; it is looked at
    /// only where the specifier names no version.
    pub fn resolve_and_ensure_npm_module(&self, specifier: &str, info: Option<&NpmPackageInfo>)
        -> (r: Result<NpmTarget, LoaderError>)
        ensures
            match npm_target(
                specifier@,
                match info {
                    Some(i) => Some(i@),
                    None => None,
                },
            ) {
                NpmTargetView::Invalid => r matches Err(LoaderError::InvalidSpecifier(m)) && m@
                    == "Failed to parse npm specifier: "@ + specifier@,
                NpmTargetView::NoLatest(name) => r matches Err(LoaderError::ResolutionFailed(m))
                    && m@ == "Failed to get `latest` tag of package: "@ + name,
                NpmTargetView::Target { name, version, subpath } => r matches Ok(t) && t.name@
                    == name && t.version@ == version && opt_view(t.subpath) == subpath
                    && t.specifier@ == versioned_specifier(name, version, subpath),
            },
    {
        let (name, explicit, subpath) = match parse_npm_specifier(specifier) {
            Ok(t) => t,
            Err(_) => {
                return Err(
                    LoaderError::InvalidSpecifier(
                        join2("Failed to parse npm specifier: ", specifier),
                    ),
                );
            },
        };
        let version: String = match explicit {
            Some(v) => v,
            None => {
                let latest: Option<String> = match info {
                    Some(i) => match &i.dist_tags {
                        Some(tags) => {
                            proof {
                                reveal_strlit("latest");
                                assert("latest"@ =~= latest_tag());
                            }
                            lookup(tags, "latest")
                        },
                        None => None,
                    },
                    None => None,
                };
                match latest {
                    Some(v) => v,
                    None => {
                        return Err(
                            LoaderError::ResolutionFailed(
                                join2("Failed to get `latest` tag of package: ", name.as_str()),
                            ),
                        );
                    },
                }
            },
        };
        let written: String = versioned(name.as_str(), version.as_str(), &subpath);
        Ok(NpmTarget { name, version, subpath, specifier: written })
    }

    /// Puts together what is delivered to the engine: the source with the
    /// kind of module that the loaded URL calls for and with both URLs. A
    /// JSON module is delivered only where JSON was asked for.
    pub fn load(
        &self,
        module_specifier: &str,
        found: &UrlParts,
        code: String,
        requested_module_type: &RequestedModuleType,
    ) -> (r: Result<ModuleSource, LoaderError>)
        ensures
            module_type_of(found.path@) == ModuleType::Json && !asks_json(*requested_module_type)
                ==> (r matches Err(LoaderError::ResolutionFailed(m)) && m@
                == "Invalid module type requested"@),
            !(module_type_of(found.path@) == ModuleType::Json && !asks_json(
                *requested_module_type,
            )) ==> (r matches Ok(source) && source.module_type == module_type_of(found.path@)
                && source.code@ == code@ && source.specifier@ == module_specifier@
                && source.found@ == found.href@),
    {
        let module_type: ModuleType = determine_module_type(found.path.as_str());
        let json_asked: bool = match requested_module_type {
            RequestedModuleType::Json => true,
            _ => false,
        };
        if module_type == ModuleType::Json && !json_asked {
            return Err(LoaderError::ResolutionFailed("Invalid module type requested".to_owned()));
        }
        Ok(
            ModuleSource {
                module_type,
                code,
                specifier: module_specifier.to_owned(),
                found: found.href.clone(),
            },
        )
    }
}

/// The URL of a referrer.
pub open spec fn referrer_url(referrer: Seq<char>, cwd_url: Seq<char>) -> Option<Seq<char>> {
    if has_uri_scheme(referrer) {
        match parsed_url(referrer) {
            Some(u) => Some(u.href),
            None => None,
        }
    } else {
        joined_url(cwd_url, referrer)
    }
}

/// What follows the reading of a file: a file that is not there is a
/// missing module; one that cannot be read is a failed load.
pub fn file_content(path: &str, exists: bool, content: Result<String, String>) -> (r: Result<
    String,
    LoaderError,
>)
    ensures
        !exists ==> (r matches Err(LoaderError::ModuleNotFound(m)) && m@ == "File not found: "@
            + path@),
        exists ==> (match content {
            Ok(text) => r matches Ok(t) && t@ == text@,
            Err(why) => r matches Err(LoaderError::ResolutionFailed(m)) && m@
                == "Failed to read file: "@ + path@ + " - "@ + why@,
        }),
{
    if !exists {
        return Err(LoaderError::ModuleNotFound(join2("File not found: ", path)));
    }
    match content {
        Ok(text) => Ok(text),
        Err(why) => {
            let head: String = join3("Failed to read file: ", path, " - ");
            Err(LoaderError::ResolutionFailed(join2(head.as_str(), why.as_str())))
        },
    }
}

/// A load that waits for its source to be fetched.
#[derive(Debug, Clone, PartialEq, Eq)]
pub struct Load {
    pub specifier: String,
    pub requested: RequestedModuleType,
    pub route: Fetch,
}

/// What a fetch brought.
#[derive(Debug, Clone, PartialEq, Eq)]
pub struct Source {
    /// The path of the file that was read inside an installed package. It
    /// is looked at for the routes through a package only.
    pub path: Option<String>,
    /// The text of the module.
    pub content: String,
}

/// The message for a load whose loaded URL cannot be told.
pub open spec fn no_url_message(specifier: Seq<char>) -> Seq<char> {
    "Invalid module specifier: "@ + specifier
}

/// The route leads through an installed package.
pub open spec fn through_package(route: Fetch) -> bool {
    route == Fetch::Npm || route == Fetch::Jsr
}

/// A load whose source is fetched and waits to be transpiled.
#[derive(Debug, Clone, PartialEq, Eq)]
pub struct Fetched {
    pub specifier: String,
    pub found: UrlParts,
}

/// Where a load stands.
#[derive(Debug, Clone, PartialEq, Eq)]
pub enum LoadStep {
    /// Fetch the source by the route of the load and answer with
    /// `on_fetched`.
    Fetch(Load),
    /// Transpile this source and answer with `on_transpiled`.
    Transform(Fetched, String),
    /// The module is handed to the engine.
    Deliver(ModuleSource),
    /// The load failed at one of its stages.
    Failed(LoaderError),
}

/// A JSON module is loaded where JSON was not asked for.
pub open spec fn type_mismatch(found_path: Seq<char>, requested: RequestedModuleType) -> bool {
    module_type_of(found_path) == ModuleType::Json && !asks_json(requested)
}

/// The source of the loaded URL is transpiled before it is delivered.
pub open spec fn is_transformed(allowed: Seq<String>, found: Seq<char>) -> bool {
    !any_prefix(allowed, found) && is_transpiled(transpile_type_of(found))
}

impl AiDenoModuleLoader {
    /// Begins a load: the source is to be fetched by the route of the
    /// scheme. A URL without a route fails the load at once.
    pub fn begin_load(&self, module_specifier: &str, requested: RequestedModuleType) -> (r:
        LoadStep)
        ensures
            match fetch_route(module_specifier@) {
                FetchView::Unsupported(scheme) => r matches LoadStep::Failed(
                    LoaderError::UnsupportedScheme(m),
                ) && m@ == "Unsupported scheme in module imports: "@ + scheme,
                FetchView::Invalid => r matches LoadStep::Failed(
                    LoaderError::InvalidSpecifier(m),
                ) && m@ == "Invalid module specifier: "@ + module_specifier@,
                route => r matches LoadStep::Fetch(load) && load.specifier@ == module_specifier@
                    && load.requested == requested && route == (match load.route {
                    Fetch::File => FetchView::File,
                    Fetch::Npm => FetchView::Npm,
                    Fetch::Jsr => FetchView::Jsr,
                    Fetch::Remote => FetchView::Remote,
                }),
            },
    {
        match self.fetch_module_content(module_specifier) {
            Ok(route) => LoadStep::Fetch(
                Load { specifier: module_specifier.to_owned(), requested, route },
            ),
            Err(e) => LoadStep::Failed(e),
        }
    }
}

impl Load {
    /// `step` is what follows for this load once its source is fetched and
    /// the URL that was loaded is known, or known not to exist. Without a
    /// URL the load fails. So does a JSON module where JSON was not asked
    /// for. A source whose media type asks for it is transpiled next; any
    /// other is delivered as it is, with the URL that was loaded.
    pub open spec fn is_delivery(
        self,
        step: LoadStep,
        allowed: Seq<String>,
        found: Option<UrlPartsView>,
        content: String,
    ) -> bool {
        match found {
            None => step matches LoadStep::Failed(LoaderError::InvalidSpecifier(m)) && m@
                == no_url_message(self.specifier@),
            Some(u) => if type_mismatch(u.path, self.requested) {
                step matches LoadStep::Failed(LoaderError::ResolutionFailed(m)) && m@
                    == "Invalid module type requested"@
            } else if is_transformed(allowed, u.href) {
                step matches LoadStep::Transform(state, text) && state.specifier@
                    == self.specifier@ && state.found@ == u && text == content
            } else {
                step matches LoadStep::Deliver(module) && module.module_type == module_type_of(
                    u.path,
                ) && module.code@ == content@ && module.specifier@ == self.specifier@
                    && module.found@ == u.href
            },
        }
    }

    /// Takes the source of the load together with the URL that was loaded,
    /// `None` where there is no such URL.
    pub fn deliver(self, loader: &AiDenoModuleLoader, found: Option<UrlParts>, content: String)
        -> (r: LoadStep)
        ensures
            self.is_delivery(r, loader.allowed_module_schemas@, opt_parts_view(found), content),
    {
        let found: UrlParts = match found {
            Some(u) => u,
            None => {
                return LoadStep::Failed(
                    LoaderError::InvalidSpecifier(
                        join2("Invalid module specifier: ", self.specifier.as_str()),
                    ),
                );
            },
        };
        let module_type: ModuleType = determine_module_type(found.path.as_str());
        let json_asked: bool = match &self.requested {
            RequestedModuleType::Json => true,
            _ => false,
        };
        if module_type == ModuleType::Json && !json_asked {
            return LoadStep::Failed(
                LoaderError::ResolutionFailed("Invalid module type requested".to_owned()),
            );
        }
        if loader.extension_transpiler(found.href.as_str()) {
            LoadStep::Transform(Fetched { specifier: self.specifier, found }, content)
        } else {
            match loader.load(self.specifier.as_str(), &found, content, &self.requested) {
                Ok(module) => LoadStep::Deliver(module),
                Err(e) => LoadStep::Failed(e),
            }
        }
    }

    /// Takes what was fetched, or the failure of the fetch, which ends the
    /// load. A file and a remote module are loaded from the URL that the
    /// load was begun with. A module of a package is loaded from the file
    /// that its specifier was resolved to, under the `file` URL that the
    /// `url` crate makes of the path of that file; what follows is what
    /// `deliver` says for that URL.
    pub fn on_fetched(self, loader: &AiDenoModuleLoader, fetched: Result<Source, LoaderError>) -> (r:
        LoadStep)
        ensures
            match fetched {
                Err(e) => r == LoadStep::Failed(e),
                Ok(source) => if !through_package(self.route) {
                    self.is_delivery(
                        r,
                        loader.allowed_module_schemas@,
                        parsed_url(self.specifier@),
                        source.content,
                    )
                } else if source.path is None {
                    self.is_delivery(r, loader.allowed_module_schemas@, None, source.content)
                } else {
                    exists|found: Option<UrlPartsView>|
                        (found matches Some(u) ==> u.scheme == "file"@) && #[trigger] self.is_delivery(
                            r,
                            loader.allowed_module_schemas@,
                            found,
                            source.content,
                        )
                },
            },
    {
        let source: Source = match fetched {
            Ok(s) => s,
            Err(e) => {
                return LoadStep::Failed(e);
            },
        };
        let found: Option<UrlParts> = match self.route {
            Fetch::File | Fetch::Remote => parse_url(self.specifier.as_str()),
            Fetch::Npm | Fetch::Jsr => match &source.path {
                Some(path) => file_url(path.as_str()),
                None => None,
            },
        };
        let ghost seen = opt_parts_view(found);
        let ghost allowed = loader.allowed_module_schemas@;
        let r = self.deliver(loader, found, source.content);
        assert(self.is_delivery(r, allowed, seen, source.content));
        r
    }
}

impl Fetched {
    /// Takes the transpiled source, or the failure of the transpiler, and
    /// delivers the module with the URL that was loaded.
    pub fn on_transpiled(self, code: Result<String, LoaderError>) -> (r: LoadStep)
        ensures
            match code {
                Err(e) => r == LoadStep::Failed(e),
                Ok(text) => r matches LoadStep::Deliver(source) && source.module_type
                    == module_type_of(self.found.path@) && source.code == text
                    && source.specifier == self.specifier && source.found == self.found.href,
            },
    {
        match code {
            Err(e) => LoadStep::Failed(e),
            Ok(text) => {
                let module_type: ModuleType = determine_module_type(self.found.path.as_str());
                LoadStep::Deliver(
                    ModuleSource {
                        module_type,
                        code: text,
                        specifier: self.specifier,
                        found: self.found.href,
                    },
                )
            },
        }
    }
}

/// Where the fetch of an npm specifier stands.
#[derive(Debug, Clone, PartialEq, Eq)]
pub enum NpmFetch {
    /// The specifier names no version: get the registry's document of this
    /// package and answer with `npm_fetch_with_info`.
    NeedInfo(String),
    /// Look at this directory, where the package would be installed, and
    /// answer with `npm_fetch_probed`.
    Probe(NpmTarget, String),
    /// Install the package with what it depends on, and answer with
    /// `npm_fetch_installed`.
    Install(NpmTarget),
    /// The package is installed: find the file that this specifier stands
    /// for, and read it.
    Read(String),
    Failed(LoaderError),
}

/// The step that follows once the version of an npm specifier is known.
pub open spec fn npm_fetch_step(root: Seq<char>, target: NpmTargetView, specifier: Seq<char>)
    -> NpmFetchView {
    match target {
        NpmTargetView::Invalid => NpmFetchView::Invalid(
            "Failed to parse npm specifier: "@ + specifier,
        ),
        NpmTargetView::NoLatest(name) => NpmFetchView::Unresolved(
            "Failed to get `latest` tag of package: "@ + name,
        ),
        NpmTargetView::Target { name, version, subpath } => NpmFetchView::Probe {
            name,
            version,
            subpath,
            dir: package_dir_of(root, name, version),
        },
    }
}

pub enum NpmFetchView {
    Invalid(Seq<char>),
    Unresolved(Seq<char>),
    NeedInfo(Seq<char>),
    Probe { name: Seq<char>, version: Seq<char>, subpath: Option<Seq<char>>, dir: Seq<char> },
}

/// The first step of the fetch of an npm specifier: the registry is asked
/// only where the specifier names no version.
pub open spec fn npm_fetch_begun(root: Seq<char>, specifier: Seq<char>) -> NpmFetchView {
    match parse_npm_spec(specifier) {
        Some(p) => if p.version is None {
            NpmFetchView::NeedInfo(p.name)
        } else {
            npm_fetch_step(root, npm_target(specifier, None), specifier)
        },
        None => npm_fetch_step(root, npm_target(specifier, None), specifier),
    }
}

/// The step is the one that the view describes.
pub open spec fn is_npm_fetch(step: NpmFetch, view: NpmFetchView) -> bool {
    match view {
        NpmFetchView::Invalid(m) => step matches NpmFetch::Failed(
            LoaderError::InvalidSpecifier(e),
        ) && e@ == m,
        NpmFetchView::Unresolved(m) => step matches NpmFetch::Failed(
            LoaderError::ResolutionFailed(e),
        ) && e@ == m,
        NpmFetchView::NeedInfo(name) => step matches NpmFetch::NeedInfo(n) && n@ == name,
        NpmFetchView::Probe { name, version, subpath, dir } => step matches NpmFetch::Probe(
            t,
            d,
        ) && t.name@ == name && t.version@ == version && opt_view(t.subpath) == subpath
            && t.specifier@ == versioned_specifier(name, version, subpath) && d@ == dir,
    }
}

impl AiDenoModuleLoader {
    /// Begins the fetch of an npm specifier.
    pub fn begin_npm_fetch(&self, specifier: &str) -> (r: NpmFetch)
        ensures
            is_npm_fetch(r, npm_fetch_begun(self.pkg_manager.packages_root_dir@, specifier@)),
    {
        match parse_npm_specifier(specifier) {
            Ok((name, None, _)) => NpmFetch::NeedInfo(name),
            _ => self.npm_fetch_with_info(specifier, None),
        }
    }

    /// Takes the registry's document of the package, or that it could not
    /// be had: the version that the specifier asks for is looked for on
    /// disk next.
    pub fn npm_fetch_with_info(&self, specifier: &str, info: Option<&NpmPackageInfo>) -> (r:
        NpmFetch)
        ensures
            is_npm_fetch(
                r,
                npm_fetch_step(
                    self.pkg_manager.packages_root_dir@,
                    npm_target(
                        specifier@,
                        match info {
                            Some(i) => Some(i@),
                            None => None,
                        },
                    ),
                    specifier@,
                ),
            ),
    {
        match self.resolve_and_ensure_npm_module(specifier, info) {
            Ok(target) => {
                let dir: String = self.pkg_manager.compute_package_dir(
                    target.name.as_str(),
                    Some(target.version.as_str()),
                );
                NpmFetch::Probe(target, dir)
            },
            Err(e) => NpmFetch::Failed(e),
        }
    }

    /// Takes what is on disk where the package would be installed: the
    /// package is installed unless the directory holds a manifest with
    /// exactly the version.
    pub fn npm_fetch_probed(&self, target: NpmTarget, on_disk: &PackageOnDisk) -> (r: NpmFetch)
        ensures
            if installed_on_disk(*on_disk, target.version@) {
                r == NpmFetch::Read(target.specifier)
            } else {
                r == NpmFetch::Install(target)
            },
    {
        match self.ensure_npm(target, on_disk) {
            NpmEnsure::Ready(specifier) => NpmFetch::Read(specifier),
            NpmEnsure::Install(target) => NpmFetch::Install(target),
        }
    }
}

/// Takes the end of the installation: the specifier of the version that
/// was installed is read next. A failed installation fails the fetch.
pub fn npm_fetch_installed(target: &NpmTarget, result: Result<NpmPackage, NpmPackageError>) -> (r:
    NpmFetch)
    ensures
        match result {
            Ok(package) => r matches NpmFetch::Read(s) && s@ == versioned_specifier(
                target.name@,
                package.version@,
                opt_view(target.subpath),
            ),
            Err(e) => r matches NpmFetch::Failed(failure) && failure@.kind == loader_kind_of(
                e.kind(),
            ) && failure@.message == e.label() + e.detail(),
        },
{
    match after_npm_install(target, result) {
        Ok(specifier) => NpmFetch::Read(specifier),
        Err(e) => NpmFetch::Failed(e),
    }
}

/// What is to be done for the package of an npm specifier.
#[derive(Debug, Clone, PartialEq, Eq)]
pub enum NpmEnsure {
    /// Install the package, then call `after_npm_install`.
    Install(NpmTarget),
    /// The package is installed: load this specifier.
    Ready(String),
}

impl AiDenoModuleLoader {
    /// Decides whether the package of an npm specifier has to be installed
    /// before it is loaded: it has to be unless the package directory holds
    /// a manifest with exactly the version.
    pub fn ensure_npm(&self, target: NpmTarget, on_disk: &PackageOnDisk) -> (r: NpmEnsure)
        ensures
            if installed_on_disk(*on_disk, target.version@) {
                r == NpmEnsure::Ready(target.specifier)
            } else {
                r == NpmEnsure::Install(target)
            },
    {
        if self.pkg_manager.is_package_installed(
            target.name.as_str(),
            target.version.as_str(),
            on_disk,
        ) {
            NpmEnsure::Ready(target.specifier)
        } else {
            NpmEnsure::Install(target)
        }
    }
}

/// The specifier under which a package is loaded after its installation:
/// the one of the version that was installed. A failed installation fails
/// the load.
pub fn after_npm_install(target: &NpmTarget, result: Result<NpmPackage, NpmPackageError>) -> (r:
    Result<String, LoaderError>)
    ensures
        match result {
            Ok(package) => r matches Ok(s) && s@ == versioned_specifier(
                target.name@,
                package.version@,
                opt_view(target.subpath),
            ),
            Err(e) => r matches Err(failure) && failure@.kind == loader_kind_of(e.kind())
                && failure@.message == e.label() + e.detail(),
        },
{
    match result {
        Ok(package) => Ok(
            versioned(target.name.as_str(), package.version.as_str(), &target.subpath),
        ),
        Err(e) => Err(LoaderError::from_npm(&e)),
    }
}

} // verus!
