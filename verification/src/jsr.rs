//! The JSR package manager: what a specifier asks for, which version
//! answers it, which files make up an installation, and which file an
//! export stands for.
//!
//! A package is installed below `<root>/<name>/<version>/`, file by file as
//! the manifest of the version lists them, with the metadata of the version
//! in `meta.json` beside them and that of the package in
//! `<root>/<name>/meta.json`. The manager performs no I/O; what was read or
//! fetched is handed to it, and it remembers what it was told.

use vstd::prelude::*;
use vstd::string::*;

use crate::entries::{entries_view, lookup, value_of, Entry, EntryView};
use crate::error::LoaderError;
use crate::jsr_versions::{select_version, selected_version, JsrPackageInfo, PackageInfoView};
use crate::memo::Memo;
use crate::paths::{join_path, joined};
use crate::semver::{accepts_package_req, package_req_read};
use crate::specifier::{parse_jsr_spec, split_jsr_specifier, version_suffix};
use crate::text::{
    chars_of, has_suffix, join2, join3, opt_view, same_text, slice_text, str_ends_with, strings_view,
};

verus! {

/// The address of the public JSR registry.
pub const JSR_REGISTRY_URL: &'static str = "https://jsr.io";

/// A package with the versions wanted of it. The requirement is `*` where
/// none was written.
#[derive(Debug, Clone, PartialEq, Eq)]
pub struct PackageReq {
    pub name: String,
    pub version_req: String,
}

pub struct PackageReqView {
    pub name: Seq<char>,
    pub version_req: Seq<char>,
}

impl View for PackageReq {
    type V = PackageReqView;

    open spec fn view(&self) -> PackageReqView {
        PackageReqView { name: self.name@, version_req: self.version_req@ }
    }
}

/// A package with one exact version.
#[derive(Debug, Clone, PartialEq, Eq)]
pub struct PackageNv {
    pub name: String,
    pub version: String,
}

pub struct PackageNvView {
    pub name: Seq<char>,
    pub version: Seq<char>,
}

impl View for PackageNv {
    type V = PackageNvView;

    open spec fn view(&self) -> PackageNvView {
        PackageNvView { name: self.name@, version: self.version@ }
    }
}

/// The metadata of one version: the paths of its files, each with a
/// leading `/`, and the file that each export stands for.
#[derive(Debug, Clone, PartialEq, Eq)]
pub struct JsrVersionInfo {
    pub manifest: Vec<String>,
    pub exports: Vec<Entry>,
}

pub struct VersionInfoView {
    pub manifest: Seq<Seq<char>>,
    pub exports: Seq<EntryView>,
}

impl View for JsrVersionInfo {
    type V = VersionInfoView;

    open spec fn view(&self) -> VersionInfoView {
        VersionInfoView {
            manifest: strings_view(self.manifest@),
            exports: entries_view(self.exports@),
        }
    }
}

/// The requirement that matches every version.
pub open spec fn any_version() -> Seq<char> {
    seq!['*']
}

/// A name with a version behind `@`.
pub open spec fn at_version(name: Seq<char>, version: Seq<char>) -> Seq<char> {
    name + seq!['@'] + version
}

/// How a requirement is written: the name alone where every version
/// matches, else the name, `@` and the requirement.
pub open spec fn req_text(req: PackageReqView) -> Seq<char> {
    if req.version_req == any_version() {
        req.name
    } else {
        at_version(req.name, req.version_req)
    }
}

/// What a JSR specifier asks for, or why it asks for nothing.
pub enum JsrParsed {
    /// The text has not the form of a JSR specifier.
    NotJsr,
    /// The name and version are refused as a package requirement.
    BadRequirement(Seq<char>),
    Asks(PackageReqView, Option<Seq<char>>),
}

/// What a JSR specifier asks for.
pub open spec fn parsed_jsr(specifier: Seq<char>) -> JsrParsed {
    match parse_jsr_spec(specifier) {
        None => JsrParsed::NotJsr,
        Some(p) => {
            let text = p.name + version_suffix(p.version);
            if package_req_read(text) {
                JsrParsed::Asks(
                    PackageReqView {
                        name: p.name,
                        version_req: match p.version {
                            Some(v) => v,
                            None => any_version(),
                        },
                    },
                    p.subpath,
                )
            } else {
                JsrParsed::BadRequirement(text)
            }
        },
    }
}

/// Parses `jsr:@scope/name[@version][/subpath]`. The prefix `jsr:` and one
/// `/` behind it are dropped if they are there. The subpath comes without
/// its leading `/`.
pub fn parse_jsr_specifier(specifier: &str) -> (r: Result<(PackageReq, Option<String>), LoaderError>)
    ensures
        match parsed_jsr(specifier@) {
            JsrParsed::NotJsr => r matches Err(LoaderError::InvalidSpecifier(m)) && m@
                == "Invalid JSR specifier: "@ + specifier@,
            JsrParsed::BadRequirement(text) => r matches Err(LoaderError::InvalidSpecifier(m))
                && m@ == "Invalid JSR package specification: "@ + text,
            JsrParsed::Asks(req, subpath) => r matches Ok(found) && found.0@ == req && opt_view(
                found.1,
            ) == subpath,
        },
{
    let (name, version, subpath) = match split_jsr_specifier(specifier) {
        Some(t) => t,
        None => {
            return Err(
                LoaderError::InvalidSpecifier(join2("Invalid JSR specifier: ", specifier)),
            );
        },
    };
    proof {
        reveal_strlit("@");
        assert("@"@ =~= seq!['@']);
        reveal_strlit("*");
        assert("*"@ =~= any_version());
    }
    let text: String = match &version {
        Some(v) => join3(name.as_str(), "@", v.as_str()),
        None => {
            assert(name@ + Seq::<char>::empty() =~= name@);
            name.clone()
        },
    };
    proof {
        let p = parse_jsr_spec(specifier@)->0;
        assert(text@ =~= p.name + version_suffix(p.version));
    }
    if !accepts_package_req(text.as_str()) {
        return Err(
            LoaderError::InvalidSpecifier(
                join2("Invalid JSR package specification: ", text.as_str()),
            ),
        );
    }
    let version_req: String = match version {
        Some(v) => v,
        None => "*".to_owned(),
    };
    Ok((PackageReq { name, version_req }, subpath))
}

impl PackageReq {
    /// The requirement as it is written.
    pub fn to_string(&self) -> (r: String)
        ensures
            r@ == req_text(self@),
    {
        proof {
            reveal_strlit("@");
            assert("@"@ =~= seq!['@']);
            reveal_strlit("*");
            assert("*"@ =~= any_version());
        }
        if same_text(self.version_req.as_str(), "*") {
            self.name.clone()
        } else {
            join3(self.name.as_str(), "@", self.version_req.as_str())
        }
    }

    /// The key under which the answer to the requirement is remembered.
    pub fn key(&self) -> (r: String)
        ensures
            r@ == at_version(self.name@, self.version_req@),
    {
        proof {
            reveal_strlit("@");
            assert("@"@ =~= seq!['@']);
        }
        join3(self.name.as_str(), "@", self.version_req.as_str())
    }
}

impl PackageNv {
    /// The package as it is written: the name, `@` and the version.
    pub fn to_string(&self) -> (r: String)
        ensures
            r@ == at_version(self.name@, self.version@),
    {
        proof {
            reveal_strlit("@");
            assert("@"@ =~= seq!['@']);
        }
        join3(self.name.as_str(), "@", self.version.as_str())
    }
}

/// The content type asked for when a file is fetched, by the ending of its
/// path.
pub open spec fn accept_for(path: Seq<char>) -> Seq<char> {
    if has_suffix(path, ".ts"@) {
        "application/typescript"@
    } else if has_suffix(path, ".js"@) {
        "application/javascript"@
    } else if has_suffix(path, ".json"@) {
        "application/json"@
    } else {
        "application/octet-stream"@
    }
}

/// The address of the metadata of a package.
pub open spec fn package_info_url(registry: Seq<char>, name: Seq<char>) -> Seq<char> {
    registry + "/"@ + name + "/meta.json"@
}

/// The address of the metadata of a version.
pub open spec fn version_info_url(registry: Seq<char>, nv: PackageNvView) -> Seq<char> {
    registry + "/"@ + nv.name + "/"@ + nv.version + "_meta.json"@
}

/// The address of a file of a version; `path` begins with `/`.
pub open spec fn module_file_url(registry: Seq<char>, nv: PackageNvView, path: Seq<char>) -> Seq<
    char,
> {
    registry + "/"@ + nv.name + "/"@ + nv.version + path
}

/// The client of the JSR registry: where the registry is.
#[derive(Debug, Clone, PartialEq, Eq)]
pub struct JsrClient {
    pub registry_url: String,
}

impl JsrClient {
    /// A client of the public registry.
    pub fn new() -> (r: JsrClient)
        ensures
            r.registry_url@ == JSR_REGISTRY_URL@,
    {
        JsrClient { registry_url: JSR_REGISTRY_URL.to_owned() }
    }

    /// The address that the metadata of a package is fetched from.
    pub fn get_package_info(&self, name: &str) -> (r: String)
        ensures
            r@ == package_info_url(self.registry_url@, name@),
    {
        let head: String = join3(self.registry_url.as_str(), "/", name);
        join2(head.as_str(), "/meta.json")
    }

    /// The address that the metadata of a version is fetched from.
    pub fn get_package_version_info(&self, nv: &PackageNv) -> (r: String)
        ensures
            r@ == version_info_url(self.registry_url@, nv@),
    {
        let head: String = join3(self.registry_url.as_str(), "/", nv.name.as_str());
        let mid: String = join3(head.as_str(), "/", nv.version.as_str());
        join2(mid.as_str(), "_meta.json")
    }

    /// The address that a file of a version is fetched from, and the
    /// content type to ask for.
    pub fn get_module_file(&self, nv: &PackageNv, path: &str) -> (r: (String, String))
        ensures
            r.0@ == module_file_url(self.registry_url@, nv@, path@),
            r.1@ == accept_for(path@),
    {
        let head: String = join3(self.registry_url.as_str(), "/", nv.name.as_str());
        let mid: String = join3(head.as_str(), "/", nv.version.as_str());
        let url: String = join2(mid.as_str(), path);
        let accept: &str = if str_ends_with(path, ".ts") {
            "application/typescript"
        } else if str_ends_with(path, ".js") {
            "application/javascript"
        } else if str_ends_with(path, ".json") {
            "application/json"
        } else {
            "application/octet-stream"
        };
        (url, accept.to_owned())
    }
}

/// The index of the last `/` of a path, or -1 where it has none.
pub open spec fn last_slash(path: Seq<char>, upto: int) -> int
    decreases upto,
{
    if upto <= 0 {
        -1
    } else if path[upto - 1] == '/' {
        upto - 1
    } else {
        last_slash(path, upto - 1)
    }
}

/// A path without one leading `/`.
pub open spec fn relative(path: Seq<char>) -> Seq<char> {
    if path.len() > 0 && path[0] == '/' {
        path.subrange(1, path.len() as int)
    } else {
        path
    }
}

/// The directory that a file of a version is written into: the directory
/// of the version, and below it what comes before the last `/` of the
/// relative path of the file.
pub open spec fn file_dir(base: Seq<char>, path: Seq<char>) -> Seq<char> {
    let rel = relative(path);
    let cut = last_slash(rel, rel.len() as int);
    if cut <= 0 {
        base
    } else {
        joined(base, rel.subrange(0, cut))
    }
}

/// One file to fetch and where to write it.
#[derive(Debug, Clone, PartialEq, Eq)]
pub struct FileDownload {
    /// The address of the file.
    pub url: String,
    /// The content type to ask for.
    pub accept: String,
    /// The directory to create before writing.
    pub dir: String,
    /// The path to write the file to.
    pub path: String,
}

pub struct FileDownloadView {
    pub url: Seq<char>,
    pub accept: Seq<char>,
    pub dir: Seq<char>,
    pub path: Seq<char>,
}

impl View for FileDownload {
    type V = FileDownloadView;

    open spec fn view(&self) -> FileDownloadView {
        FileDownloadView {
            url: self.url@,
            accept: self.accept@,
            dir: self.dir@,
            path: self.path@,
        }
    }
}

/// The download of one file of the manifest.
pub open spec fn download_of(
    registry: Seq<char>,
    base: Seq<char>,
    nv: PackageNvView,
    path: Seq<char>,
) -> FileDownloadView {
    FileDownloadView {
        url: module_file_url(registry, nv, path),
        accept: accept_for(path),
        dir: file_dir(base, path),
        path: joined(base, relative(path)),
    }
}

/// The export that a subpath asks for: `.` for none, else `./` and the
/// subpath.
pub open spec fn export_key(subpath: Option<Seq<char>>) -> Seq<char> {
    match subpath {
        Some(s) => if s.len() > 0 {
            "./"@ + s
        } else {
            "."@
        },
        None => "."@,
    }
}

/// Where metadata comes from.
#[derive(Debug, Clone, PartialEq, Eq)]
pub enum Lookup {
    /// It is remembered: `known_package_info` or
    /// `known_package_version_info` has it.
    Known,
    /// Read the file at this path and hand over what it holds.
    Read(String),
    /// Fetch this address and hand over what came back.
    Fetch(String),
}

/// What an installation consists of: the files to fetch and the file that
/// the metadata of the version is saved to afterwards.
#[derive(Debug, Clone, PartialEq, Eq)]
pub struct InstallPlan {
    pub files: Vec<FileDownload>,
    pub version_meta: String,
}

/// The manager of the JSR package cache below one root directory.
pub struct JsrPackageManager {
    pub package_root_dir: String,
    pub jsr_client: JsrClient,
    /// The exact version found for each requirement asked so far.
    pub nv_by_req: Memo<Option<String>>,
    /// The metadata of each version asked for so far.
    pub info_by_nv: Memo<Option<JsrVersionInfo>>,
    /// The metadata of each package asked for so far.
    pub info_by_name: Memo<Option<JsrPackageInfo>>,
}

/// The view of optional package metadata.
pub open spec fn opt_info_view(o: Option<&JsrPackageInfo>) -> Option<PackageInfoView> {
    match o {
        Some(i) => Some(i@),
        None => None,
    }
}

/// The message for a requirement that no version answers.
pub open spec fn unanswered_message(req: PackageReqView) -> Seq<char> {
    "Failed to resolve package: "@ + req_text(req)
}

/// The message for a version whose metadata cannot be had.
pub open spec fn no_version_info_message(nv: PackageNvView) -> Seq<char> {
    "Failed to get version info: "@ + at_version(nv.name, nv.version)
}

/// Where making sure that a package is installed stands.
#[derive(Debug, Clone, PartialEq, Eq)]
pub enum EnsureStep {
    /// Get the metadata of the package as the lookup says, and answer with
    /// `ensure_with_info`.
    NeedInfo(Lookup),
    /// Look whether the directory of the version exists, and the file of
    /// its metadata in it, and answer with `ensure_probed`.
    Probe(PackageNv, String, String),
    /// Get the metadata of the version as the lookup says, and answer with
    /// `ensure_with_version_info`.
    NeedVersionInfo(PackageNv, Lookup),
    /// Fetch and write the files of the plan, and answer with
    /// `ensure_downloaded`.
    Download(PackageNv, InstallPlan),
    /// All files are written: save the metadata of the package and of the
    /// version, the latter to this file. The version is then installed.
    Save(PackageNv, String),
    /// The version is installed already.
    Done(PackageNv),
    Failed(LoaderError),
}

/// What is needed to answer a requirement.
#[derive(Debug, Clone, PartialEq, Eq)]
pub enum ReqStep {
    /// The answer is remembered: this version, or none.
    Answer(Option<PackageNv>),
    /// Get the metadata of the package as the lookup says, and call
    /// `req_to_nv` with it.
    NeedInfo(Lookup),
}

/// The answer to a requirement: the one that is remembered, else the one
/// that the metadata gives.
pub open spec fn served(
    remembered: Option<Option<Seq<char>>>,
    req: PackageReqView,
    info: Option<PackageInfoView>,
) -> Option<Seq<char>> {
    match remembered {
        Some(answer) => answer,
        None => answer_of(req, info),
    }
}

/// The version that answers a requirement, given the metadata of the
/// package: none where the metadata could not be had.
pub open spec fn answer_of(req: PackageReqView, info: Option<PackageInfoView>) -> Option<
    Seq<char>,
> {
    match info {
        Some(i) => selected_version(i.versions, req.version_req),
        None => None,
    }
}

impl JsrPackageManager {
    /// The memo tables are sound.
    pub open spec fn wf(&self) -> bool {
        self.nv_by_req.wf() && self.info_by_nv.wf() && self.info_by_name.wf()
    }

    /// The answer remembered for a requirement.
    pub open spec fn remembered(&self, req: PackageReqView) -> Option<Option<String>> {
        self.nv_by_req.recall(at_version(req.name, req.version_req))
    }

    /// The metadata remembered for a package.
    pub open spec fn knows_package(&self, name: Seq<char>) -> Option<Option<JsrPackageInfo>> {
        self.info_by_name.recall(name)
    }

    /// The metadata remembered for a version.
    pub open spec fn knows_version(&self, nv: PackageNvView) -> Option<Option<JsrVersionInfo>> {
        self.info_by_nv.recall(at_version(nv.name, nv.version))
    }

    /// The directory of a version of a package.
    pub open spec fn version_dir(&self, nv: PackageNvView) -> Seq<char> {
        joined(joined(self.package_root_dir@, nv.name), nv.version)
    }

    /// `lookup` says where the metadata of the package comes from: it is
    /// remembered, or the file that keeps it is to be read.
    pub open spec fn is_package_lookup(&self, lookup: Lookup, name: Seq<char>) -> bool {
        match self.knows_package(name) {
            Some(_) => lookup == Lookup::Known,
            None => lookup matches Lookup::Read(path) && path@ == joined(
                joined(self.package_root_dir@, name),
                "meta.json"@,
            ),
        }
    }

    /// `lookup` says where the metadata of the version comes from: it is
    /// remembered, or the file that keeps it is to be read.
    pub open spec fn is_version_lookup(&self, lookup: Lookup, nv: PackageNvView) -> bool {
        match self.knows_version(nv) {
            Some(_) => lookup == Lookup::Known,
            None => lookup matches Lookup::Read(path) && path@ == joined(
                self.version_dir(nv),
                "meta.json"@,
            ),
        }
    }

    /// `step` asks to look at the directory of the version `version` of the
    /// package `name`.
    pub open spec fn is_probe_of(&self, step: EnsureStep, name: Seq<char>, version: Seq<char>)
        -> bool {
        step matches EnsureStep::Probe(nv, dir, meta) && nv.name@ == name && nv.version@ == version
            && dir@ == self.version_dir(nv@) && meta@ == joined(
            self.version_dir(nv@),
            "meta.json"@,
        )
    }

    /// What answering a requirement changes in a manager: nothing but what
    /// is remembered for the requirement, and that only where nothing was
    /// remembered for it.
    pub open spec fn answered(
        &self,
        before: JsrPackageManager,
        req: PackageReqView,
        info: Option<PackageInfoView>,
    ) -> bool {
        &&& forall|k: Seq<char>|
            k != at_version(req.name, req.version_req) ==> self.nv_by_req.recall(k)
                == before.nv_by_req.recall(k)
        &&& before.remembered(req) is Some ==> self.remembered(req) == before.remembered(req)
        &&& before.remembered(req) is None ==> opt_view_of(self.remembered(req)) == Some(
            answer_of(req, info),
        )
        &&& self.info_by_nv == before.info_by_nv
        &&& self.info_by_name == before.info_by_name
        &&& self.package_root_dir == before.package_root_dir
        &&& self.jsr_client == before.jsr_client
    }

    /// A manager for the cache below `<package_root_dir>/jsr` that
    /// remembers nothing.
    pub fn new(package_root_dir: &str) -> (r: JsrPackageManager)
        ensures
            r.wf(),
            r.package_root_dir@ == joined(package_root_dir@, "jsr"@),
            r.jsr_client.registry_url@ == JSR_REGISTRY_URL@,
            forall|k: Seq<char>| r.nv_by_req.recall(k) is None,
            forall|k: Seq<char>| r.info_by_nv.recall(k) is None,
            forall|k: Seq<char>| r.info_by_name.recall(k) is None,
    {
        JsrPackageManager {
            package_root_dir: join_path(package_root_dir, "jsr"),
            jsr_client: JsrClient::new(),
            nv_by_req: Memo::new(),
            info_by_nv: Memo::new(),
            info_by_name: Memo::new(),
        }
    }

    /// The directory of a version of a package, or of the package where no
    /// version is given.
    pub fn compute_package_dir(&self, name: &str, version: Option<&str>) -> (r: String)
        ensures
            r@ == (match version {
                Some(v) => joined(joined(self.package_root_dir@, name@), v@),
                None => joined(self.package_root_dir@, name@),
            }),
    {
        let base: String = join_path(self.package_root_dir.as_str(), name);
        match version {
            Some(v) => join_path(base.as_str(), v),
            None => base,
        }
    }

    /// The answer remembered for a requirement: `None` where the
    /// requirement was not asked before, `Some(None)` where it was and no
    /// version answered it.
    pub fn known_nv(&self, req: &PackageReq) -> (r: Option<Option<PackageNv>>)
        requires
            self.wf(),
        ensures
            match self.nv_by_req.recall(at_version(req.name@, req.version_req@)) {
                None => r is None,
                Some(None) => r == Some(None::<PackageNv>),
                Some(Some(v)) => r matches Some(Some(nv)) && nv.name@ == req.name@ && nv.version@
                    == v@,
            },
    {
        let key: String = req.key();
        match self.nv_by_req.get(key.as_str()) {
            None => None,
            Some(None) => Some(None),
            Some(Some(v)) => Some(Some(PackageNv { name: req.name.clone(), version: v.clone() })),
        }
    }

    /// Says what is needed to answer a requirement: nothing where the
    /// answer is remembered, which is then handed out; else the metadata
    /// of the package, from where `package_info_lookup` says.
    pub fn begin_req(&self, req: &PackageReq) -> (r: ReqStep)
        requires
            self.wf(),
        ensures
            match self.nv_by_req.recall(at_version(req.name@, req.version_req@)) {
                Some(None) => r == ReqStep::Answer(None),
                Some(Some(v)) => r matches ReqStep::Answer(Some(nv)) && nv.name@ == req.name@
                    && nv.version@ == v@,
                None => r matches ReqStep::NeedInfo(lookup) && self.is_package_lookup(
                    lookup,
                    req.name@,
                ),
            },
    {
        match self.known_nv(req) {
            Some(answer) => ReqStep::Answer(answer),
            None => ReqStep::NeedInfo(self.package_info_lookup(req.name.as_str())),
        }
    }

    /// Answers a requirement. An answer that is remembered is handed out
    /// again, whatever the metadata says now, and nothing changes. Else
    /// the answer comes from the metadata of the package and is
    /// remembered: the highest version that is not yanked and meets the
    /// requirement. No version answers where the metadata could not be
    /// had, and none answers a tag.
    pub fn req_to_nv(&mut self, req: &PackageReq, info: Option<&JsrPackageInfo>) -> (r: Option<
        PackageNv,
    >)
        requires
            old(self).wf(),
        ensures
            final(self).wf(),
            match served(opt_view_of(old(self).remembered(req@)), req@, opt_info_view(info)) {
                Some(v) => r matches Some(nv) && nv.name@ == req.name@ && nv.version@ == v,
                None => r is None,
            },
            final(self).answered(*old(self), req@, opt_info_view(info)),
    {
        match self.known_nv(req) {
            Some(answer) => {
                return answer;
            },
            None => {},
        }
        let version: Option<String> = match info {
            Some(i) => select_version(i, req.version_req.as_str()),
            None => None,
        };
        let r: Option<PackageNv> = match &version {
            Some(v) => Some(PackageNv { name: req.name.clone(), version: v.clone() }),
            None => None,
        };
        self.nv_by_req.remember(req.key(), version);
        r
    }

    /// The metadata remembered for a package: `None` where the package was
    /// not asked for before.
    pub fn known_package_info(&self, name: &str) -> (r: Option<&Option<JsrPackageInfo>>)
        requires
            self.wf(),
        ensures
            match r {
                Some(i) => self.info_by_name.recall(name@) == Some(*i),
                None => self.info_by_name.recall(name@) is None,
            },
    {
        self.info_by_name.get(name)
    }

    /// Remembers the metadata of a package, or that it could not be had,
    /// unless either is remembered for the package already.
    pub fn package_info(&mut self, name: &str, info: Option<JsrPackageInfo>)
        requires
            old(self).wf(),
        ensures
            final(self).wf(),
            forall|k: Seq<char>|
                final(self).info_by_name.recall(k) == (if k == name@ && old(self).knows_package(
                    name@,
                ) is None {
                    Some(info)
                } else {
                    old(self).info_by_name.recall(k)
                }),
            final(self).nv_by_req == old(self).nv_by_req,
            final(self).info_by_nv == old(self).info_by_nv,
            final(self).package_root_dir == old(self).package_root_dir,
            final(self).jsr_client == old(self).jsr_client,
    {
        self.info_by_name.remember(name.to_owned(), info);
    }

    /// The metadata remembered for a version: `None` where the version was
    /// not asked for before.
    pub fn known_package_version_info(&self, nv: &PackageNv) -> (r: Option<
        &Option<JsrVersionInfo>,
    >)
        requires
            self.wf(),
        ensures
            match r {
                Some(i) => self.info_by_nv.recall(at_version(nv.name@, nv.version@)) == Some(*i),
                None => self.info_by_nv.recall(at_version(nv.name@, nv.version@)) is None,
            },
    {
        let key: String = nv.to_string();
        self.info_by_nv.get(key.as_str())
    }

    /// Remembers the metadata of a version, or that it could not be had,
    /// unless either is remembered for the version already.
    pub fn package_version_info(&mut self, nv: &PackageNv, info: Option<JsrVersionInfo>)
        requires
            old(self).wf(),
        ensures
            final(self).wf(),
            forall|k: Seq<char>|
                final(self).info_by_nv.recall(k) == (if k == at_version(nv.name@, nv.version@)
                    && old(self).info_by_nv.recall(at_version(nv.name@, nv.version@)) is None {
                    Some(info)
                } else {
                    old(self).info_by_nv.recall(k)
                }),
            final(self).nv_by_req == old(self).nv_by_req,
            final(self).info_by_name == old(self).info_by_name,
            final(self).package_root_dir == old(self).package_root_dir,
            final(self).jsr_client == old(self).jsr_client,
    {
        self.info_by_nv.remember(nv.to_string(), info);
    }

    /// The file that the metadata of a package is kept in.
    pub fn get_cached_package_info(&self, name: &str) -> (r: String)
        ensures
            r@ == joined(joined(self.package_root_dir@, name@), "meta.json"@),
    {
        let dir: String = self.compute_package_dir(name, None);
        join_path(dir.as_str(), "meta.json")
    }

    /// The file that the metadata of a package is saved to: that of the
    /// package `@<scope>/<name>`.
    pub fn save_package_info(&self, info: &JsrPackageInfo) -> (r: String)
        ensures
            r@ == joined(
                joined(self.package_root_dir@, "@"@ + info.scope@ + "/"@ + info.name@),
                "meta.json"@,
            ),
    {
        let head: String = join3("@", info.scope.as_str(), "/");
        let name: String = join2(head.as_str(), info.name.as_str());
        self.get_cached_package_info(name.as_str())
    }

    /// The file that the metadata of a version is kept in and saved to.
    pub fn get_cached_package_version_info(&self, nv: &PackageNv) -> (r: String)
        ensures
            r@ == joined(
                joined(joined(self.package_root_dir@, nv.name@), nv.version@),
                "meta.json"@,
            ),
    {
        let dir: String = self.compute_package_dir(nv.name.as_str(), Some(nv.version.as_str()));
        join_path(dir.as_str(), "meta.json")
    }

    /// Tells whether a version is installed: its directory is there, with
    /// the metadata of the version in it.
    pub fn is_package_installed(&self, dir_exists: bool, meta_exists: bool) -> (r: bool)
        ensures
            r == (dir_exists && meta_exists),
    {
        dir_exists && meta_exists
    }

    /// The files to fetch for a version, one for each path of its
    /// manifest, in the order of the manifest.
    pub fn download_package_files(&self, nv: &PackageNv, version_info: &JsrVersionInfo) -> (r: Vec<
        FileDownload,
    >)
        ensures
            r.len() == version_info.manifest.len(),
            forall|i: int|
                0 <= i < r.len() ==> (#[trigger] r@[i])@ == download_of(
                    self.jsr_client.registry_url@,
                    joined(joined(self.package_root_dir@, nv.name@), nv.version@),
                    nv@,
                    version_info.manifest@[i]@,
                ),
    {
        let base: String = self.compute_package_dir(nv.name.as_str(), Some(nv.version.as_str()));
        let mut out: Vec<FileDownload> = Vec::new();
        let mut i: usize = 0;
        while i < version_info.manifest.len()
            invariant
                i <= version_info.manifest.len(),
                out.len() == i,
                base@ == joined(joined(self.package_root_dir@, nv.name@), nv.version@),
                forall|k: int|
                    0 <= k < i ==> (#[trigger] out@[k])@ == download_of(
                        self.jsr_client.registry_url@,
                        base@,
                        nv@,
                        version_info.manifest@[k]@,
                    ),
            decreases version_info.manifest.len() - i,
        {
            let path: &str = version_info.manifest[i].as_str();
            let (url, accept) = self.jsr_client.get_module_file(nv, path);
            let rel: String = relative_path(path);
            let dir: String = file_directory(base.as_str(), path);
            let target: String = join_path(base.as_str(), rel.as_str());
            out.push(FileDownload { url, accept, dir, path: target });
            i = i + 1;
        }
        out
    }

    /// Begins the installation of what a requirement asks for: the exact
    /// package that answers it, as `req_to_nv` says, or the failure to
    /// resolve the requirement.
    pub fn ensure_package(&mut self, package_req: &PackageReq, info: Option<&JsrPackageInfo>) -> (r:
        Result<PackageNv, LoaderError>)
        requires
            old(self).wf(),
        ensures
            final(self).wf(),
            match served(
                opt_view_of(old(self).remembered(package_req@)),
                package_req@,
                opt_info_view(info),
            ) {
                Some(v) => r matches Ok(nv) && nv.name@ == package_req.name@ && nv.version@ == v,
                None => r matches Err(LoaderError::ResolutionFailed(m)) && m@
                    == unanswered_message(package_req@),
            },
            final(self).answered(*old(self), package_req@, opt_info_view(info)),
    {
        match self.req_to_nv(package_req, info) {
            Some(nv) => Ok(nv),
            None => {
                let text: String = package_req.to_string();
                Err(
                    LoaderError::ResolutionFailed(
                        join2("Failed to resolve package: ", text.as_str()),
                    ),
                )
            },
        }
    }

    /// What has to be done so that a version is installed: nothing where it
    /// is installed already; else the files of its manifest are fetched
    /// and the metadata saved. Without the metadata of the version nothing
    /// can be installed.
    pub fn plan_install(
        &self,
        nv: &PackageNv,
        installed: bool,
        version_info: Option<&JsrVersionInfo>,
    ) -> (r: Result<Option<InstallPlan>, LoaderError>)
        ensures
            installed ==> r == Ok::<Option<InstallPlan>, LoaderError>(None),
            !installed && version_info is None ==> (r matches Err(
                LoaderError::ResolutionFailed(m),
            ) && m@ == "Failed to get version info: "@ + at_version(nv.name@, nv.version@)),
            !installed && version_info is Some ==> (r matches Ok(Some(plan)) && plan.version_meta@
                == joined(
                joined(joined(self.package_root_dir@, nv.name@), nv.version@),
                "meta.json"@,
            ) && plan.files.len() == version_info->0.manifest.len() && forall|i: int|
                0 <= i < plan.files.len() ==> (#[trigger] plan.files@[i])@ == download_of(
                    self.jsr_client.registry_url@,
                    joined(joined(self.package_root_dir@, nv.name@), nv.version@),
                    nv@,
                    version_info->0.manifest@[i]@,
                )),
    {
        if installed {
            return Ok(None);
        }
        match version_info {
            Some(info) => Ok(
                Some(
                    InstallPlan {
                        files: self.download_package_files(nv, info),
                        version_meta: self.get_cached_package_version_info(nv),
                    },
                ),
            ),
            None => {
                let text: String = nv.to_string();
                Err(
                    LoaderError::ResolutionFailed(
                        join2("Failed to get version info: ", text.as_str()),
                    ),
                )
            },
        }
    }

    /// Says where the metadata of a package comes from: it is remembered,
    /// or the file that keeps it is to be read.
    pub fn package_info_lookup(&self, name: &str) -> (r: Lookup)
        requires
            self.wf(),
        ensures
            match self.info_by_name.recall(name@) {
                Some(_) => r == Lookup::Known,
                None => r matches Lookup::Read(path) && path@ == joined(
                    joined(self.package_root_dir@, name@),
                    "meta.json"@,
                ),
            },
    {
        match self.info_by_name.get(name) {
            Some(_) => Lookup::Known,
            None => Lookup::Read(self.get_cached_package_info(name)),
        }
    }

    /// Takes what the file of a package held. What was read is remembered,
    /// unless metadata is remembered for the package already; where
    /// nothing could be read, the registry is to be asked.
    pub fn package_info_from_disk(&mut self, name: &str, cached: Option<JsrPackageInfo>) -> (r:
        Lookup)
        requires
            old(self).wf(),
        ensures
            final(self).wf(),
            match cached {
                Some(_) => r == Lookup::Known,
                None => r matches Lookup::Fetch(url) && url@ == package_info_url(
                    old(self).jsr_client.registry_url@,
                    name@,
                ),
            },
            forall|k: Seq<char>|
                final(self).info_by_name.recall(k) == (if k == name@ && cached is Some && old(
                    self,
                ).knows_package(name@) is None {
                    Some(cached)
                } else {
                    old(self).info_by_name.recall(k)
                }),
            final(self).nv_by_req == old(self).nv_by_req,
            final(self).info_by_nv == old(self).info_by_nv,
            final(self).package_root_dir == old(self).package_root_dir,
            final(self).jsr_client == old(self).jsr_client,
    {
        match cached {
            Some(info) => {
                self.info_by_name.remember(name.to_owned(), Some(info));
                Lookup::Known
            },
            None => Lookup::Fetch(self.jsr_client.get_package_info(name)),
        }
    }

    /// Says where the metadata of a version comes from: it is remembered,
    /// or the file that keeps it is to be read.
    pub fn package_version_info_lookup(&self, nv: &PackageNv) -> (r: Lookup)
        requires
            self.wf(),
        ensures
            match self.info_by_nv.recall(at_version(nv.name@, nv.version@)) {
                Some(_) => r == Lookup::Known,
                None => r matches Lookup::Read(path) && path@ == joined(
                    joined(joined(self.package_root_dir@, nv.name@), nv.version@),
                    "meta.json"@,
                ),
            },
    {
        let key: String = nv.to_string();
        match self.info_by_nv.get(key.as_str()) {
            Some(_) => Lookup::Known,
            None => Lookup::Read(self.get_cached_package_version_info(nv)),
        }
    }

    /// Takes what the file of a version held. What was read is remembered,
    /// unless metadata is remembered for the version already; where
    /// nothing could be read, the registry is to be asked.
    pub fn package_version_info_from_disk(&mut self, nv: &PackageNv, cached: Option<JsrVersionInfo>)
        -> (r: Lookup)
        requires
            old(self).wf(),
        ensures
            final(self).wf(),
            match cached {
                Some(_) => r == Lookup::Known,
                None => r matches Lookup::Fetch(url) && url@ == version_info_url(
                    old(self).jsr_client.registry_url@,
                    nv@,
                ),
            },
            forall|k: Seq<char>|
                final(self).info_by_nv.recall(k) == (if k == at_version(nv.name@, nv.version@)
                    && cached is Some && old(self).info_by_nv.recall(
                    at_version(nv.name@, nv.version@),
                ) is None {
                    Some(cached)
                } else {
                    old(self).info_by_nv.recall(k)
                }),
            final(self).nv_by_req == old(self).nv_by_req,
            final(self).info_by_name == old(self).info_by_name,
            final(self).package_root_dir == old(self).package_root_dir,
            final(self).jsr_client == old(self).jsr_client,
    {
        match cached {
            Some(info) => {
                self.info_by_nv.remember(nv.to_string(), Some(info));
                Lookup::Known
            },
            None => Lookup::Fetch(self.jsr_client.get_package_version_info(nv)),
        }
    }

    /// The step that looks at the directory of a version.
    fn probe_step(&self, nv: PackageNv) -> (r: EnsureStep)
        ensures
            self.is_probe_of(r, nv.name@, nv.version@),
    {
        let dir: String = self.compute_package_dir(nv.name.as_str(), Some(nv.version.as_str()));
        let meta: String = self.get_cached_package_version_info(&nv);
        EnsureStep::Probe(nv, dir, meta)
    }

    /// Begins to make sure that what a requirement asks for is installed.
    /// A remembered answer decides at once: the version is looked for on
    /// disk, or the requirement cannot be resolved. Else the metadata of
    /// the package is needed.
    pub fn begin_ensure(&self, req: &PackageReq) -> (r: EnsureStep)
        requires
            self.wf(),
        ensures
            match self.remembered(req@) {
                Some(Some(v)) => self.is_probe_of(r, req.name@, v@),
                Some(None) => r matches EnsureStep::Failed(LoaderError::ResolutionFailed(m)) && m@
                    == unanswered_message(req@),
                None => r matches EnsureStep::NeedInfo(lookup) && self.is_package_lookup(
                    lookup,
                    req.name@,
                ),
            },
    {
        match self.begin_req(req) {
            ReqStep::Answer(Some(nv)) => self.probe_step(nv),
            ReqStep::Answer(None) => {
                let text: String = req.to_string();
                EnsureStep::Failed(
                    LoaderError::ResolutionFailed(
                        join2("Failed to resolve package: ", text.as_str()),
                    ),
                )
            },
            ReqStep::NeedInfo(lookup) => EnsureStep::NeedInfo(lookup),
        }
    }

    /// Takes the metadata of the package, or that it could not be had. The
    /// version that answers the requirement is looked for on disk next;
    /// without one the requirement cannot be resolved.
    pub fn ensure_with_info(&mut self, req: &PackageReq, info: Option<&JsrPackageInfo>) -> (r:
        EnsureStep)
        requires
            old(self).wf(),
        ensures
            final(self).wf(),
            match served(opt_view_of(old(self).remembered(req@)), req@, opt_info_view(info)) {
                Some(v) => old(self).is_probe_of(r, req.name@, v),
                None => r matches EnsureStep::Failed(LoaderError::ResolutionFailed(m)) && m@
                    == unanswered_message(req@),
            },
            final(self).answered(*old(self), req@, opt_info_view(info)),
    {
        match self.ensure_package(req, info) {
            Ok(nv) => self.probe_step(nv),
            Err(e) => EnsureStep::Failed(e),
        }
    }

    /// Takes what is on disk. A version whose directory is there with its
    /// metadata is installed. For any other the metadata of the version is
    /// needed.
    pub fn ensure_probed(&self, nv: PackageNv, dir_exists: bool, meta_exists: bool) -> (r:
        EnsureStep)
        requires
            self.wf(),
        ensures
            if dir_exists && meta_exists {
                r == EnsureStep::Done(nv)
            } else {
                r matches EnsureStep::NeedVersionInfo(n, lookup) && n == nv
                    && self.is_version_lookup(lookup, nv@)
            },
    {
        if self.is_package_installed(dir_exists, meta_exists) {
            EnsureStep::Done(nv)
        } else {
            let lookup: Lookup = self.package_version_info_lookup(&nv);
            EnsureStep::NeedVersionInfo(nv, lookup)
        }
    }

    /// Takes the metadata of the version, or that it could not be had.
    /// With it the files of its manifest are fetched; without it nothing
    /// can be installed.
    pub fn ensure_with_version_info(&self, nv: PackageNv, info: Option<&JsrVersionInfo>) -> (r:
        EnsureStep)
        ensures
            match info {
                None => r matches EnsureStep::Failed(LoaderError::ResolutionFailed(m)) && m@
                    == no_version_info_message(nv@),
                Some(i) => r matches EnsureStep::Download(n, plan) && n == nv
                    && plan.version_meta@ == joined(self.version_dir(nv@), "meta.json"@)
                    && plan.files.len() == i.manifest.len() && forall|k: int|
                    0 <= k < plan.files.len() ==> (#[trigger] plan.files@[k])@ == download_of(
                        self.jsr_client.registry_url@,
                        self.version_dir(nv@),
                        nv@,
                        i.manifest@[k]@,
                    ),
            },
    {
        match self.plan_install(&nv, false, info) {
            Ok(Some(plan)) => EnsureStep::Download(nv, plan),
            Ok(None) => EnsureStep::Done(nv),
            Err(e) => EnsureStep::Failed(e),
        }
    }

    /// The file that a subpath of a version stands for: the target of the
    /// export `.` or `./<subpath>` below the directory of the version.
    pub fn resolve_specifier_to_file_path(
        &self,
        nv: &PackageNv,
        version_info: &JsrVersionInfo,
        subpath: &Option<String>,
    ) -> (r: Result<String, LoaderError>)
        ensures
            match value_of(version_info@.exports, export_key(opt_view(*subpath))) {
                Some(target) => r matches Ok(path) && path@ == joined(
                    joined(joined(self.package_root_dir@, nv.name@), nv.version@),
                    target,
                ),
                None => r matches Err(LoaderError::ResolutionFailed(m)) && m@
                    == "Export not found: "@ + export_key(opt_view(*subpath)),
            },
    {
        let key: String = match subpath {
            Some(s) => {
                if s.as_str().unicode_len() > 0 {
                    join2("./", s.as_str())
                } else {
                    ".".to_owned()
                }
            },
            None => ".".to_owned(),
        };
        match lookup(&version_info.exports, key.as_str()) {
            Some(target) => {
                let dir: String = self.compute_package_dir(
                    nv.name.as_str(),
                    Some(nv.version.as_str()),
                );
                Ok(join_path(dir.as_str(), target.as_str()))
            },
            None => Err(LoaderError::ResolutionFailed(join2("Export not found: ", key.as_str()))),
        }
    }
}

/// The views inside what a memo of versions remembers.
pub open spec fn opt_view_of(o: Option<Option<String>>) -> Option<Option<Seq<char>>> {
    match o {
        Some(v) => Some(opt_view(v)),
        None => None,
    }
}

/// The result of an installation from the results of its downloads: a
/// single failure fails the installation, with the message of the first.
pub open spec fn first_failure(results: Seq<Option<String>>, from: int) -> Option<Seq<char>>
    decreases results.len() - from,
{
    if from < 0 || from >= results.len() {
        None
    } else {
        match results[from] {
            Some(m) => Some(m@),
            None => first_failure(results, from + 1),
        }
    }
}

/// Tells whether an installation succeeded, given for each file the
/// message of its failure, if it failed.
pub fn install_result(results: &Vec<Option<String>>) -> (r: Result<(), LoaderError>)
    ensures
        match first_failure(results@, 0) {
            Some(m) => r matches Err(LoaderError::DownloadFailed(e)) && e@ == m,
            None => r is Ok,
        },
{
    let mut i: usize = 0;
    while i < results.len()
        invariant
            i <= results.len(),
            first_failure(results@, 0) == first_failure(results@, i as int),
        decreases results.len() - i,
    {
        match &results[i] {
            Some(m) => {
                return Err(LoaderError::DownloadFailed(m.clone()));
            },
            None => {},
        }
        i = i + 1;
    }
    Ok(())
}

/// Takes the results of the downloads of a plan, for each file the
/// message of its failure, if it failed. A single failure fails the
/// installation; else the metadata is saved.
pub fn ensure_downloaded(nv: PackageNv, plan: InstallPlan, results: &Vec<Option<String>>) -> (r:
    EnsureStep)
    ensures
        match first_failure(results@, 0) {
            Some(m) => r matches EnsureStep::Failed(LoaderError::DownloadFailed(e)) && e@ == m,
            None => r == EnsureStep::Save(nv, plan.version_meta),
        },
{
    match install_result(results) {
        Ok(_) => EnsureStep::Save(nv, plan.version_meta),
        Err(e) => EnsureStep::Failed(e),
    }
}

/// Accepts the file of a specifier if it is there.
pub fn confirm_module(specifier: &str, path: String, exists: bool) -> (r: Result<
    String,
    LoaderError,
>)
    ensures
        exists ==> (r matches Ok(p) && p@ == path@),
        !exists ==> (r matches Err(LoaderError::ModuleNotFound(m)) && m@ == "Module not found: "@
            + specifier@),
{
    if exists {
        Ok(path)
    } else {
        Err(LoaderError::ModuleNotFound(join2("Module not found: ", specifier)))
    }
}

/// A path without one leading `/`.
pub fn relative_path(path: &str) -> (r: String)
    ensures
        r@ == relative(path@),
{
    let v: Vec<char> = chars_of(path);
    if v.len() > 0 && v[0] == '/' {
        slice_text(path, 1, v.len())
    } else {
        path.to_owned()
    }
}

/// The directory that a file of a version is written into.
pub fn file_directory(base: &str, path: &str) -> (r: String)
    ensures
        r@ == file_dir(base@, path@),
{
    let rel: String = relative_path(path);
    let v: Vec<char> = chars_of(rel.as_str());
    let mut i: usize = v.len();
    while i > 0 && v[i - 1] != '/'
        invariant
            i <= v.len(),
            last_slash(v@, v.len() as int) == last_slash(v@, i as int),
        decreases i,
    {
        i = i - 1;
    }
    if i <= 1 {
        base.to_owned()
    } else {
        let parent: String = slice_text(rel.as_str(), 0, i - 1);
        join_path(base, parent.as_str())
    }
}

} // verus!
