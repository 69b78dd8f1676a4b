//! Installing an npm package with the packages that it depends on.
//!
//! An installation is a job that is told what each piece of outside work
//! came to and answers with the next piece of work. The packages are visited
//! breadth first from the one asked for. For each, the registry's document
//! is fetched and the version resolved; the package is then installed unless
//! it is installed already; its dependencies are queued, each request once.
//! A failure of the package asked for ends the job with that error. A
//! failure of a dependency is recorded and the job goes on.

use vstd::prelude::*;
use vstd::string::*;

use crate::entries::{entries_view, merge_dependencies, merged_list, Entry, EntryView};
use crate::error::{NpmErrorKind, NpmErrorView, NpmPackageError};
use crate::npm::{
    contains_key, entry_path, install_key, installed_on_disk, key_of, key_set,
    lemma_key_set_push, lemma_resolves_to_installed_main, located, main_entry, package_dir_of,
    ticket_for, InstallTicket, Located, ManifestView, NpmPackage, NpmPackageManager,
    NpmPackageView, PackageLocationView, PackageOnDisk,
};
use crate::npm_registry::{
    resolve_version, resolved, through_tags, unresolved_message, NpmPackageInfo,
    NpmPackageInfoView,
};
use crate::paths::joined;
use crate::specifier::{is_package_name, is_version_text, npm_prefix};
use crate::semver::{normal_version, normalize_version};
use crate::text::{join2, join3};

verus! {

/// A package that is asked for: its name and the version or range wanted.
#[derive(Debug, Clone, PartialEq, Eq)]
pub struct Pending {
    pub name: String,
    pub version: String,
}

pub struct PendingView {
    pub name: Seq<char>,
    pub version: Seq<char>,
}

impl View for Pending {
    type V = PendingView;

    open spec fn view(&self) -> PendingView {
        PendingView { name: self.name@, version: self.version@ }
    }
}

/// A dependency that could not be installed, and why.
#[derive(Debug, Clone, PartialEq, Eq)]
pub struct InstallFailure {
    pub name: String,
    pub version: String,
    pub error: NpmPackageError,
}

pub struct FailureView {
    pub name: Seq<char>,
    pub version: Seq<char>,
    pub error: NpmErrorView,
}

impl View for InstallFailure {
    type V = FailureView;

    open spec fn view(&self) -> FailureView {
        FailureView { name: self.name@, version: self.version@, error: self.error@ }
    }
}

/// What a job carries from step to step: the request under way, the
/// requests still to come, the keys of all requests made so far, the
/// package asked for once it is installed, and the failures so far.
#[derive(Debug, Clone, PartialEq, Eq)]
pub struct JobCore {
    pub current: Pending,
    pub queue: Vec<Pending>,
    pub visited: Vec<String>,
    pub root: Option<NpmPackage>,
    pub failures: Vec<InstallFailure>,
}

pub struct CoreView {
    pub current: PendingView,
    pub queue: Seq<PendingView>,
    pub visited: Set<Seq<char>>,
    pub root: Option<NpmPackageView>,
    pub failures: Seq<FailureView>,
}

/// The view of an optional package.
pub open spec fn opt_package_view(o: Option<NpmPackage>) -> Option<NpmPackageView> {
    match o {
        Some(p) => Some(p@),
        None => None,
    }
}

impl View for JobCore {
    type V = CoreView;

    open spec fn view(&self) -> CoreView {
        CoreView {
            current: self.current@,
            queue: self.queue@.map_values(|p: Pending| p@),
            visited: key_set(self.visited@),
            root: opt_package_view(self.root),
            failures: self.failures@.map_values(|f: InstallFailure| f@),
        }
    }
}

/// A resolved request: the exact version, where its archive is, where the
/// package goes, and what it depends on.
#[derive(Debug, Clone, PartialEq, Eq)]
pub struct Candidate {
    pub name: String,
    pub version: String,
    pub tarball: String,
    pub package_dir: String,
    pub dependencies: Vec<Entry>,
}

pub struct CandidateView {
    pub name: Seq<char>,
    pub version: Seq<char>,
    pub tarball: Seq<char>,
    pub package_dir: Seq<char>,
    pub dependencies: Seq<EntryView>,
}

impl View for Candidate {
    type V = CandidateView;

    open spec fn view(&self) -> CandidateView {
        CandidateView {
            name: self.name@,
            version: self.version@,
            tarball: self.tarball@,
            package_dir: self.package_dir@,
            dependencies: entries_view(self.dependencies@),
        }
    }
}

/// The job waits for the registry's document of `core.current.name`.
#[derive(Debug, Clone, PartialEq, Eq)]
pub struct AwaitInfo {
    pub core: JobCore,
}

/// The job waits to be told what is on disk at `candidate.package_dir`.
#[derive(Debug, Clone, PartialEq, Eq)]
pub struct AwaitProbe {
    pub core: JobCore,
    pub candidate: Candidate,
}

/// The job waits for the archive at `candidate.tarball` to be downloaded
/// and unpacked into `candidate.package_dir`.
#[derive(Debug, Clone, PartialEq, Eq)]
pub struct AwaitInstall {
    pub core: JobCore,
    pub candidate: Candidate,
}

/// How a job ended: the package asked for, or the error that kept it from
/// being installed; and the dependencies that failed on the way.
#[derive(Debug, PartialEq, Eq)]
pub struct InstallOutcome {
    pub result: Result<NpmPackage, NpmPackageError>,
    pub failures: Vec<InstallFailure>,
}

pub struct OutcomeView {
    pub result: Result<NpmPackageView, NpmErrorView>,
    pub failures: Seq<FailureView>,
}

impl View for InstallOutcome {
    type V = OutcomeView;

    open spec fn view(&self) -> OutcomeView {
        OutcomeView {
            result: match self.result {
                Ok(p) => Ok(p@),
                Err(e) => Err(e@),
            },
            failures: self.failures@.map_values(|f: InstallFailure| f@),
        }
    }
}

/// The next piece of outside work.
#[derive(Debug, PartialEq, Eq)]
pub enum InstallStep {
    /// Fetch the registry's document of the current package and answer with
    /// `on_info`.
    FetchInfo(AwaitInfo),
    /// Look at the package directory and answer with `on_probe`.
    Probe(AwaitProbe),
    /// Another caller installs this package. Wait until it has finished,
    /// look at the package directory and answer with `on_probe`.
    Waiting(AwaitProbe),
    /// Download and unpack the archive and answer with `on_installed`.
    Install(AwaitInstall),
    /// The job has ended.
    Done(InstallOutcome),
}

pub enum StepView {
    FetchInfo(CoreView),
    Probe(CoreView, CandidateView),
    Waiting(CoreView, CandidateView),
    Install(CoreView, CandidateView),
    Done(OutcomeView),
}

impl View for InstallStep {
    type V = StepView;

    open spec fn view(&self) -> StepView {
        match *self {
            InstallStep::FetchInfo(s) => StepView::FetchInfo(s.core@),
            InstallStep::Probe(s) => StepView::Probe(s.core@, s.candidate@),
            InstallStep::Waiting(s) => StepView::Waiting(s.core@, s.candidate@),
            InstallStep::Install(s) => StepView::Install(s.core@, s.candidate@),
            InstallStep::Done(o) => StepView::Done(o@),
        }
    }
}

/// The queue and the requests made, after the first `upto` dependencies
/// have been looked at: a dependency is queued unless the same request was
/// made before.
pub open spec fn enqueued(
    queue: Seq<PendingView>,
    visited: Set<Seq<char>>,
    dependencies: Seq<EntryView>,
    upto: int,
) -> (Seq<PendingView>, Set<Seq<char>>)
    decreases upto,
{
    if upto <= 0 {
        (queue, visited)
    } else {
        let (q, v) = enqueued(queue, visited, dependencies, upto - 1);
        let d = dependencies[upto - 1];
        let key = key_of(d.key, d.value);
        if v.contains(key) {
            (q, v)
        } else {
            (q.push(PendingView { name: d.key, version: d.value }), v.insert(key))
        }
    }
}

/// The step that follows the end of the current request, once the package
/// asked for is installed: the next request of the queue, or the end of
/// the job with that package.
pub open spec fn advanced(core: CoreView) -> StepView
    recommends
        core.root is Some,
{
    if core.queue.len() == 0 {
        StepView::Done(OutcomeView { result: Ok(core.root->0), failures: core.failures })
    } else {
        StepView::FetchInfo(
            CoreView {
                current: core.queue[0],
                queue: core.queue.drop_first(),
                visited: core.visited,
                root: core.root,
                failures: core.failures,
            },
        )
    }
}

/// The step that follows a failure of the current request: the end of the
/// job where the package asked for failed; else the failure is recorded.
pub open spec fn failed(core: CoreView, error: NpmErrorView) -> StepView {
    match core.root {
        None => StepView::Done(OutcomeView { result: Err(error), failures: core.failures }),
        Some(_) => advanced(
            CoreView {
                current: core.current,
                queue: core.queue,
                visited: core.visited,
                root: core.root,
                failures: core.failures.push(
                    FailureView {
                        name: core.current.name,
                        version: core.current.version,
                        error,
                    },
                ),
            },
        ),
    }
}

/// The step that follows the installation of the current request: the
/// first package installed is the one asked for; the dependencies are
/// queued.
pub open spec fn completed(core: CoreView, candidate: CandidateView) -> StepView {
    let (queue, visited) = enqueued(
        core.queue,
        core.visited,
        candidate.dependencies,
        candidate.dependencies.len() as int,
    );
    advanced(
        CoreView {
            current: core.current,
            queue,
            visited,
            root: match core.root {
                Some(p) => Some(p),
                None => Some(
                    NpmPackageView {
                        name: candidate.name,
                        version: candidate.version,
                        content_path: candidate.package_dir,
                    },
                ),
            },
            failures: core.failures,
        },
    )
}

/// The message for a version that the registry resolves to and that is no
/// exact version.
pub open spec fn not_exact_message(name: Seq<char>, version: Seq<char>) -> Seq<char> {
    "version info not found: "@ + name + "@"@ + version
}

/// The version that a request asks for: none where the text is empty.
pub open spec fn wanted(version: Seq<char>) -> Option<Seq<char>> {
    if version.len() == 0 {
        None
    } else {
        Some(version)
    }
}

/// What the registry's document makes of the current request: the
/// candidate, or the error.
pub open spec fn candidate_of(root_dir: Seq<char>, request: PendingView, info: NpmPackageInfoView)
    -> Result<CandidateView, NpmErrorView> {
    match resolved(info, wanted(request.version)) {
        Err(why) => Err(
            NpmErrorView {
                kind: NpmErrorKind::ResolutionFailed,
                detail: unresolved_message(request.name, why),
            },
        ),
        Ok((version, tarball, index)) => match normal_version(version) {
            None => Err(
                NpmErrorView {
                    kind: NpmErrorKind::ResolutionFailed,
                    detail: not_exact_message(request.name, version),
                },
            ),
            Some(exact) => Ok(
                CandidateView {
                    name: request.name,
                    version: exact,
                    tarball,
                    package_dir: package_dir_of(root_dir, request.name, exact),
                    dependencies: merged_list(
                        info.versions[index].dependencies,
                        info.versions[index].optional_dependencies,
                    ),
                },
            ),
        },
    }
}

/// The step that follows the arrival of the registry's document, or of the
/// message that it could not be had.
pub open spec fn after_info(
    core: CoreView,
    root_dir: Seq<char>,
    info: Result<NpmPackageInfoView, Seq<char>>,
) -> StepView {
    match info {
        Err(m) => failed(core, NpmErrorView { kind: NpmErrorKind::ResolutionFailed, detail: m }),
        Ok(document) => match candidate_of(root_dir, core.current, document) {
            Err(e) => failed(core, e),
            Ok(c) => StepView::Probe(core, c),
        },
    }
}

/// The step that follows a look at the package directory.
pub open spec fn after_probe(
    core: CoreView,
    candidate: CandidateView,
    under_way: Set<Seq<char>>,
    on_disk: PackageOnDisk,
) -> StepView {
    match ticket_for(under_way, candidate.name, candidate.version, on_disk) {
        InstallTicket::AlreadyInstalled => completed(core, candidate),
        InstallTicket::Wait => StepView::Waiting(core, candidate),
        InstallTicket::Start => StepView::Install(core, candidate),
    }
}

/// The message for a package that is not on disk in its version after it
/// was unpacked.
pub open spec fn not_unpacked_message(name: Seq<char>, version: Seq<char>) -> Seq<char> {
    "package was not unpacked: "@ + name + "@"@ + version
}

/// The download and unpacking succeeded: it reported no error, and the
/// package directory now holds a manifest with exactly the version.
pub open spec fn unpacked(candidate: CandidateView, result: Result<PackageOnDisk, NpmErrorView>)
    -> bool {
    result matches Ok(on_disk) && installed_on_disk(on_disk, candidate.version)
}

/// The step that follows the end of the download and unpacking, given the
/// error or what is on disk in the package directory afterwards.
pub open spec fn after_install(
    core: CoreView,
    candidate: CandidateView,
    result: Result<PackageOnDisk, NpmErrorView>,
) -> StepView {
    match result {
        Ok(on_disk) => if installed_on_disk(on_disk, candidate.version) {
            completed(core, candidate)
        } else {
            failed(
                core,
                NpmErrorView {
                    kind: NpmErrorKind::ExtractionFailed,
                    detail: not_unpacked_message(candidate.name, candidate.version),
                },
            )
        },
        Err(e) => failed(core, e),
    }
}

/// The view of a document or of the message in its place.
pub open spec fn info_view(info: Result<NpmPackageInfo, String>) -> Result<
    NpmPackageInfoView,
    Seq<char>,
> {
    match info {
        Ok(i) => Ok(i@),
        Err(m) => Err(m@),
    }
}

/// The view of the end of an installation.
pub open spec fn result_view(result: Result<PackageOnDisk, NpmPackageError>) -> Result<
    PackageOnDisk,
    NpmErrorView,
> {
    match result {
        Ok(d) => Ok(d),
        Err(e) => Err(e@),
    }
}

/// The job that installs `name` in `version` with its dependencies, at its
/// first step.
pub open spec fn started(name: Seq<char>, version: Seq<char>) -> CoreView {
    CoreView {
        current: PendingView { name, version },
        queue: Seq::empty(),
        visited: Set::empty().insert(key_of(name, version)),
        root: None,
        failures: Seq::empty(),
    }
}

/// Begins the installation of `name` in `version` with everything it
/// depends on. The version is an exact version or a dist-tag; the empty
/// text stands for the dist-tag `latest`.
pub fn install_package_with_deps(name: &str, version: &str) -> (r: InstallStep)
    ensures
        r@ == StepView::FetchInfo(started(name@, version@)),
{
    let mut visited: Vec<String> = Vec::new();
    visited.push(install_key(name, version));
    proof {
        lemma_key_set_push(Seq::<String>::empty(), visited@[0]);
        assert(visited@ =~= Seq::<String>::empty().push(visited@[0]));
        assert(key_set(Seq::<String>::empty()) =~= Set::<Seq<char>>::empty());
    }
    let core = JobCore {
        current: Pending { name: name.to_owned(), version: version.to_owned() },
        queue: Vec::new(),
        visited,
        root: None,
        failures: Vec::new(),
    };
    assert(core@.queue =~= Seq::<PendingView>::empty());
    assert(core@.failures =~= Seq::<FailureView>::empty());
    InstallStep::FetchInfo(AwaitInfo { core })
}

/// Goes on to the next request of the queue, or ends the job.
fn advance(core: JobCore) -> (r: InstallStep)
    requires
        core.root is Some,
    ensures
        r@ == advanced(core@),
{
    let mut core = core;
    let ghost before = core@;
    if core.queue.len() == 0 {
        let package: NpmPackage = core.root.unwrap();
        InstallStep::Done(InstallOutcome { result: Ok(package), failures: core.failures })
    } else {
        let next: Pending = core.queue.remove(0);
        core.current = next;
        assert(core@.queue =~= before.queue.drop_first());
        InstallStep::FetchInfo(AwaitInfo { core })
    }
}

/// Ends the current request with an error.
fn fail(core: JobCore, error: NpmPackageError) -> (r: InstallStep)
    ensures
        r@ == failed(core@, error@),
{
    let mut core = core;
    let ghost before = core@;
    if core.root.is_none() {
        return InstallStep::Done(InstallOutcome { result: Err(error), failures: core.failures });
    }
    let failure = InstallFailure {
        name: core.current.name.clone(),
        version: core.current.version.clone(),
        error,
    };
    core.failures.push(failure);
    assert(core@.failures =~= before.failures.push(
        FailureView { name: before.current.name, version: before.current.version, error: error@ },
    ));
    advance(core)
}

/// Ends the current request with the installed candidate.
fn complete(core: JobCore, candidate: Candidate) -> (r: InstallStep)
    ensures
        r@ == completed(core@, candidate@),
{
    let mut core = core;
    let ghost before = core@;
    let ghost deps = candidate@.dependencies;
    if core.root.is_none() {
        core.root =
        Some(
            NpmPackage {
                name: candidate.name.clone(),
                version: candidate.version.clone(),
                content_path: candidate.package_dir.clone(),
            },
        );
    }
    let mut i: usize = 0;
    while i < candidate.dependencies.len()
        invariant
            i <= candidate.dependencies.len(),
            deps == candidate@.dependencies,
            deps.len() == candidate.dependencies.len(),
            core@.current == before.current,
            core@.root == (match before.root {
                Some(p) => Some(p),
                None => Some(
                    NpmPackageView {
                        name: candidate@.name,
                        version: candidate@.version,
                        content_path: candidate@.package_dir,
                    },
                ),
            }),
            core@.failures == before.failures,
            (core@.queue, core@.visited) == enqueued(
                before.queue,
                before.visited,
                deps,
                i as int,
            ),
        decreases candidate.dependencies.len() - i,
    {
        let d: &Entry = &candidate.dependencies[i];
        assert(deps[i as int] == d@);
        let key: String = install_key(d.key.as_str(), d.value.as_str());
        if !contains_key(&core.visited, key.as_str()) {
            let ghost queue_before = core@.queue;
            let ghost visited_before = core.visited@;
            core.queue.push(Pending { name: d.key.clone(), version: d.value.clone() });
            core.visited.push(key);
            proof {
                lemma_key_set_push(visited_before, core.visited@[visited_before.len() as int]);
                assert(core.visited@ =~= visited_before.push(
                    core.visited@[visited_before.len() as int],
                ));
                assert(core@.queue =~= queue_before.push(
                    PendingView { name: d.key@, version: d.value@ },
                ));
            }
        }
        i = i + 1;
    }
    advance(core)
}

impl AwaitInfo {
    /// The name of the package whose document is wanted.
    pub fn package_name(&self) -> (r: &str)
        ensures
            r@ == self.core@.current.name,
    {
        self.core.current.name.as_str()
    }

    /// Takes the registry's document of the current package, or the
    /// message that it could not be had. A package whose version could be
    /// resolved is looked for on disk next, whatever the manager remembers
    /// of it.
    pub fn on_info(self, manager: &NpmPackageManager, info: Result<NpmPackageInfo, String>) -> (r:
        InstallStep)
        ensures
            r@ == after_info(self.core@, manager.packages_root_dir@, info_view(info)),
    {
        let document: NpmPackageInfo = match info {
            Ok(d) => d,
            Err(m) => {
                return fail(self.core, NpmPackageError::ResolutionFailed(m));
            },
        };
        let name: String = self.core.current.name.clone();
        let asked: Option<&str> = if self.core.current.version.as_str().unicode_len() == 0 {
            None
        } else {
            Some(self.core.current.version.as_str())
        };
        let found = match resolve_version(&document, name.as_str(), asked) {
            Ok(f) => f,
            Err(e) => {
                return fail(self.core, e);
            },
        };
        let exact: String = match normalize_version(found.version.as_str()) {
            Some(v) => v,
            None => {
                let head: String = join3("version info not found: ", name.as_str(), "@");
                let error = NpmPackageError::ResolutionFailed(
                    join2(head.as_str(), found.version.as_str()),
                );
                return fail(self.core, error);
            },
        };
        assert(document@.versions[found.index as int] == document.versions[found.index as int]@);
        let listed = &document.versions[found.index];
        let dependencies: Vec<Entry> = merge_dependencies(
            &listed.dependencies,
            &listed.optional_dependencies,
        );
        let package_dir: String = manager.compute_package_dir(
            name.as_str(),
            Some(exact.as_str()),
        );
        let candidate = Candidate {
            name,
            version: exact,
            tarball: found.tarball,
            package_dir,
            dependencies,
        };
        InstallStep::Probe(AwaitProbe { core: self.core, candidate })
    }
}

impl AwaitProbe {
    /// The directory to look at.
    pub fn package_dir(&self) -> (r: &str)
        ensures
            r@ == self.candidate@.package_dir,
    {
        self.candidate.package_dir.as_str()
    }

    /// Takes what is on disk in the package directory. The package is
    /// installed by this job only where it is not installed and no other
    /// caller is installing it.
    pub fn on_probe(self, manager: &mut NpmPackageManager, on_disk: PackageOnDisk) -> (r:
        InstallStep)
        ensures
            r@ == after_probe(self.core@, self.candidate@, old(manager).under_way(), on_disk),
            final(manager).marked() =~= (if r@ is Install || r@ is Waiting {
                old(manager).marked()
            } else {
                old(manager).marked().insert(key_of(self.candidate@.name, self.candidate@.version))
            }),
            final(manager).under_way() =~= (if r@ is Install {
                old(manager).under_way().insert(
                    key_of(self.candidate@.name, self.candidate@.version),
                )
            } else {
                old(manager).under_way()
            }),
            final(manager).packages_root_dir == old(manager).packages_root_dir,
            final(manager).cache_dir == old(manager).cache_dir,
    {
        let ticket: InstallTicket = manager.begin_install(
            self.candidate.name.as_str(),
            self.candidate.version.as_str(),
            &on_disk,
        );
        match ticket {
            InstallTicket::AlreadyInstalled => {
                let r = complete(self.core, self.candidate);
                proof {
                    lemma_completed_ends_request(self.core@, self.candidate@);
                }
                r
            },
            InstallTicket::Wait => InstallStep::Waiting(self),
            InstallTicket::Start => InstallStep::Install(
                AwaitInstall { core: self.core, candidate: self.candidate },
            ),
        }
    }
}

impl AwaitInstall {
    /// The address of the archive to download.
    pub fn tarball_url(&self) -> (r: &str)
        ensures
            r@ == self.candidate@.tarball,
    {
        self.candidate.tarball.as_str()
    }

    /// The directory to unpack the archive into.
    pub fn package_dir(&self) -> (r: &str)
        ensures
            r@ == self.candidate@.package_dir,
    {
        self.candidate.package_dir.as_str()
    }

    /// Takes the end of the download and unpacking: the error, or what is
    /// on disk in the package directory afterwards. The installation
    /// succeeded only if the directory now holds a manifest with exactly
    /// the version; the package is then noted as seen installed. Either
    /// way it is no longer under way.
    pub fn on_installed(
        self,
        manager: &mut NpmPackageManager,
        result: Result<PackageOnDisk, NpmPackageError>,
    ) -> (r: InstallStep)
        ensures
            r@ == after_install(self.core@, self.candidate@, result_view(result)),
            final(manager).marked() =~= (if unpacked(self.candidate@, result_view(result)) {
                old(manager).marked().insert(key_of(self.candidate@.name, self.candidate@.version))
            } else {
                old(manager).marked()
            }),
            final(manager).under_way() =~= old(manager).under_way().remove(
                key_of(self.candidate@.name, self.candidate@.version),
            ),
            final(manager).packages_root_dir == old(manager).packages_root_dir,
            final(manager).cache_dir == old(manager).cache_dir,
    {
        match result {
            Ok(on_disk) => {
                let installed: bool = manager.is_package_installed(
                    self.candidate.name.as_str(),
                    self.candidate.version.as_str(),
                    &on_disk,
                );
                manager.finish_install(
                    self.candidate.name.as_str(),
                    self.candidate.version.as_str(),
                    installed,
                );
                if installed {
                    complete(self.core, self.candidate)
                } else {
                    let head: String = join3(
                        "package was not unpacked: ",
                        self.candidate.name.as_str(),
                        "@",
                    );
                    let error = NpmPackageError::ExtractionFailed(
                        join2(head.as_str(), self.candidate.version.as_str()),
                    );
                    fail(self.core, error)
                }
            },
            Err(e) => {
                manager.finish_install(
                    self.candidate.name.as_str(),
                    self.candidate.version.as_str(),
                    false,
                );
                fail(self.core, e)
            },
        }
    }
}

/// The end of a request is never a request for outside work on the same
/// candidate: it leads to the next document or to the end of the job.
pub proof fn lemma_completed_ends_request(core: CoreView, candidate: CandidateView)
    ensures
        completed(core, candidate) is FetchInfo || completed(core, candidate) is Done,
        completed(core, candidate) matches StepView::Done(o) ==> o.result is Ok,
{
}

/// A package that is found installed on disk is never installed again:
/// no download is asked for.
pub proof fn lemma_installed_is_not_installed_again(
    core: CoreView,
    candidate: CandidateView,
    under_way: Set<Seq<char>>,
    on_disk: PackageOnDisk,
)
    requires
        installed_on_disk(on_disk, candidate.version),
    ensures
        after_probe(core, candidate, under_way, on_disk) == completed(core, candidate),
        !(after_probe(core, candidate, under_way, on_disk) is Install),
{
    lemma_completed_ends_request(core, candidate);
}

/// A job takes a package for installed exactly where the package
/// directory holds a manifest with its version: when it is found there
/// before the download, or when it is there after the unpacking. An
/// installation that does not leave it there has failed.
pub proof fn lemma_installed_means_on_disk(
    core: CoreView,
    candidate: CandidateView,
    under_way: Set<Seq<char>>,
    on_disk: PackageOnDisk,
    result: Result<PackageOnDisk, NpmErrorView>,
)
    ensures
        installed_on_disk(on_disk, candidate.version) <==> after_probe(
            core,
            candidate,
            under_way,
            on_disk,
        ) == completed(core, candidate),
        unpacked(candidate, result) ==> after_install(core, candidate, result) == completed(
            core,
            candidate,
        ),
        !unpacked(candidate, result) ==> root_of(after_install(core, candidate, result))
            == core.root,
{
    lemma_completed_ends_request(core, candidate);
    lemma_root_after_request(core, candidate, arbitrary());
    match result {
        Ok(_) => {
            lemma_root_after_request(
                core,
                candidate,
                NpmErrorView {
                    kind: NpmErrorKind::ExtractionFailed,
                    detail: not_unpacked_message(candidate.name, candidate.version),
                },
            );
        },
        Err(e) => {
            lemma_root_after_request(core, candidate, e);
        },
    }
}

/// While a package is being installed, no second caller is told to install
/// it.
pub proof fn lemma_install_once(
    core: CoreView,
    candidate: CandidateView,
    under_way: Set<Seq<char>>,
    on_disk: PackageOnDisk,
)
    requires
        under_way.contains(key_of(candidate.name, candidate.version)),
    ensures
        !(after_probe(core, candidate, under_way, on_disk) is Install),
{
}

/// What a job is told in answer to a step.
pub enum Event {
    /// The registry's document, or the message that it could not be had.
    Info(Result<NpmPackageInfoView, Seq<char>>),
    /// The installations under way and what is on disk in the package
    /// directory.
    Probed(Set<Seq<char>>, PackageOnDisk),
    /// The end of a download and unpacking.
    Installed(Result<PackageOnDisk, NpmErrorView>),
}

/// The step that follows an event. An event that does not answer the step
/// leaves the job where it is.
pub open spec fn step_after(step: StepView, root_dir: Seq<char>, event: Event) -> StepView {
    match step {
        StepView::FetchInfo(core) => match event {
            Event::Info(info) => after_info(core, root_dir, info),
            _ => step,
        },
        StepView::Probe(core, candidate) => match event {
            Event::Probed(under_way, on_disk) => after_probe(core, candidate, under_way, on_disk),
            _ => step,
        },
        StepView::Waiting(core, candidate) => match event {
            Event::Probed(under_way, on_disk) => after_probe(core, candidate, under_way, on_disk),
            _ => step,
        },
        StepView::Install(core, candidate) => match event {
            Event::Installed(result) => after_install(core, candidate, result),
            _ => step,
        },
        StepView::Done(_) => step,
    }
}

/// Where a job stands after a sequence of events.
pub open spec fn run(step: StepView, root_dir: Seq<char>, events: Seq<Event>) -> StepView
    decreases events.len(),
{
    if events.len() == 0 {
        step
    } else {
        run(step_after(step, root_dir, events[0]), root_dir, events.drop_first())
    }
}

/// The package that a candidate is once it is installed.
pub open spec fn package_of(candidate: CandidateView) -> NpmPackageView {
    NpmPackageView {
        name: candidate.name,
        version: candidate.version,
        content_path: candidate.package_dir,
    }
}

/// The package asked for, once it is installed, of a job at this step.
pub open spec fn root_of(step: StepView) -> Option<NpmPackageView> {
    match step {
        StepView::FetchInfo(core) => core.root,
        StepView::Probe(core, _) => core.root,
        StepView::Waiting(core, _) => core.root,
        StepView::Install(core, _) => core.root,
        StepView::Done(o) => match o.result {
            Ok(p) => Some(p),
            Err(_) => None,
        },
    }
}

/// A job for `first` stands where it can only end with `first` installed
/// or with an error: it works on `first` and has installed nothing, or
/// `first` is installed, or it has failed.
pub open spec fn works_on(step: StepView, first: CandidateView) -> bool {
    match step {
        StepView::FetchInfo(core) => core.root == Some(package_of(first)),
        StepView::Probe(core, c) => core.root == Some(package_of(first)) || (core.root is None
            && c == first),
        StepView::Waiting(core, c) => core.root == Some(package_of(first)) || (core.root is None
            && c == first),
        StepView::Install(core, c) => core.root == Some(package_of(first)) || (core.root is None
            && c == first),
        StepView::Done(o) => o.result is Err || o.result == Ok::<NpmPackageView, NpmErrorView>(
            package_of(first),
        ),
    }
}

/// Ending a request keeps the package asked for where there is one, and
/// makes the candidate that package where there is none.
pub proof fn lemma_root_after_request(core: CoreView, candidate: CandidateView, error: NpmErrorView)
    ensures
        root_of(completed(core, candidate)) == (match core.root {
            Some(p) => Some(p),
            None => Some(package_of(candidate)),
        }),
        root_of(failed(core, error)) == core.root,
{
}

/// Whatever a job is told, it goes on working on the package that it
/// began with.
pub proof fn lemma_step_works_on(
    step: StepView,
    root_dir: Seq<char>,
    event: Event,
    first: CandidateView,
)
    requires
        works_on(step, first),
    ensures
        works_on(step_after(step, root_dir, event), first),
{
    let next = step_after(step, root_dir, event);
    match step {
        StepView::FetchInfo(core) => match event {
            Event::Info(info) => {
                match info {
                    Err(m) => {
                        lemma_root_after_request(
                            core,
                            first,
                            NpmErrorView { kind: NpmErrorKind::ResolutionFailed, detail: m },
                        );
                    },
                    Ok(document) => match candidate_of(root_dir, core.current, document) {
                        Err(e) => {
                            lemma_root_after_request(core, first, e);
                        },
                        Ok(_) => {},
                    },
                }
                lemma_works_on_by_root(next, first);
            },
            _ => {},
        },
        StepView::Probe(core, c) => match event {
            Event::Probed(_, _) => {
                lemma_root_after_request(core, c, arbitrary());
                lemma_works_on_by_root(next, first);
            },
            _ => {},
        },
        StepView::Waiting(core, c) => match event {
            Event::Probed(_, _) => {
                lemma_root_after_request(core, c, arbitrary());
                lemma_works_on_by_root(next, first);
            },
            _ => {},
        },
        StepView::Install(core, c) => match event {
            Event::Installed(result) => {
                match result {
                    Ok(_) => {
                        lemma_root_after_request(
                            core,
                            c,
                            NpmErrorView {
                                kind: NpmErrorKind::ExtractionFailed,
                                detail: not_unpacked_message(c.name, c.version),
                            },
                        );
                    },
                    Err(e) => {
                        lemma_root_after_request(core, c, e);
                    },
                }
                lemma_works_on_by_root(next, first);
            },
            _ => {},
        },
        StepView::Done(_) => {},
    }
}

/// A job whose package asked for is `first`, installed, works on `first`;
/// so does a job that has ended with an error.
pub proof fn lemma_works_on_by_root(step: StepView, first: CandidateView)
    ensures
        root_of(step) == Some(package_of(first)) ==> works_on(step, first),
        step matches StepView::Done(o) && o.result is Err ==> works_on(step, first),
{
}

/// A job that works on a package ends, if it ends well, with that
/// package.
pub proof fn lemma_run_works_on(
    step: StepView,
    root_dir: Seq<char>,
    events: Seq<Event>,
    first: CandidateView,
)
    requires
        works_on(step, first),
    ensures
        works_on(run(step, root_dir, events), first),
    decreases events.len(),
{
    if events.len() > 0 {
        lemma_step_works_on(step, root_dir, events[0], first);
        lemma_run_works_on(
            step_after(step, root_dir, events[0]),
            root_dir,
            events.drop_first(),
            first,
        );
    }
}

/// A job takes the package asked for as installed only when the package
/// directory was seen to hold a manifest with exactly its version: before
/// the download, or after the unpacking.
pub proof fn lemma_root_was_seen_on_disk(step: StepView, root_dir: Seq<char>, event: Event)
    requires
        root_of(step) is None,
        root_of(step_after(step, root_dir, event)) is Some,
    ensures
        match step {
            StepView::Probe(_, c) => event matches Event::Probed(_, d) && installed_on_disk(
                d,
                c.version,
            ),
            StepView::Waiting(_, c) => event matches Event::Probed(_, d) && installed_on_disk(
                d,
                c.version,
            ),
            StepView::Install(_, c) => event matches Event::Installed(Ok(d)) && installed_on_disk(
                d,
                c.version,
            ),
            _ => false,
        },
{
    match step {
        StepView::FetchInfo(core) => match event {
            Event::Info(info) => {
                match info {
                    Err(m) => {
                        lemma_root_after_request(
                            core,
                            arbitrary(),
                            NpmErrorView { kind: NpmErrorKind::ResolutionFailed, detail: m },
                        );
                    },
                    Ok(document) => match candidate_of(root_dir, core.current, document) {
                        Err(e) => {
                            lemma_root_after_request(core, arbitrary(), e);
                        },
                        Ok(_) => {},
                    },
                }
            },
            _ => {},
        },
        StepView::Probe(core, c) => {
            lemma_root_after_request(core, c, arbitrary());
        },
        StepView::Waiting(core, c) => {
            lemma_root_after_request(core, c, arbitrary());
        },
        StepView::Install(core, c) => match event {
            Event::Installed(result) => {
                match result {
                    Ok(_) => {
                        lemma_root_after_request(
                            core,
                            c,
                            NpmErrorView {
                                kind: NpmErrorKind::ExtractionFailed,
                                detail: not_unpacked_message(c.name, c.version),
                            },
                        );
                    },
                    Err(e) => {
                        lemma_root_after_request(core, c, e);
                    },
                }
            },
            _ => {},
        },
        StepView::Done(_) => {},
    }
}

/// Installing a package in a version and then resolving the specifier
/// with that name and version leads to the directory that the package was
/// installed in, and, without a subpath, to its main entry there. This
/// holds for a version that the registry lists under the text asked for:
/// the name of a dist-tag is installed as the version that it points to.
pub proof fn lemma_installed_package_resolves(
    root_dir: Seq<char>,
    name: Seq<char>,
    version: Seq<char>,
    document: NpmPackageInfoView,
    rest: Seq<Event>,
    referrer: Option<ManifestView>,
    cached: Option<NpmPackageInfoView>,
    manifest: ManifestView,
)
    requires
        is_package_name(name),
        is_version_text(version),
        through_tags(document, version) == version,
        root_of(
            run(
                StepView::FetchInfo(started(name, version)),
                root_dir,
                seq![Event::Info(Ok(document))] + rest,
            ),
        ) is Some,
    ensures
        ({
            let installed = root_of(
                run(
                    StepView::FetchInfo(started(name, version)),
                    root_dir,
                    seq![Event::Info(Ok(document))] + rest,
                ),
            )->0;
            let at = PackageLocationView {
                name,
                version: installed.version,
                subpath: None,
                package_dir: installed.content_path,
            };
            &&& installed.name == name
            &&& normal_version(version) == Some(installed.version)
            &&& installed.content_path == package_dir_of(root_dir, name, installed.version)
            &&& located(root_dir, npm_prefix() + name + seq!['@'] + version, referrer, cached)
                == Located::At(at)
            &&& entry_path(at, manifest) == joined(installed.content_path, main_entry(manifest))
        }),
{
    let begun = StepView::FetchInfo(started(name, version));
    let events = seq![Event::Info(Ok(document))] + rest;
    assert(events[0] == Event::Info(Ok(document)));
    assert(events.drop_first() =~= rest);
    let second = step_after(begun, root_dir, events[0]);
    assert(run(begun, root_dir, events) == run(second, root_dir, rest));
    let request = PendingView { name, version };
    match candidate_of(root_dir, request, document) {
        Err(e) => {
            lemma_root_after_request(started(name, version), arbitrary(), e);
            lemma_failed_job_stays_failed(second, root_dir, rest);
        },
        Ok(first) => {
            assert(second == StepView::Probe(started(name, version), first));
            lemma_run_works_on(second, root_dir, rest, first);
            lemma_resolves_to_installed_main(root_dir, name, version, referrer, cached, manifest);
        },
    }
}

/// A job that has ended stays where it is.
pub proof fn lemma_failed_job_stays_failed(step: StepView, root_dir: Seq<char>, events: Seq<Event>)
    requires
        step is Done,
    ensures
        run(step, root_dir, events) == step,
    decreases events.len(),
{
    if events.len() > 0 {
        lemma_failed_job_stays_failed(step, root_dir, events.drop_first());
    }
}

/// The package asked for decides the result: its failure ends the job with
/// the error, and once it is installed no failure changes the result.
pub proof fn lemma_dependency_failure_is_not_fatal(core: CoreView, error: NpmErrorView)
    ensures
        core.root is None ==> failed(core, error) == StepView::Done(
            OutcomeView { result: Err(error), failures: core.failures },
        ),
        core.root is Some ==> (failed(core, error) matches StepView::Done(o) ==> o.result == Ok::<
            NpmPackageView,
            NpmErrorView,
        >(core.root->0)),
        core.root is Some ==> (failed(core, error) matches StepView::FetchInfo(c) ==> c.root
            == core.root),
{
}

/// The key of a request.
pub open spec fn request_key(p: PendingView) -> Seq<char> {
    key_of(p.name, p.version)
}

/// Queueing the dependencies of a package keeps what was queued, queues no
/// request that was made before and none twice, and leaves every
/// dependency among the requests made.
pub proof fn lemma_each_request_once(
    queue: Seq<PendingView>,
    visited: Set<Seq<char>>,
    dependencies: Seq<EntryView>,
    upto: int,
)
    requires
        0 <= upto <= dependencies.len(),
    ensures
        ({
            let (q, v) = enqueued(queue, visited, dependencies, upto);
            &&& queue.len() <= q.len()
            &&& q.subrange(0, queue.len() as int) == queue
            &&& visited.subset_of(v)
            &&& forall|i: int|
                queue.len() <= i < q.len() ==> v.contains(request_key(#[trigger] q[i]))
                    && !visited.contains(request_key(q[i]))
            &&& forall|i: int, j: int|
                queue.len() <= i < j < q.len() ==> request_key(#[trigger] q[i]) != request_key(
                    #[trigger] q[j],
                )
            &&& forall|k: int|
                0 <= k < upto ==> v.contains(
                    key_of((#[trigger] dependencies[k]).key, dependencies[k].value),
                )
        }),
    decreases upto,
{
    if upto > 0 {
        lemma_each_request_once(queue, visited, dependencies, upto - 1);
        let (q0, v0) = enqueued(queue, visited, dependencies, upto - 1);
        let (q, v) = enqueued(queue, visited, dependencies, upto);
        let d = dependencies[upto - 1];
        let key = key_of(d.key, d.value);
        if !v0.contains(key) {
            assert(q == q0.push(PendingView { name: d.key, version: d.value }));
            assert(q.subrange(0, queue.len() as int) =~= q0.subrange(0, queue.len() as int));
            assert forall|i: int| queue.len() <= i < q.len() implies v.contains(
                request_key(#[trigger] q[i]),
            ) && !visited.contains(request_key(q[i])) by {
                if i < q0.len() {
                    assert(q[i] == q0[i]);
                }
            }
            assert forall|i: int, j: int| queue.len() <= i < j < q.len() implies request_key(
                #[trigger] q[i],
            ) != request_key(#[trigger] q[j]) by {
                assert(q[i] == q0[i]);
                if j < q0.len() {
                    assert(q[j] == q0[j]);
                }
            }
        }
    } else {
        assert(queue.subrange(0, queue.len() as int) =~= queue);
    }
}

} // verus!
