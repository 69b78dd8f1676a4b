//! The inner loader of the embedded runtime: the specifiers that may be
//! read from the file system, the sources kept for error messages, and the
//! routes of resolving and loading inside installed packages.

use vstd::prelude::*;
use vstd::string::*;

use crate::cjs_tracker::{is_maybe_cjs, maybe_cjs, ResolutionMode};
use crate::error::LoaderError;
use crate::media::{media_type_of, MediaType, ModuleType};
use crate::npm::{contains_key, key_set, lemma_key_set_push};
use crate::text::{chars_of, join2, join3, same_text};
use crate::urls::{parse_url, parsed_url, UrlParts, UrlPartsView};

verus! {

/// Why a specifier is resolved.
#[derive(Debug, Clone, Copy, PartialEq, Eq, Structural)]
pub enum ResolutionKind {
    MainModule,
    Import,
    DynamicImport,
}

/// The source of a loaded module and its source map, kept under the name
/// of the file.
#[derive(Debug, Clone, PartialEq, Eq)]
pub struct SourceMapEntry {
    pub filename: String,
    pub source: String,
    pub source_map: Option<Vec<u8>>,
}

/// What an inner loader is made from.
#[derive(Debug, Clone, PartialEq, Eq)]
pub struct LoaderOptions {
    /// Specifiers that may always be loaded from the file system.
    pub fs_whitelist: Vec<String>,
    /// Sources kept for error messages.
    pub source_map_cache: Vec<SourceMapEntry>,
    /// Prefixes of custom schemes that may be loaded.
    pub schema_whlist: Vec<String>,
    /// The working directory.
    pub cwd: String,
}

/// The inner loader.
#[derive(Debug, Clone, PartialEq, Eq)]
pub struct InnerRustyLoader {
    pub fs_whlist: Vec<String>,
    pub source_map_cache: Vec<SourceMapEntry>,
    pub schema_whlist: Vec<String>,
    pub cwd: String,
}

/// The index of the first entry kept under the file name at or after
/// `from`; the length of the list where there is none.
pub open spec fn map_index(entries: Seq<SourceMapEntry>, filename: Seq<char>, from: int) -> int
    decreases entries.len() - from,
{
    if from < 0 || from >= entries.len() {
        entries.len() as int
    } else if entries[from].filename@ == filename {
        from
    } else {
        map_index(entries, filename, from + 1)
    }
}

/// The entry kept under the file name.
pub open spec fn kept_entry(entries: Seq<SourceMapEntry>, filename: Seq<char>) -> Option<
    SourceMapEntry,
> {
    let i = map_index(entries, filename, 0);
    if i < entries.len() {
        Some(entries[i])
    } else {
        None
    }
}

/// `map_index` finds the first entry under the file name.
pub proof fn lemma_map_index(entries: Seq<SourceMapEntry>, filename: Seq<char>, from: int)
    requires
        0 <= from <= entries.len(),
    ensures
        from <= map_index(entries, filename, from) <= entries.len(),
        forall|k: int|
            from <= k < map_index(entries, filename, from) ==> (#[trigger] entries[k]).filename@
                != filename,
        map_index(entries, filename, from) < entries.len() ==> entries[map_index(
            entries,
            filename,
            from,
        )].filename@ == filename,
    decreases entries.len() - from,
{
    if from < entries.len() && entries[from].filename@ != filename {
        lemma_map_index(entries, filename, from + 1);
    }
}

/// An index that is the first under the file name at or after `from` is
/// the one that `map_index` returns.
pub proof fn lemma_map_index_is(
    entries: Seq<SourceMapEntry>,
    filename: Seq<char>,
    from: int,
    r: int,
)
    requires
        0 <= from <= r <= entries.len(),
        forall|k: int| from <= k < r ==> (#[trigger] entries[k]).filename@ != filename,
        r < entries.len() ==> entries[r].filename@ == filename,
    ensures
        map_index(entries, filename, from) == r,
    decreases r - from,
{
    if from < r {
        lemma_map_index_is(entries, filename, from + 1, r);
    }
}

/// The lower-case form of an ASCII letter; any other character itself.
pub open spec fn lower(c: char) -> char {
    if 'A' <= c && c <= 'Z' {
        ((c as u8) + 32) as char
    } else {
        c
    }
}

/// `needle` stands in `haystack` at index `at`, letters of `haystack`
/// compared without regard to case.
pub open spec fn occurs_at(haystack: Seq<char>, needle: Seq<char>, at: int) -> bool {
    0 <= at && at + needle.len() <= haystack.len() && forall|k: int|
        0 <= k < needle.len() ==> lower(#[trigger] haystack[at + k]) == needle[k]
}

/// `needle` stands somewhere in `haystack`, letters of `haystack` compared
/// without regard to case.
pub open spec fn contains_lowered(haystack: Seq<char>, needle: Seq<char>) -> bool {
    exists|at: int| #[trigger] occurs_at(haystack, needle, at)
}

/// A URL lies inside an installed npm package: it is a file URL whose
/// path, in lower case, holds `/node_modules/` or `/node:`.
pub open spec fn inside_npm_package(url: UrlPartsView) -> bool {
    url.scheme == "file"@ && (contains_lowered(url.path, node_modules_segment())
        || contains_lowered(url.path, node_polyfill_segment()))
}

/// The path segment of installed packages.
pub open spec fn node_modules_segment() -> Seq<char> {
    seq!['/', 'n', 'o', 'd', 'e', '_', 'm', 'o', 'd', 'u', 'l', 'e', 's', '/']
}

/// The beginning of the path of a built-in module.
pub open spec fn node_polyfill_segment() -> Seq<char> {
    seq!['/', 'n', 'o', 'd', 'e', ':']
}

/// The lower-case form of an ASCII letter; any other character itself.
pub fn to_lower(c: char) -> (r: char)
    ensures
        r == lower(c),
{
    if 'A' <= c && c <= 'Z' {
        ((c as u8) + 32) as char
    } else {
        c
    }
}

/// Tells whether `needle` stands somewhere in `haystack`, letters of
/// `haystack` compared without regard to case.
pub fn contains_ignoring_case(haystack: &Vec<char>, needle: &Vec<char>) -> (r: bool)
    ensures
        r == contains_lowered(haystack@, needle@),
{
    if needle.len() > haystack.len() {
        assert forall|at: int| !occurs_at(haystack@, needle@, at) by {}
        return false;
    }
    let last: usize = haystack.len() - needle.len();
    let mut at: usize = 0;
    while at <= last
        invariant
            last == haystack.len() - needle.len(),
            at <= last + 1,
            forall|a: int| 0 <= a < at ==> !occurs_at(haystack@, needle@, a),
        decreases last + 1 - at,
    {
        let mut k: usize = 0;
        while k < needle.len() && to_lower(haystack[at + k]) == needle[k]
            invariant
                at <= last,
                last == haystack.len() - needle.len(),
                k <= needle.len(),
                forall|j: int| 0 <= j < k ==> lower(#[trigger] haystack@[at + j]) == needle@[j],
            decreases needle.len() - k,
        {
            k = k + 1;
        }
        if k == needle.len() {
            assert(occurs_at(haystack@, needle@, at as int));
            return true;
        }
        assert(!occurs_at(haystack@, needle@, at as int)) by {
            assert(lower(haystack@[at + k]) != needle@[k as int]);
        }
        at = at + 1;
    }
    assert forall|a: int| !occurs_at(haystack@, needle@, a) by {}
    false
}

/// Tells whether a URL lies inside an installed npm package.
pub fn in_npm_package(url: &UrlParts) -> (r: bool)
    ensures
        r == inside_npm_package(url@),
{
    if !same_text(url.scheme.as_str(), "file") {
        return false;
    }
    let path: Vec<char> = chars_of(url.path.as_str());
    let modules: Vec<char> = vec![
        '/',
        'n',
        'o',
        'd',
        'e',
        '_',
        'm',
        'o',
        'd',
        'u',
        'l',
        'e',
        's',
        '/',
    ];
    let polyfill: Vec<char> = vec!['/', 'n', 'o', 'd', 'e', ':'];
    assert(modules@ =~= node_modules_segment());
    assert(polyfill@ =~= node_polyfill_segment());
    contains_ignoring_case(&path, &modules) || contains_ignoring_case(&path, &polyfill)
}

/// Where the resolution of a specifier goes.
#[derive(Debug, Clone, PartialEq, Eq)]
pub enum InnerResolve {
    /// The importer lies inside an installed package: the node resolver is
    /// to resolve the specifier against it, in this mode.
    Node { referrer: String, mode: ResolutionMode },
}

pub enum InnerResolveView {
    /// `.` was given as the referrer of something that is no main module.
    NotMain,
    /// The referrer is no URL.
    BadReferrer,
    Node(Seq<char>, ResolutionMode),
    /// The importer lies outside the installed packages.
    Unsupported(Seq<char>),
}

/// The mode in which the node resolver resolves for an importer.
pub open spec fn referrer_mode(url: UrlPartsView) -> ResolutionMode {
    if maybe_cjs(url.scheme == "file"@, media_type_of(url.href)) {
        ResolutionMode::Require
    } else {
        ResolutionMode::Import
    }
}

/// Where the resolution of a specifier goes.
pub open spec fn inner_routed(referrer: Seq<char>, kind: ResolutionKind, cwd_url: Seq<char>)
    -> InnerResolveView {
    if referrer == "."@ && kind != ResolutionKind::MainModule {
        InnerResolveView::NotMain
    } else {
        let text = if referrer == "."@ {
            cwd_url
        } else {
            referrer
        };
        match parsed_url(text) {
            None => InnerResolveView::BadReferrer,
            Some(u) => if inside_npm_package(u) {
                InnerResolveView::Node(u.href, referrer_mode(u))
            } else {
                InnerResolveView::Unsupported(u.href)
            },
        }
    }
}

/// The route of a load.
#[derive(Debug, Clone, Copy, PartialEq, Eq, Structural)]
pub enum InnerLoad {
    /// The cache holds the module.
    Cached,
    /// The import provider supplies the module.
    Provided,
    /// The module is fetched from the network.
    Remote,
    /// The module is read from the file system.
    File,
}

impl InnerRustyLoader {
    /// The specifiers that may always be loaded from the file system.
    pub open spec fn whitelist(&self) -> Set<Seq<char>> {
        key_set(self.fs_whlist@)
    }

    /// The entry kept under a file name.
    pub open spec fn source_map_of(&self, filename: Seq<char>) -> Option<SourceMapEntry> {
        kept_entry(self.source_map_cache@, filename)
    }

    /// A loader made from its options.
    pub fn new(options: LoaderOptions) -> (r: InnerRustyLoader)
        ensures
            r.fs_whlist == options.fs_whitelist,
            r.source_map_cache == options.source_map_cache,
            r.schema_whlist == options.schema_whlist,
            r.cwd == options.cwd,
    {
        InnerRustyLoader {
            fs_whlist: options.fs_whitelist,
            source_map_cache: options.source_map_cache,
            schema_whlist: options.schema_whlist,
            cwd: options.cwd,
        }
    }

    /// Sets the working directory.
    pub fn set_current_dir(&mut self, cwd: String)
        ensures
            final(self).cwd == cwd,
            final(self).fs_whlist == old(self).fs_whlist,
            final(self).source_map_cache == old(self).source_map_cache,
            final(self).schema_whlist == old(self).schema_whlist,
    {
        self.cwd = cwd;
    }

    /// Allows a specifier to be loaded from the file system.
    pub fn whitelist_add(&mut self, specifier: &str)
        ensures
            final(self).whitelist() =~= old(self).whitelist().insert(specifier@),
            final(self).source_map_cache == old(self).source_map_cache,
            final(self).schema_whlist == old(self).schema_whlist,
            final(self).cwd == old(self).cwd,
    {
        if !contains_key(&self.fs_whlist, specifier) {
            let ghost before = self.fs_whlist@;
            self.fs_whlist.push(specifier.to_owned());
            proof {
                lemma_key_set_push(before, self.fs_whlist@[before.len() as int]);
                assert(self.fs_whlist@ =~= before.push(self.fs_whlist@[before.len() as int]));
            }
        }
    }

    /// Tells whether a specifier may be loaded from the file system.
    pub fn whitelist_has(&self, specifier: &str) -> (r: bool)
        ensures
            r == self.whitelist().contains(specifier@),
    {
        contains_key(&self.fs_whlist, specifier)
    }

    /// Finds the entry kept under a file name.
    fn find_source_map(&self, filename: &str) -> (r: usize)
        ensures
            r == map_index(self.source_map_cache@, filename@, 0),
            r <= self.source_map_cache.len(),
    {
        let mut i: usize = 0;
        while i < self.source_map_cache.len()
            invariant
                i <= self.source_map_cache.len(),
                map_index(self.source_map_cache@, filename@, 0) == map_index(
                    self.source_map_cache@,
                    filename@,
                    i as int,
                ),
            decreases self.source_map_cache.len() - i,
        {
            if same_text(self.source_map_cache[i].filename.as_str(), filename) {
                return i;
            }
            i = i + 1;
        }
        i
    }

    /// The source and source map kept under a file name.
    pub fn get_source_map(&self, filename: &str) -> (r: Option<&SourceMapEntry>)
        ensures
            match r {
                Some(e) => self.source_map_of(filename@) == Some(*e),
                None => self.source_map_of(filename@) is None,
            },
    {
        let i: usize = self.find_source_map(filename);
        if i < self.source_map_cache.len() {
            Some(&self.source_map_cache[i])
        } else {
            None
        }
    }

    /// Keeps a source and its source map under a file name, in place of
    /// what was kept there.
    pub fn add_source_map(&mut self, filename: &str, source: String, source_map: Option<Vec<u8>>)
        ensures
            final(self).source_map_of(filename@) matches Some(e) && e.filename@ == filename@
                && e.source == source && e.source_map == source_map,
            forall|f: Seq<char>|
                f != filename@ ==> final(self).source_map_of(f) == old(self).source_map_of(f),
            final(self).fs_whlist == old(self).fs_whlist,
            final(self).schema_whlist == old(self).schema_whlist,
            final(self).cwd == old(self).cwd,
    {
        let i: usize = self.find_source_map(filename);
        let ghost before = self.source_map_cache@;
        let entry = SourceMapEntry { filename: filename.to_owned(), source, source_map };
        proof {
            lemma_map_index(before, filename@, 0);
        }
        if i < self.source_map_cache.len() {
            self.source_map_cache.set(i, entry);
        } else {
            self.source_map_cache.push(entry);
        }
        proof {
            let after = self.source_map_cache@;
            assert forall|k: int| 0 <= k < i implies (#[trigger] after[k]).filename@
                != filename@ by {
                assert(after[k] == before[k]);
            }
            lemma_map_index_is(after, filename@, 0, i as int);
            assert forall|f: Seq<char>| f != filename@ implies kept_entry(after, f) == kept_entry(
                before,
                f,
            ) by {
                lemma_map_index(before, f, 0);
                let j = map_index(before, f, 0);
                assert forall|k: int| 0 <= k < j implies (#[trigger] after[k]).filename@ != f by {
                    if k != i {
                        assert(after[k] == before[k]);
                    }
                }
                if j < before.len() {
                    assert(after[j] == before[j]);
                    lemma_map_index_is(after, f, 0, j);
                } else {
                    lemma_map_index_is(after, f, 0, after.len() as int);
                }
            }
        }
    }

    /// Routes the resolution of a specifier. `.` as the referrer stands
    /// for the working directory and is accepted for a main module only.
    /// Only what is imported from inside an installed package is resolved
    /// here.
    pub fn resolve(&self, raw_specifier: &str, referrer: &str, kind: ResolutionKind, cwd_url: &str)
        -> (r: Result<InnerResolve, LoaderError>)
        ensures
            match inner_routed(referrer@, kind, cwd_url@) {
                InnerResolveView::NotMain => r matches Err(LoaderError::ResolutionFailed(m))
                    && m@ == "Expected to resolve main module"@,
                InnerResolveView::BadReferrer => r matches Err(LoaderError::InvalidSpecifier(m))
                    && m@ == "Referrer uses invalid specifier: "@ + referrer@,
                InnerResolveView::Node(url, mode) => r matches Ok(
                    InnerResolve::Node { referrer: u, mode: found },
                ) && u@ == url && found == mode,
                InnerResolveView::Unsupported(url) => r matches Err(
                    LoaderError::UnsupportedScheme(m),
                ) && m@ == raw_specifier@ + " imported from "@ + url,
            },
    {
        let main: bool = same_text(referrer, ".");
        if main && kind != ResolutionKind::MainModule {
            return Err(LoaderError::ResolutionFailed("Expected to resolve main module".to_owned()));
        }
        let text: &str = if main {
            cwd_url
        } else {
            referrer
        };
        let url: UrlParts = match parse_url(text) {
            Some(u) => u,
            None => {
                return Err(
                    LoaderError::InvalidSpecifier(
                        join2("Referrer uses invalid specifier: ", referrer),
                    ),
                );
            },
        };
        if in_npm_package(&url) {
            let is_file: bool = same_text(url.scheme.as_str(), "file");
            let media_type: MediaType = MediaType::from_specifier(url.href.as_str());
            let mode: ResolutionMode = if is_maybe_cjs(is_file, media_type) {
                ResolutionMode::Require
            } else {
                ResolutionMode::Import
            };
            Ok(InnerResolve::Node { referrer: url.href, mode })
        } else {
            Err(
                LoaderError::UnsupportedScheme(
                    join3(raw_specifier, " imported from ", url.href.as_str()),
                ),
            )
        }
    }

    /// Routes a load: the cache first, then the import provider, then by
    /// the scheme of the URL. Other schemes are not loaded.
    pub fn load(&self, module_specifier: &UrlParts, cached: bool, provided: bool) -> (r: Result<
        InnerLoad,
        LoaderError,
    >)
        ensures
            cached ==> r == Ok::<InnerLoad, LoaderError>(InnerLoad::Cached),
            !cached && provided ==> r == Ok::<InnerLoad, LoaderError>(InnerLoad::Provided),
            !cached && !provided ==> (if module_specifier.scheme@ == "https"@
                || module_specifier.scheme@ == "http"@ {
                r == Ok::<InnerLoad, LoaderError>(InnerLoad::Remote)
            } else if module_specifier.scheme@ == "file"@ {
                r == Ok::<InnerLoad, LoaderError>(InnerLoad::File)
            } else {
                r matches Err(LoaderError::UnsupportedScheme(m)) && m@ == module_specifier.scheme@
                    + " imports are not allowed here: "@ + module_specifier.href@
            }),
    {
        if cached {
            return Ok(InnerLoad::Cached);
        }
        if provided {
            return Ok(InnerLoad::Provided);
        }
        let scheme: &str = module_specifier.scheme.as_str();
        if same_text(scheme, "https") || same_text(scheme, "http") {
            Ok(InnerLoad::Remote)
        } else if same_text(scheme, "file") {
            Ok(InnerLoad::File)
        } else {
            Err(
                LoaderError::UnsupportedScheme(
                    join3(
                        scheme,
                        " imports are not allowed here: ",
                        module_specifier.href.as_str(),
                    ),
                ),
            )
        }
    }
}

/// How npm packages are resolved in a process.
#[derive(Debug, Clone, Copy, PartialEq, Eq, Structural)]
pub enum NpmProcessStateKind {
    Byonm,
}

/// What a child process is told of the npm resolution of its parent.
#[derive(Debug, Clone, PartialEq, Eq)]
pub struct NpmProcessState {
    pub kind: NpmProcessStateKind,
    pub local_node_modules_path: Option<String>,
}

impl NpmProcessState {
    /// The state of a process that resolves packages from the
    /// `node_modules` directory at the given path.
    pub fn new(local_node_modules_path: Option<String>) -> (r: NpmProcessState)
        ensures
            r.kind == NpmProcessStateKind::Byonm,
            r.local_node_modules_path == local_node_modules_path,
    {
        NpmProcessState { kind: NpmProcessStateKind::Byonm, local_node_modules_path }
    }
}

/// The index of the last occurrence of `c` below `upto`, or -1 where there
/// is none.
pub open spec fn last_index(s: Seq<char>, c: char, upto: int) -> int
    decreases upto,
{
    if upto <= 0 {
        -1
    } else if s[upto - 1] == c {
        upto - 1
    } else {
        last_index(s, c, upto - 1)
    }
}

/// The extension of the file that a path names: what follows the last `.`
/// of its last segment, where that `.` is not the first character of the
/// segment.
pub open spec fn extension_of(path: Seq<char>) -> Option<Seq<char>> {
    let name_from = last_index(path, '/', path.len() as int) + 1;
    let dot = last_index(path, '.', path.len() as int);
    if dot > name_from {
        Some(path.subrange(dot + 1, path.len() as int))
    } else {
        None
    }
}

/// The extension is `json`, in any case of its letters.
pub open spec fn has_json_extension(path: Seq<char>) -> bool {
    extension_of(path) matches Some(e) && e.len() == 4 && lower(e[0]) == 'j' && lower(e[1]) == 's'
        && lower(e[2]) == 'o' && lower(e[3]) == 'n'
}

/// Finds the last occurrence of a character: the index behind it, or 0
/// where there is none.
fn after_last(v: &Vec<char>, c: char) -> (r: usize)
    ensures
        r == last_index(v@, c, v.len() as int) + 1,
        r <= v.len(),
{
    let mut i: usize = v.len();
    while i > 0 && v[i - 1] != c
        invariant
            i <= v.len(),
            last_index(v@, c, v.len() as int) == last_index(v@, c, i as int),
        decreases i,
    {
        i = i - 1;
    }
    i
}

/// The kind of module that a loaded path is handed out as: JSON for the
/// extension `json`, in any case of its letters; JavaScript otherwise.
pub fn handle_load(path: &str) -> (r: ModuleType)
    ensures
        r == (if has_json_extension(path@) {
            ModuleType::Json
        } else {
            ModuleType::JavaScript
        }),
{
    let v: Vec<char> = chars_of(path);
    let name_from: usize = after_last(&v, '/');
    let after_dot: usize = after_last(&v, '.');
    if after_dot >= 1 && after_dot - 1 > name_from && v.len() - after_dot == 4 {
        assert(v@.subrange(after_dot as int, v.len() as int)[0] == v@[after_dot as int]);
        assert(v@.subrange(after_dot as int, v.len() as int)[1] == v@[after_dot + 1]);
        assert(v@.subrange(after_dot as int, v.len() as int)[2] == v@[after_dot + 2]);
        assert(v@.subrange(after_dot as int, v.len() as int)[3] == v@[after_dot + 3]);
        if to_lower(v[after_dot]) == 'j' && to_lower(v[after_dot + 1]) == 's' && to_lower(
            v[after_dot + 2],
        ) == 'o' && to_lower(v[after_dot + 3]) == 'n' {
            return ModuleType::Json;
        }
    }
    ModuleType::JavaScript
}

/// A path with a `/` before and behind it, so that each of its segments
/// stands between two.
pub open spec fn enclosed(path: Seq<char>) -> Seq<char> {
    seq!['/'] + path + seq!['/']
}

/// Reading the path asks for permission: none of its segments is
/// `node_modules`, in any case of its letters. What lies inside installed
/// packages is read without asking.
pub open spec fn asks_permission(path: Seq<char>) -> bool {
    !contains_lowered(enclosed(path), node_modules_segment())
}

/// Tells whether reading a path asks for permission.
pub fn ensure_read_permission(path: &str) -> (r: bool)
    ensures
        r == asks_permission(path@),
{
    let inner: Vec<char> = chars_of(path);
    let mut text: Vec<char> = Vec::new();
    text.push('/');
    let mut i: usize = 0;
    while i < inner.len()
        invariant
            i <= inner.len(),
            inner@ == path@,
            text@ == seq!['/'] + path@.subrange(0, i as int),
        decreases inner.len() - i,
    {
        text.push(inner[i]);
        i = i + 1;
        assert(text@ =~= seq!['/'] + path@.subrange(0, i as int));
    }
    text.push('/');
    assert(text@ =~= enclosed(path@)) by {
        assert(path@.subrange(0, inner.len() as int) =~= path@);
    }
    let modules: Vec<char> = vec![
        '/',
        'n',
        'o',
        'd',
        'e',
        '_',
        'm',
        'o',
        'd',
        'u',
        'l',
        'e',
        's',
        '/',
    ];
    assert(modules@ =~= node_modules_segment());
    !contains_ignoring_case(&text, &modules)
}

} // verus!
