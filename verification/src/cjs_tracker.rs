//! Deciding whether a module is CommonJS from its media type, from what is
//! known of its shape and from the nearest `package.json`.
//!
//! The tracker remembers what it has found for a specifier. It reads no
//! file: where the nearest `package.json` decides, it says so, and is then
//! handed what was found.

use vstd::prelude::*;
use vstd::string::*;

use crate::media::MediaType;
use crate::text::{join2, same_text};

verus! {

/// How a module is resolved: as an ECMAScript module or as CommonJS.
#[derive(Debug, Clone, Copy, PartialEq, Eq, Structural)]
pub enum ResolutionMode {
    Import,
    Require,
}

/// How much a `package.json` has to say for a file to be CommonJS.
#[derive(Debug, Clone, Copy, PartialEq, Eq, Structural)]
pub enum IsCjsResolutionMode {
    /// Only `"type": "commonjs"` makes a file CommonJS.
    ExplicitTypeCommonJs,
    /// A missing `type`, or no `package.json` at all, does so too.
    ImplicitTypeCommonJs,
    /// Nothing does.
    Disabled,
}

/// What was found when looking for the `package.json` nearest to a file.
#[derive(Debug, Clone, PartialEq, Eq)]
pub enum ClosestPackageJson {
    /// Looking failed.
    Failed,
    /// There is none.
    Absent,
    /// There is one, with this `type` (`none` where the field is missing).
    Found(String),
}

/// What the file system says of a specifier.
#[derive(Debug, Clone, PartialEq, Eq)]
pub struct PackageProbe {
    /// The specifier lies inside an installed npm package.
    pub in_npm_package: bool,
    /// The specifier is a file URL that maps to a path.
    pub is_file_path: bool,
    /// The path has an extension.
    pub has_extension: bool,
    pub closest: ClosestPackageJson,
}

/// What is remembered of one specifier.
#[derive(Debug, Clone, PartialEq, Eq)]
pub struct Known {
    pub specifier: String,
    pub mode: ResolutionMode,
}

/// The answer to the question whether a module is CommonJS.
#[derive(Debug, Clone, Copy, PartialEq, Eq, Structural)]
pub enum CjsQuery {
    Answer(bool),
    /// The nearest `package.json` decides: look for it and call
    /// `is_cjs_with_package_json`.
    NeedPackageJson,
}

/// The tracker: its mode and what it remembers.
#[derive(Debug, Clone, PartialEq, Eq)]
pub struct CjsTracker {
    pub mode: IsCjsResolutionMode,
    pub known: Vec<Known>,
}

/// The index of the first remembered entry for the specifier at or after
/// `from`; the length of the list where there is none.
pub open spec fn known_index(known: Seq<Known>, specifier: Seq<char>, from: int) -> int
    decreases known.len() - from,
{
    if from < 0 || from >= known.len() {
        known.len() as int
    } else if known[from].specifier@ == specifier {
        from
    } else {
        known_index(known, specifier, from + 1)
    }
}

/// What is remembered of the specifier.
pub open spec fn known_mode(known: Seq<Known>, specifier: Seq<char>) -> Option<ResolutionMode> {
    let i = known_index(known, specifier, 0);
    if i < known.len() {
        Some(known[i].mode)
    } else {
        None
    }
}

/// Media types that are never CommonJS.
pub open spec fn always_esm(media_type: MediaType) -> bool {
    media_type == MediaType::Mts || media_type == MediaType::Mjs || media_type == MediaType::Dmts
}

/// Media types that are data, not code.
pub open spec fn is_data(media_type: MediaType) -> bool {
    media_type == MediaType::Wasm || media_type == MediaType::Json || media_type
        == MediaType::Jsonc || media_type == MediaType::Json5 || media_type == MediaType::Html
        || media_type == MediaType::Markdown || media_type == MediaType::Sql
}

/// Media types that are always CommonJS.
pub open spec fn always_cjs(media_type: MediaType) -> bool {
    media_type == MediaType::Cjs || media_type == MediaType::Cts || media_type == MediaType::Dcts
}

/// What the mode and the file system say of a file.
pub open spec fn mode_by_package_json(mode: IsCjsResolutionMode, probe: PackageProbe) -> Result<
    ResolutionMode,
    (),
> {
    if probe.in_npm_package {
        if !probe.is_file_path {
            Ok(ResolutionMode::Require)
        } else {
            match probe.closest {
                ClosestPackageJson::Failed => Err(()),
                ClosestPackageJson::Absent => Ok(ResolutionMode::Require),
                ClosestPackageJson::Found(typ) => if typ@ != "module"@ || !probe.has_extension {
                    Ok(ResolutionMode::Require)
                } else {
                    Ok(ResolutionMode::Import)
                },
            }
        }
    } else if mode != IsCjsResolutionMode::Disabled {
        if !probe.is_file_path {
            Ok(ResolutionMode::Import)
        } else {
            match probe.closest {
                ClosestPackageJson::Failed => Err(()),
                ClosestPackageJson::Absent => if mode == IsCjsResolutionMode::ImplicitTypeCommonJs {
                    Ok(ResolutionMode::Require)
                } else {
                    Ok(ResolutionMode::Import)
                },
                ClosestPackageJson::Found(typ) => if typ@ == "commonjs"@ || (mode
                    == IsCjsResolutionMode::ImplicitTypeCommonJs && typ@ == "none"@) {
                    Ok(ResolutionMode::Require)
                } else {
                    Ok(ResolutionMode::Import)
                },
            }
        }
    } else {
        Ok(ResolutionMode::Import)
    }
}

/// What the tracker answers, and what it remembers of the specifier
/// afterwards (`None`: what it remembered before).
pub open spec fn query_result(
    known: Option<ResolutionMode>,
    is_file: bool,
    media_type: MediaType,
    is_script: Option<bool>,
) -> (CjsQuery, Option<ResolutionMode>) {
    if !is_file || always_esm(media_type) || is_data(media_type) {
        (CjsQuery::Answer(false), None)
    } else if always_cjs(media_type) {
        (CjsQuery::Answer(true), None)
    } else if media_type == MediaType::Dts {
        match known {
            Some(mode) => (CjsQuery::Answer(mode == ResolutionMode::Require), None),
            None => (CjsQuery::NeedPackageJson, None),
        }
    } else {
        match known {
            Some(mode) => if mode == ResolutionMode::Require && is_script == Some(false) {
                (CjsQuery::Answer(false), Some(ResolutionMode::Import))
            } else {
                (CjsQuery::Answer(mode == ResolutionMode::Require), None)
            },
            None => if is_script == Some(false) {
                (CjsQuery::Answer(false), Some(ResolutionMode::Import))
            } else {
                (CjsQuery::NeedPackageJson, None)
            },
        }
    }
}

/// Whether a file may be CommonJS, going by its scheme and media type
/// alone.
pub open spec fn maybe_cjs(is_file: bool, media_type: MediaType) -> bool {
    is_file && !(media_type == MediaType::Wasm || media_type == MediaType::Json || media_type
        == MediaType::Mts || media_type == MediaType::Mjs || media_type == MediaType::Dmts)
}

/// Tells what the mode and the file system say of a file.
pub fn check_based_on_pkg_json(mode: IsCjsResolutionMode, probe: &PackageProbe) -> (r: Result<
    ResolutionMode,
    (),
>)
    ensures
        r == mode_by_package_json(mode, *probe),
{
    if probe.in_npm_package {
        if !probe.is_file_path {
            return Ok(ResolutionMode::Require);
        }
        match &probe.closest {
            ClosestPackageJson::Failed => Err(()),
            ClosestPackageJson::Absent => Ok(ResolutionMode::Require),
            ClosestPackageJson::Found(typ) => {
                if !same_text(typ.as_str(), "module") || !probe.has_extension {
                    Ok(ResolutionMode::Require)
                } else {
                    Ok(ResolutionMode::Import)
                }
            },
        }
    } else if mode != IsCjsResolutionMode::Disabled {
        if !probe.is_file_path {
            return Ok(ResolutionMode::Import);
        }
        match &probe.closest {
            ClosestPackageJson::Failed => Err(()),
            ClosestPackageJson::Absent => {
                if mode == IsCjsResolutionMode::ImplicitTypeCommonJs {
                    Ok(ResolutionMode::Require)
                } else {
                    Ok(ResolutionMode::Import)
                }
            },
            ClosestPackageJson::Found(typ) => {
                if same_text(typ.as_str(), "commonjs") || (mode
                    == IsCjsResolutionMode::ImplicitTypeCommonJs && same_text(
                    typ.as_str(),
                    "none",
                )) {
                    Ok(ResolutionMode::Require)
                } else {
                    Ok(ResolutionMode::Import)
                }
            },
        }
    } else {
        Ok(ResolutionMode::Import)
    }
}

/// Tells whether a file may be CommonJS, going by its scheme and media
/// type alone.
pub fn is_maybe_cjs(is_file: bool, media_type: MediaType) -> (r: bool)
    ensures
        r == maybe_cjs(is_file, media_type),
{
    if !is_file {
        return false;
    }
    match media_type {
        MediaType::Wasm | MediaType::Json | MediaType::Mts | MediaType::Mjs
        | MediaType::Dmts => false,
        _ => true,
    }
}

impl CjsTracker {
    /// What the tracker remembers of a specifier.
    pub open spec fn remembered(&self, specifier: Seq<char>) -> Option<ResolutionMode> {
        known_mode(self.known@, specifier)
    }

    /// A tracker that remembers nothing.
    pub fn new(mode: IsCjsResolutionMode) -> (r: CjsTracker)
        ensures
            r.mode == mode,
            forall|s: Seq<char>| r.remembered(s) is None,
    {
        CjsTracker { mode, known: Vec::new() }
    }

    /// Finds the first remembered entry for the specifier.
    fn find(&self, specifier: &str) -> (r: usize)
        ensures
            r == known_index(self.known@, specifier@, 0),
            r <= self.known.len(),
            r < self.known.len() ==> self.known@[r as int].specifier@ == specifier@,
    {
        let mut i: usize = 0;
        while i < self.known.len()
            invariant
                i <= self.known.len(),
                known_index(self.known@, specifier@, 0) == known_index(
                    self.known@,
                    specifier@,
                    i as int,
                ),
            decreases self.known.len() - i,
        {
            if same_text(self.known[i].specifier.as_str(), specifier) {
                return i;
            }
            i = i + 1;
        }
        i
    }

    /// What the tracker remembers of a specifier.
    pub fn get_known(&self, specifier: &str) -> (r: Option<ResolutionMode>)
        ensures
            r == self.remembered(specifier@),
    {
        let i: usize = self.find(specifier);
        if i < self.known.len() {
            Some(self.known[i].mode)
        } else {
            None
        }
    }

    /// Remembers the mode of a specifier in place of what was remembered.
    pub fn set_known(&mut self, specifier: &str, mode: ResolutionMode)
        ensures
            final(self).mode == old(self).mode,
            forall|s: Seq<char>|
                final(self).remembered(s) == (if s == specifier@ {
                    Some(mode)
                } else {
                    old(self).remembered(s)
                }),
    {
        let i: usize = self.find(specifier);
        let ghost before = self.known@;
        if i < self.known.len() {
            let entry = Known { specifier: specifier.to_owned(), mode };
            self.known.set(i, entry);
            proof {
                let after = self.known@;
                assert forall|s: Seq<char>|
                    known_mode(after, s) == (if s == specifier@ {
                        Some(mode)
                    } else {
                        known_mode(before, s)
                    }) by {
                    lemma_known_index(before, s, 0);
                    lemma_known_index(after, s, 0);
                    lemma_known_index(before, specifier@, 0);
                    let j = known_index(before, s, 0);
                    if s == specifier@ {
                        lemma_known_index_is(after, s, 0, i as int);
                    } else {
                        assert forall|k: int| 0 <= k < j implies (#[trigger] after[k]).specifier@
                            != s by {
                            if k != i {
                                assert(after[k] == before[k]);
                            }
                        }
                        if j < before.len() {
                            assert(after[j] == before[j]);
                        }
                        lemma_known_index_is(after, s, 0, j);
                    }
                }
            }
        } else {
            self.known.push(Known { specifier: specifier.to_owned(), mode });
            proof {
                let after = self.known@;
                assert forall|s: Seq<char>|
                    known_mode(after, s) == (if s == specifier@ {
                        Some(mode)
                    } else {
                        known_mode(before, s)
                    }) by {
                    lemma_known_index(before, s, 0);
                    lemma_known_index(before, specifier@, 0);
                    let j = known_index(before, s, 0);
                    assert forall|k: int| 0 <= k < before.len() implies after[k]
                        == before[k] by {}
                    if j < before.len() {
                        assert(after[j] == before[j]);
                        assert forall|k: int| 0 <= k < j implies (#[trigger] after[k]).specifier@
                            != s by {
                            assert(after[k] == before[k]);
                        }
                        lemma_known_index_is(after, s, 0, j);
                    } else {
                        assert forall|k: int| 0 <= k < before.len() implies (
                        #[trigger] after[k]).specifier@ != s by {
                            assert(after[k] == before[k]);
                        }
                        if s == specifier@ {
                            lemma_known_index_is(after, s, 0, before.len() as int);
                        } else {
                            lemma_known_index_is(after, s, 0, after.len() as int);
                        }
                    }
                }
            }
        }
    }

    /// Asks whether the module is CommonJS. `is_script` is what is known
    /// of the shape of its source: `Some(false)` for a source with
    /// ECMAScript imports or exports, `None` where the source was not
    /// looked at.
    pub fn query(
        &mut self,
        specifier: &str,
        is_file: bool,
        media_type: MediaType,
        is_script: Option<bool>,
    ) -> (r: CjsQuery)
        ensures
            r == query_result(
                old(self).remembered(specifier@),
                is_file,
                media_type,
                is_script,
            ).0,
            final(self).mode == old(self).mode,
            forall|s: Seq<char>|
                final(self).remembered(s) == (if s == specifier@ && query_result(
                    old(self).remembered(specifier@),
                    is_file,
                    media_type,
                    is_script,
                ).1 is Some {
                    query_result(
                        old(self).remembered(specifier@),
                        is_file,
                        media_type,
                        is_script,
                    ).1
                } else {
                    old(self).remembered(s)
                }),
    {
        if !is_file {
            return CjsQuery::Answer(false);
        }
        match media_type {
            MediaType::Mts | MediaType::Mjs | MediaType::Dmts | MediaType::Wasm | MediaType::Json
            | MediaType::Jsonc | MediaType::Json5 | MediaType::Html | MediaType::Markdown
            | MediaType::Sql => CjsQuery::Answer(false),
            MediaType::Cjs | MediaType::Cts | MediaType::Dcts => CjsQuery::Answer(true),
            MediaType::Dts => match self.get_known(specifier) {
                Some(mode) => CjsQuery::Answer(mode == ResolutionMode::Require),
                None => CjsQuery::NeedPackageJson,
            },
            _ => {
                let script_is_esm: bool = match is_script {
                    Some(s) => !s,
                    None => false,
                };
                match self.get_known(specifier) {
                    Some(mode) => {
                        if mode == ResolutionMode::Require && script_is_esm {
                            self.set_known(specifier, ResolutionMode::Import);
                            CjsQuery::Answer(false)
                        } else {
                            CjsQuery::Answer(mode == ResolutionMode::Require)
                        }
                    },
                    None => {
                        if script_is_esm {
                            self.set_known(specifier, ResolutionMode::Import);
                            CjsQuery::Answer(false)
                        } else {
                            CjsQuery::NeedPackageJson
                        }
                    },
                }
            },
        }
    }

    /// Asks whether the module is CommonJS, knowing the shape of its
    /// source. A source with ECMAScript imports or exports is remembered
    /// as an ES module; nothing else changes in what is remembered.
    pub fn is_cjs(&mut self, specifier: &str, is_file: bool, media_type: MediaType, is_script: bool)
        -> (r: CjsQuery)
        ensures
            r == query_result(
                old(self).remembered(specifier@),
                is_file,
                media_type,
                Some(is_script),
            ).0,
            final(self).mode == old(self).mode,
            forall|s: Seq<char>|
                final(self).remembered(s) == (if s == specifier@ && query_result(
                    old(self).remembered(specifier@),
                    is_file,
                    media_type,
                    Some(is_script),
                ).1 is Some {
                    query_result(
                        old(self).remembered(specifier@),
                        is_file,
                        media_type,
                        Some(is_script),
                    ).1
                } else {
                    old(self).remembered(s)
                }),
    {
        self.query(specifier, is_file, media_type, Some(is_script))
    }

    /// Answers a question that the nearest `package.json` decides, and
    /// remembers the answer. Where looking for the file failed, the module
    /// counts as CommonJS and nothing is remembered.
    pub fn is_cjs_with_package_json(&mut self, specifier: &str, probe: &PackageProbe) -> (r: bool)
        ensures
            r == (match mode_by_package_json(old(self).mode, *probe) {
                Ok(mode) => mode == ResolutionMode::Require,
                Err(_) => true,
            }),
            final(self).mode == old(self).mode,
            forall|s: Seq<char>|
                final(self).remembered(s) == (if s == specifier@ && mode_by_package_json(
                    old(self).mode,
                    *probe,
                ) is Ok {
                    Some(mode_by_package_json(old(self).mode, *probe)->Ok_0)
                } else {
                    old(self).remembered(s)
                }),
    {
        match check_based_on_pkg_json(self.mode, probe) {
            Ok(mode) => {
                self.set_known(specifier, mode);
                mode == ResolutionMode::Require
            },
            Err(_) => true,
        }
    }

    /// Answers a question that the nearest `package.json` decides, for the
    /// analysis of a module, and remembers the answer. Where looking for
    /// the file failed there is no answer: the failure is reported and
    /// nothing is remembered.
    pub fn is_cjs_or_failure(&mut self, specifier: &str, probe: &PackageProbe) -> (r: Result<
        bool,
        String,
    >)
        ensures
            match mode_by_package_json(old(self).mode, *probe) {
                Ok(mode) => r == Ok::<bool, String>(mode == ResolutionMode::Require),
                Err(_) => r matches Err(m) && m@ == "Failed to read the package.json of: "@
                    + specifier@,
            },
            final(self).mode == old(self).mode,
            forall|s: Seq<char>|
                final(self).remembered(s) == (if s == specifier@ && mode_by_package_json(
                    old(self).mode,
                    *probe,
                ) is Ok {
                    Some(mode_by_package_json(old(self).mode, *probe)->Ok_0)
                } else {
                    old(self).remembered(s)
                }),
    {
        match check_based_on_pkg_json(self.mode, probe) {
            Ok(mode) => {
                self.set_known(specifier, mode);
                Ok(mode == ResolutionMode::Require)
            },
            Err(_) => Err(join2("Failed to read the package.json of: ", specifier)),
        }
    }
}

/// `known_index` finds the first entry for the specifier at or after
/// `from`.
pub proof fn lemma_known_index(known: Seq<Known>, specifier: Seq<char>, from: int)
    requires
        0 <= from <= known.len(),
    ensures
        from <= known_index(known, specifier, from) <= known.len(),
        forall|k: int|
            from <= k < known_index(known, specifier, from) ==> (#[trigger] known[k]).specifier@
                != specifier,
        known_index(known, specifier, from) < known.len() ==> known[known_index(
            known,
            specifier,
            from,
        )].specifier@ == specifier,
    decreases known.len() - from,
{
    if from < known.len() && known[from].specifier@ != specifier {
        lemma_known_index(known, specifier, from + 1);
    }
}

/// An index that is the first for the specifier at or after `from` is the
/// one that `known_index` returns.
pub proof fn lemma_known_index_is(known: Seq<Known>, specifier: Seq<char>, from: int, r: int)
    requires
        0 <= from <= r <= known.len(),
        forall|k: int| from <= k < r ==> (#[trigger] known[k]).specifier@ != specifier,
        r < known.len() ==> known[r].specifier@ == specifier,
    ensures
        known_index(known, specifier, from) == r,
    decreases r - from,
{
    if from < r {
        lemma_known_index_is(known, specifier, from + 1, r);
    }
}

} // verus!
