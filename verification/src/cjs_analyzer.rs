//! Classifying a module as an ES module or as CommonJS.
//!
//! JSON is CommonJS without exports, and the media types of ES modules are
//! ES modules: neither is parsed, and the tracker is not asked about them.
//! For any other module a verdict that is memoized for the specifier and
//! the hash of the source is handed out at once; else the tracker is asked
//! whether it may be CommonJS; only then is the source parsed, the tracker
//! asked again with the shape of the source, and the exports read off a
//! CommonJS module. Parsing is done by the `deno_ast` crate. The tracker is
//! asked by the caller, who can read the `package.json` that it may need.

use vstd::prelude::*;
use vstd::string::*;

use crate::cjs_cache::{
    no_exports, AnalysisView, CliCjsAnalysis, ExportsView, ModuleExportsAndReExports,
    NodeAnalysisCache,
};
use crate::cjs_tracker::always_esm;
use crate::error::LoaderError;
use crate::media::{media_type_of, MediaType};
use crate::text::{chars_of, same_text, slice_text};

verus! {

/// `deno_ast::ParsedSource`, a parsed source. Nothing inside it is looked
/// at here.
#[verifier::external_type_specification]
#[verifier::external_body]
pub struct ExParsedSource(deno_ast::ParsedSource);

/// A parsed source together with the specifier and the text that it was
/// parsed from. Values are made by `parse_program` alone.
pub struct ParsedModule {
    specifier: String,
    text: String,
    parsed: deno_ast::ParsedSource,
}

impl ParsedModule {
    /// The specifier that the module was parsed under.
    pub closed spec fn specifier_text(&self) -> Seq<char> {
        self.specifier@
    }

    /// The text that the module was parsed from.
    pub closed spec fn source_text(&self) -> Seq<char> {
        self.text@
    }

    /// The specifier that the module was parsed under.
    pub fn specifier(&self) -> (r: &str)
        ensures
            r@ == self.specifier_text(),
    {
        self.specifier.as_str()
    }
}

/// The message with which `deno_ast::parse_program` refuses a text under a
/// specifier; `None` where it parses the text.
pub uninterp spec fn parse_failure(specifier: Seq<char>, text: Seq<char>) -> Option<Seq<char>>;

/// What `deno_ast::ParsedSource::compute_is_script` says of the parse of a
/// text under a specifier: the source is a script, not a module.
pub uninterp spec fn script_shape(specifier: Seq<char>, text: Seq<char>) -> bool;

/// What `deno_ast::ParsedSource::analyze_cjs` reads off the parse of a text
/// under a specifier.
pub uninterp spec fn cjs_exports(specifier: Seq<char>, text: Seq<char>) -> ExportsView;

/// The byte-order mark.
pub open spec fn is_mark(c: char) -> bool {
    c == '\u{feff}'
}

/// The index of the first character at or after `from` that is no
/// byte-order mark; the length of the text where there is none.
pub open spec fn first_unmarked(text: Seq<char>, from: int) -> int
    decreases text.len() - from,
{
    if from < 0 || from >= text.len() {
        text.len() as int
    } else if !is_mark(text[from]) {
        from
    } else {
        first_unmarked(text, from + 1)
    }
}

/// The text without the byte-order marks that it begins with.
pub open spec fn unmarked(text: Seq<char>) -> Seq<char> {
    text.subrange(first_unmarked(text, 0), text.len() as int)
}

/// The text begins with no byte-order mark.
pub open spec fn begins_unmarked(text: Seq<char>) -> bool {
    text.len() == 0 || !is_mark(text[0])
}

/// `first_unmarked` stays inside the text and points at no mark.
pub proof fn lemma_first_unmarked(text: Seq<char>, from: int)
    requires
        0 <= from <= text.len(),
    ensures
        from <= first_unmarked(text, from) <= text.len(),
        first_unmarked(text, from) < text.len() ==> !is_mark(text[first_unmarked(text, from)]),
    decreases text.len() - from,
{
    if from < text.len() && is_mark(text[from]) {
        lemma_first_unmarked(text, from + 1);
    }
}

/// The text without the byte-order marks that it begins with.
pub fn strip_marks(text: &str) -> (r: String)
    ensures
        r@ == unmarked(text@),
        begins_unmarked(r@),
{
    let v: Vec<char> = chars_of(text);
    let mut i: usize = 0;
    while i < v.len() && v[i] == '\u{feff}'
        invariant
            v@ == text@,
            i <= v.len(),
            first_unmarked(v@, 0) == first_unmarked(v@, i as int),
        decreases v.len() - i,
    {
        i = i + 1;
    }
    proof {
        lemma_first_unmarked(text@, 0);
    }
    slice_text(text, i, v.len())
}

/// Calls `deno_ast::parse_program` on the text, with the specifier parsed
/// by `url::Url::parse`, the media type of `MediaType::from_specifier`, with
/// tokens and without scope analysis. The module that comes back holds the
/// specifier and the text that were handed in; an error is the outside
/// error's message. The outside parser may panic on a text that begins
/// with a byte-order mark: the precondition leaves such a text out.
#[verifier::external_body]
pub(crate) fn parse_program(specifier: &str, text: &str) -> (r: Result<ParsedModule, String>)
    requires
        begins_unmarked(text@),
    ensures
        match r {
            Ok(m) => parse_failure(specifier@, text@) is None && m.specifier_text() == specifier@
                && m.source_text() == text@,
            Err(e) => parse_failure(specifier@, text@) == Some(e@),
        },
{
    let url = url::Url::parse(specifier).map_err(|e| e.to_string())?;
    let params = deno_ast::ParseParams {
        media_type: deno_ast::MediaType::from_specifier(&url),
        specifier: url,
        text: text.into(),
        capture_tokens: true,
        scope_analysis: false,
        maybe_syntax: None,
    };
    let parsed = deno_ast::parse_program(params).map_err(|e| e.to_string())?;
    Ok(ParsedModule { specifier: specifier.to_string(), text: text.to_string(), parsed })
}

/// Calls `ParsedSource::compute_is_script` on the parse that the module
/// holds, which is the parse of its specifier and text.
#[verifier::external_body]
pub(crate) fn compute_is_script(module: &ParsedModule) -> (r: bool)
    ensures
        r == script_shape(module.specifier_text(), module.source_text()),
{
    module.parsed.compute_is_script()
}

/// Calls `ParsedSource::analyze_cjs` on the parse that the module holds,
/// which is the parse of its specifier and text, and moves the two lists
/// out.
#[verifier::external_body]
pub(crate) fn analyze_parsed(module: &ParsedModule) -> (r: ModuleExportsAndReExports)
    ensures
        r@ == cjs_exports(module.specifier_text(), module.source_text()),
{
    let found = module.parsed.analyze_cjs();
    ModuleExportsAndReExports { exports: found.exports, reexports: found.reexports }
}

/// Parsed sources kept for reuse, at most one for a specifier.
pub struct ParsedSourceCache {
    sources: Vec<ParsedModule>,
}

/// The index of the first module parsed under the specifier at or after
/// `from`; the length of the list where there is none.
pub open spec fn source_index(sources: Seq<ParsedModule>, specifier: Seq<char>, from: int) -> int
    decreases sources.len() - from,
{
    if from < 0 || from >= sources.len() {
        sources.len() as int
    } else if sources[from].specifier_text() == specifier {
        from
    } else {
        source_index(sources, specifier, from + 1)
    }
}

/// `source_index` finds the first module under the specifier.
pub proof fn lemma_source_index(sources: Seq<ParsedModule>, specifier: Seq<char>, from: int)
    requires
        0 <= from <= sources.len(),
    ensures
        from <= source_index(sources, specifier, from) <= sources.len(),
        forall|k: int|
            from <= k < source_index(sources, specifier, from) ==> (
            #[trigger] sources[k]).specifier_text() != specifier,
        source_index(sources, specifier, from) < sources.len() ==> sources[source_index(
            sources,
            specifier,
            from,
        )].specifier_text() == specifier,
    decreases sources.len() - from,
{
    if from < sources.len() && sources[from].specifier_text() != specifier {
        lemma_source_index(sources, specifier, from + 1);
    }
}

impl ParsedSourceCache {
    /// No specifier is kept twice.
    pub closed spec fn wf(&self) -> bool {
        forall|i: int, j: int|
            0 <= i < j < self.sources@.len() ==> (#[trigger] self.sources@[i]).specifier_text() != (
            #[trigger] self.sources@[j]).specifier_text()
    }

    /// The text of the module kept under the specifier.
    pub closed spec fn text_of(&self, specifier: Seq<char>) -> Option<Seq<char>> {
        let i = source_index(self.sources@, specifier, 0);
        if i < self.sources@.len() {
            Some(self.sources@[i].source_text())
        } else {
            None
        }
    }

    /// A cache that keeps nothing.
    pub fn new() -> (r: ParsedSourceCache)
        ensures
            r.wf(),
            forall|s: Seq<char>| r.text_of(s) is None,
    {
        ParsedSourceCache { sources: Vec::new() }
    }

    /// Finds the module kept under the specifier.
    fn find(&self, specifier: &str) -> (r: usize)
        ensures
            r == source_index(self.sources@, specifier@, 0),
            r <= self.sources.len(),
    {
        let mut i: usize = 0;
        while i < self.sources.len()
            invariant
                i <= self.sources.len(),
                source_index(self.sources@, specifier@, 0) == source_index(
                    self.sources@,
                    specifier@,
                    i as int,
                ),
            decreases self.sources.len() - i,
        {
            if same_text(self.sources[i].specifier(), specifier) {
                return i;
            }
            i = i + 1;
        }
        i
    }

    /// Tells whether a module is kept under the specifier.
    pub fn has_parsed_source(&self, specifier: &str) -> (r: bool)
        ensures
            r == self.text_of(specifier@) is Some,
    {
        let i: usize = self.find(specifier);
        i < self.sources.len()
    }

    /// Keeps a parsed module under its specifier, in place of the one kept
    /// there before, which is handed back.
    pub fn set_parsed_source(&mut self, module: ParsedModule) -> (r: Option<ParsedModule>)
        requires
            old(self).wf(),
        ensures
            final(self).wf(),
            forall|s: Seq<char>|
                final(self).text_of(s) == (if s == module.specifier_text() {
                    Some(module.source_text())
                } else {
                    old(self).text_of(s)
                }),
            match r {
                Some(m) => m.specifier_text() == module.specifier_text() && old(self).text_of(
                    module.specifier_text(),
                ) == Some(m.source_text()),
                None => old(self).text_of(module.specifier_text()) is None,
            },
    {
        let ghost key = module.specifier_text();
        let ghost added = module;
        let before = self.remove_parsed_source(module.specifier());
        let ghost mid = *self;
        let ghost middle = self.sources@;
        self.sources.push(module);
        proof {
            let after = self.sources@;
            assert(after =~= middle.push(added));
            lemma_source_index(middle, key, 0);
            assert(mid.text_of(key) is None);
            assert forall|s: Seq<char>|
                self.text_of(s) == (if s == key {
                    Some(added.source_text())
                } else {
                    mid.text_of(s)
                }) by {
                lemma_source_index(middle, s, 0);
                let j = source_index(middle, s, 0);
                if j < middle.len() {
                    assert(after[j] == middle[j]);
                    assert forall|k: int| 0 <= k < j implies (
                    #[trigger] after[k]).specifier_text() != s by {
                        assert(after[k] == middle[k]);
                    }
                    lemma_source_index_is(after, s, 0, j);
                } else {
                    assert forall|k: int| 0 <= k < middle.len() implies (
                    #[trigger] after[k]).specifier_text() != s by {
                        assert(after[k] == middle[k]);
                    }
                    if s == key {
                        lemma_source_index_is(after, s, 0, middle.len() as int);
                    } else {
                        lemma_source_index_is(after, s, 0, after.len() as int);
                    }
                }
            }
            assert(mid.wf());
            assert forall|i: int, j: int| 0 <= i < j < after.len() implies (
            #[trigger] after[i]).specifier_text() != (#[trigger] after[j]).specifier_text() by {
                assert(after[i] == middle[i]);
                if j < middle.len() {
                    assert(after[j] == middle[j]);
                } else {
                    assert(after[j] == added);
                    assert(middle[i].specifier_text() != key);
                }
            }
        }
        before
    }

    /// Takes the module kept under the specifier out of the cache.
    pub fn remove_parsed_source(&mut self, specifier: &str) -> (r: Option<ParsedModule>)
        requires
            old(self).wf(),
        ensures
            final(self).wf(),
            forall|s: Seq<char>|
                final(self).text_of(s) == (if s == specifier@ {
                    None
                } else {
                    old(self).text_of(s)
                }),
            match r {
                Some(m) => m.specifier_text() == specifier@ && old(self).text_of(specifier@)
                    == Some(m.source_text()),
                None => old(self).text_of(specifier@) is None,
            },
    {
        let i: usize = self.find(specifier);
        let ghost before = self.sources@;
        proof {
            lemma_source_index(before, specifier@, 0);
        }
        if i < self.sources.len() {
            let taken: ParsedModule = self.sources.remove(i);
            proof {
                let after = self.sources@;
                assert forall|k: int| 0 <= k < after.len() implies #[trigger] after[k] == (if k
                    < i {
                    before[k]
                } else {
                    before[k + 1]
                }) by {}
                assert forall|s: Seq<char>|
                    final(self).text_of(s) == (if s == specifier@ {
                        None
                    } else {
                        old(self).text_of(s)
                    }) by {
                    lemma_source_index(before, s, 0);
                    let j = source_index(before, s, 0);
                    if s == specifier@ {
                        assert forall|k: int| 0 <= k < after.len() implies (
                        #[trigger] after[k]).specifier_text() != s by {
                            if k < i {
                                assert(after[k] == before[k]);
                            } else {
                                assert(after[k] == before[k + 1]);
                            }
                        }
                        lemma_source_index_is(after, s, 0, after.len() as int);
                    } else if j < before.len() {
                        let target = if j < i {
                            j
                        } else {
                            j - 1
                        };
                        assert(after[target] == before[j]);
                        assert forall|k: int| 0 <= k < target implies (
                        #[trigger] after[k]).specifier_text() != s by {
                            if k < i {
                                assert(after[k] == before[k]);
                            } else {
                                assert(after[k] == before[k + 1]);
                            }
                        }
                        lemma_source_index_is(after, s, 0, target);
                    } else {
                        assert forall|k: int| 0 <= k < after.len() implies (
                        #[trigger] after[k]).specifier_text() != s by {
                            if k < i {
                                assert(after[k] == before[k]);
                            } else {
                                assert(after[k] == before[k + 1]);
                            }
                        }
                        lemma_source_index_is(after, s, 0, after.len() as int);
                    }
                }
                assert forall|a: int, b: int| 0 <= a < b < after.len() implies (
                #[trigger] after[a]).specifier_text() != (
                #[trigger] after[b]).specifier_text() by {
                    let x = if a < i {
                        a
                    } else {
                        a + 1
                    };
                    let y = if b < i {
                        b
                    } else {
                        b + 1
                    };
                    assert(after[a] == before[x]);
                    assert(after[b] == before[y]);
                }
            }
            Some(taken)
        } else {
            None
        }
    }

    /// Frees the parsed source of a specifier.
    pub fn free(&mut self, specifier: &str)
        requires
            old(self).wf(),
        ensures
            final(self).wf(),
            forall|s: Seq<char>|
                final(self).text_of(s) == (if s == specifier@ {
                    None
                } else {
                    old(self).text_of(s)
                }),
    {
        let _ = self.remove_parsed_source(specifier);
    }

    /// Frees all parsed sources.
    pub fn free_all(&mut self)
        ensures
            final(self).wf(),
            forall|s: Seq<char>| final(self).text_of(s) is None,
    {
        self.sources = Vec::new();
    }
}

/// An index that is the first under the specifier at or after `from` is
/// the one that `source_index` returns.
pub proof fn lemma_source_index_is(
    sources: Seq<ParsedModule>,
    specifier: Seq<char>,
    from: int,
    r: int,
)
    requires
        0 <= from <= r <= sources.len(),
        forall|k: int| from <= k < r ==> (#[trigger] sources[k]).specifier_text() != specifier,
        r < sources.len() ==> sources[r].specifier_text() == specifier,
    ensures
        source_index(sources, specifier, from) == r,
    decreases r - from,
{
    if from < r {
        lemma_source_index_is(sources, specifier, from + 1, r);
    }
}

/// Why a module could not be classified.
#[derive(Debug, Clone, PartialEq, Eq)]
pub enum AnalysisError {
    /// The tracker could not say whether the module is CommonJS.
    Tracker(String),
    /// The source could not be parsed.
    Parse(String),
}

impl AnalysisError {
    /// The load failure that the error stands for: a source that does not
    /// parse is a parse failure, a tracker without an answer a failed
    /// resolution.
    pub fn to_loader_error(&self) -> (r: LoaderError)
        ensures
            match *self {
                AnalysisError::Parse(m) => r matches LoaderError::ParseFailed(e) && e@ == m@,
                AnalysisError::Tracker(m) => r matches LoaderError::ResolutionFailed(e) && e@
                    == m@,
            },
    {
        match self {
            AnalysisError::Parse(m) => LoaderError::ParseFailed(m.clone()),
            AnalysisError::Tracker(m) => LoaderError::ResolutionFailed(m.clone()),
        }
    }
}

/// A module about which the tracker is asked whether it may be CommonJS.
#[derive(Debug, Clone, PartialEq, Eq)]
pub struct PendingAnalysis {
    pub specifier: String,
    pub source: String,
    pub source_hash: u64,
    pub media_type: MediaType,
}

/// A parsed module about which the tracker is asked whether it is
/// CommonJS, now that the shape of its source is known.
pub struct ParsedAnalysis {
    pub specifier: String,
    pub source_hash: u64,
    pub media_type: MediaType,
    pub is_script: bool,
    pub module: ParsedModule,
}

impl ParsedModule {
    /// Parses a source under its specifier, for `set_parsed_source` to keep
    /// or for an analysis to use. Byte-order marks at the beginning of the
    /// source are dropped before it is parsed.
    pub fn parse(specifier: &str, text: &str) -> (r: Result<ParsedModule, AnalysisError>)
        ensures
            match r {
                Ok(m) => parse_failure(specifier@, unmarked(text@)) is None && m.specifier_text()
                    == specifier@ && m.source_text() == unmarked(text@),
                Err(e) => e matches AnalysisError::Parse(m) && parse_failure(
                    specifier@,
                    unmarked(text@),
                ) == Some(m@),
            },
    {
        let source: String = strip_marks(text);
        match parse_program(specifier, source.as_str()) {
            Ok(m) => Ok(m),
            Err(e) => Err(AnalysisError::Parse(e)),
        }
    }

    /// The text that the module was parsed from.
    pub fn text(&self) -> (r: &str)
        ensures
            r@ == self.source_text(),
    {
        self.text.as_str()
    }
}

impl ParsedAnalysis {
    /// The text that was parsed: the source, or the text of the parse that
    /// was kept for the specifier.
    pub open spec fn parsed_text(&self) -> Seq<char> {
        self.module.source_text()
    }

    /// The module was parsed under the specifier of the analysis, and
    /// `is_script` is the shape of that parse.
    pub open spec fn wf(&self) -> bool {
        &&& self.module.specifier_text() == self.specifier@
        &&& self.is_script == script_shape(self.specifier@, self.module.source_text())
    }
}

/// What the analysis needs next, or what it came to.
pub enum AnalysisStep {
    /// The verdict.
    Done(CliCjsAnalysis),
    /// Ask the tracker whether the module may be CommonJS, without a known
    /// shape, and answer with `on_maybe_cjs`.
    AskMaybeCjs(PendingAnalysis),
    /// Ask the tracker whether the module is CommonJS, with `is_script` as
    /// its shape, and answer with `on_is_cjs`.
    AskIsCjs(ParsedAnalysis),
    Failed(AnalysisError),
}

/// The analyzer: the verdicts memoized and the parsed sources kept.
pub struct AiDenoCjsCodeAnalyzer {
    pub cjs_analysis_cache: NodeAnalysisCache,
    pub parsed_source_cache: ParsedSourceCache,
}

/// The verdict that needs neither the tracker nor the parser: CommonJS
/// without exports for JSON, an ES module for the media types that are
/// always ES modules, and the memoized verdict for any other. `None` where
/// the tracker is to be asked.
pub open spec fn verdict_without_parsing(memo: Option<AnalysisView>, media_type: MediaType)
    -> Option<AnalysisView> {
    if media_type == MediaType::Json {
        Some(AnalysisView::Cjs(no_exports()))
    } else if always_esm(media_type) {
        Some(AnalysisView::Esm)
    } else {
        memo
    }
}

/// The verdict on a parsed module, once the tracker has said whether it is
/// CommonJS.
pub open spec fn verdict_on_parsed(is_cjs: bool, exports: ExportsView) -> AnalysisView {
    if is_cjs {
        AnalysisView::Cjs(exports)
    } else {
        AnalysisView::Esm
    }
}

/// The verdict on a parsed module, once the tracker has said whether it is
/// CommonJS: CommonJS with the exports read off it, or an ES module.
pub fn classify_parsed(is_cjs: bool, exports: ModuleExportsAndReExports) -> (r: CliCjsAnalysis)
    ensures
        r@ == verdict_on_parsed(is_cjs, exports@),
{
    if is_cjs {
        CliCjsAnalysis::Cjs(exports)
    } else {
        CliCjsAnalysis::Esm
    }
}

impl AiDenoCjsCodeAnalyzer {
    /// An analyzer that has memoized nothing and keeps no parsed source.
    pub fn new() -> (r: AiDenoCjsCodeAnalyzer)
        ensures
            r.parsed_source_cache.wf(),
            forall|s: Seq<char>, h: u64| r.cjs_analysis_cache.lookup(s, h) is None,
            forall|s: Seq<char>| r.parsed_source_cache.text_of(s) is None,
    {
        AiDenoCjsCodeAnalyzer {
            cjs_analysis_cache: NodeAnalysisCache::new(),
            parsed_source_cache: ParsedSourceCache::new(),
        }
    }

    /// Begins the analysis of a module: hands out the verdict where neither
    /// the tracker nor the parser is needed, and asks for the tracker
    /// otherwise.
    pub fn begin(&self, specifier: &str, source: &str, source_hash: u64) -> (r: AnalysisStep)
        ensures
            match verdict_without_parsing(
                self.cjs_analysis_cache.lookup(specifier@, source_hash),
                media_type_of(specifier@),
            ) {
                Some(a) => r matches AnalysisStep::Done(v) && v@ == a,
                None => r matches AnalysisStep::AskMaybeCjs(p) && p.specifier@ == specifier@
                    && p.source@ == source@ && p.source_hash == source_hash && p.media_type
                    == media_type_of(specifier@),
            },
    {
        let media_type: MediaType = MediaType::from_specifier(specifier);
        match media_type {
            MediaType::Json => {
                return AnalysisStep::Done(CliCjsAnalysis::Cjs(ModuleExportsAndReExports::empty()));
            },
            MediaType::Mjs | MediaType::Mts | MediaType::Dmts => {
                return AnalysisStep::Done(CliCjsAnalysis::Esm);
            },
            _ => {},
        }
        match self.cjs_analysis_cache.get_cjs_analysis(specifier, source_hash) {
            Some(a) => AnalysisStep::Done(a),
            None => AnalysisStep::AskMaybeCjs(
                PendingAnalysis {
                    specifier: specifier.to_owned(),
                    source: source.to_owned(),
                    source_hash,
                    media_type,
                },
            ),
        }
    }
}

impl PendingAnalysis {
    /// Takes the tracker's answer to whether the module may be CommonJS.
    /// A module that may not be is an ES module, and is not parsed. One
    /// that may be is parsed, without the byte-order marks that it begins
    /// with, unless a parse is kept for its specifier, which is then taken
    /// out of the cache and used.
    pub fn on_maybe_cjs(self, analyzer: &mut AiDenoCjsCodeAnalyzer, answer: Result<bool, String>)
        -> (r: AnalysisStep)
        requires
            old(analyzer).parsed_source_cache.wf(),
        ensures
            final(analyzer).parsed_source_cache.wf(),
            match answer {
                Err(m) => r matches AnalysisStep::Failed(AnalysisError::Tracker(e)) && e@ == m@,
                Ok(false) => r matches AnalysisStep::Done(v) && v@ == AnalysisView::Esm,
                Ok(true) => match old(analyzer).parsed_source_cache.text_of(self.specifier@) {
                    Some(text) => r matches AnalysisStep::AskIsCjs(p) && p.wf() && p.specifier@
                        == self.specifier@ && p.source_hash == self.source_hash
                        && p.media_type == self.media_type && p.parsed_text() == text,
                    None => match parse_failure(self.specifier@, unmarked(self.source@)) {
                        Some(m) => r matches AnalysisStep::Failed(AnalysisError::Parse(e))
                            && e@ == m,
                        None => r matches AnalysisStep::AskIsCjs(p) && p.wf() && p.specifier@
                            == self.specifier@ && p.source_hash == self.source_hash
                            && p.media_type == self.media_type && p.parsed_text() == unmarked(
                            self.source@,
                        ),
                    },
                },
            },
            forall|s: Seq<char>, h: u64|
                final(analyzer).cjs_analysis_cache.lookup(s, h) == (if s == self.specifier@ && h
                    == self.source_hash && answer == Ok::<bool, String>(false) {
                    Some(AnalysisView::Esm)
                } else {
                    old(analyzer).cjs_analysis_cache.lookup(s, h)
                }),
            forall|s: Seq<char>|
                final(analyzer).parsed_source_cache.text_of(s) == (if s == self.specifier@
                    && answer == Ok::<bool, String>(true) {
                    None
                } else {
                    old(analyzer).parsed_source_cache.text_of(s)
                }),
    {
        let maybe: bool = match answer {
            Ok(b) => b,
            Err(m) => {
                return AnalysisStep::Failed(AnalysisError::Tracker(m));
            },
        };
        if !maybe {
            let verdict = CliCjsAnalysis::Esm;
            analyzer.cjs_analysis_cache.set_cjs_analysis(
                self.specifier.as_str(),
                self.source_hash,
                &verdict,
            );
            return AnalysisStep::Done(verdict);
        }
        let kept: Option<ParsedModule> = analyzer.parsed_source_cache.remove_parsed_source(
            self.specifier.as_str(),
        );
        let module: ParsedModule = match kept {
            Some(m) => m,
            None => match ParsedModule::parse(self.specifier.as_str(), self.source.as_str()) {
                Ok(m) => m,
                Err(e) => {
                    return AnalysisStep::Failed(e);
                },
            },
        };
        let is_script: bool = compute_is_script(&module);
        AnalysisStep::AskIsCjs(
            ParsedAnalysis {
                specifier: self.specifier,
                source_hash: self.source_hash,
                media_type: self.media_type,
                is_script,
                module,
            },
        )
    }
}

impl ParsedAnalysis {
    /// Takes the tracker's answer to whether the parsed module is
    /// CommonJS. The verdict is memoized.
    pub fn on_is_cjs(self, analyzer: &mut AiDenoCjsCodeAnalyzer, answer: Result<bool, String>)
        -> (r: AnalysisStep)
        ensures
            match answer {
                Err(m) => r matches AnalysisStep::Failed(AnalysisError::Tracker(e)) && e@ == m@,
                Ok(is_cjs) => r matches AnalysisStep::Done(v) && v@ == verdict_on_parsed(
                    is_cjs,
                    cjs_exports(self.module.specifier_text(), self.parsed_text()),
                ),
            },
            final(analyzer).parsed_source_cache == old(analyzer).parsed_source_cache,
            forall|s: Seq<char>, h: u64|
                final(analyzer).cjs_analysis_cache.lookup(s, h) == (if s == self.specifier@ && h
                    == self.source_hash && answer is Ok {
                    Some(
                        verdict_on_parsed(
                            answer->Ok_0,
                            cjs_exports(self.module.specifier_text(), self.parsed_text()),
                        ),
                    )
                } else {
                    old(analyzer).cjs_analysis_cache.lookup(s, h)
                }),
    {
        let is_cjs: bool = match answer {
            Ok(b) => b,
            Err(m) => {
                return AnalysisStep::Failed(AnalysisError::Tracker(m));
            },
        };
        let verdict: CliCjsAnalysis = if is_cjs {
            classify_parsed(true, analyze_parsed(&self.module))
        } else {
            CliCjsAnalysis::Esm
        };
        analyzer.cjs_analysis_cache.set_cjs_analysis(
            self.specifier.as_str(),
            self.source_hash,
            &verdict,
        );
        AnalysisStep::Done(verdict)
    }
}

/// A JSON module is always CommonJS without exports, and a module whose
/// media type is that of an ES module is always an ES module, whatever its
/// source and whatever is memoized: for neither is the tracker asked or
/// the source parsed.
pub proof fn lemma_verdicts_by_media_type(memo: Option<AnalysisView>, media_type: MediaType)
    ensures
        media_type == MediaType::Json ==> verdict_without_parsing(memo, media_type) == Some(
            AnalysisView::Cjs(no_exports()),
        ),
        media_type == MediaType::Mjs ==> verdict_without_parsing(memo, media_type) == Some(
            AnalysisView::Esm,
        ),
{
}

} // verus!
