//! The verdicts of the CommonJS analysis and the cache that memoizes them.
//!
//! A verdict is kept under the specifier of a module together with the hash
//! of its content: a module whose content has changed has another key and
//! is analysed again.

use vstd::prelude::*;
use vstd::string::*;

use crate::text::same_text;

verus! {

/// The names that a module exports and the modules that it re-exports.
#[derive(Debug, Clone, PartialEq, Eq)]
pub struct ModuleExportsAndReExports {
    pub exports: Vec<String>,
    pub reexports: Vec<String>,
}

pub struct ExportsView {
    pub exports: Seq<Seq<char>>,
    pub reexports: Seq<Seq<char>>,
}

/// The texts of a list of strings.
pub open spec fn texts(v: Seq<String>) -> Seq<Seq<char>> {
    v.map_values(|s: String| s@)
}

impl View for ModuleExportsAndReExports {
    type V = ExportsView;

    open spec fn view(&self) -> ExportsView {
        ExportsView { exports: texts(self.exports@), reexports: texts(self.reexports@) }
    }
}

/// No exports and no re-exports.
pub open spec fn no_exports() -> ExportsView {
    ExportsView { exports: Seq::empty(), reexports: Seq::empty() }
}

/// The verdict on a module.
#[derive(Debug, Clone, PartialEq, Eq)]
pub enum CliCjsAnalysis {
    /// The module is an ES module.
    Esm,
    /// The module is an ES module, and its imports and exports were
    /// analysed.
    EsmAnalysis(ModuleExportsAndReExports),
    /// The module is CommonJS.
    Cjs(ModuleExportsAndReExports),
}

pub enum AnalysisView {
    Esm,
    EsmAnalysis(ExportsView),
    Cjs(ExportsView),
}

impl View for CliCjsAnalysis {
    type V = AnalysisView;

    open spec fn view(&self) -> AnalysisView {
        match *self {
            CliCjsAnalysis::Esm => AnalysisView::Esm,
            CliCjsAnalysis::EsmAnalysis(e) => AnalysisView::EsmAnalysis(e@),
            CliCjsAnalysis::Cjs(e) => AnalysisView::Cjs(e@),
        }
    }
}

/// The view of an optional verdict.
pub open spec fn opt_analysis_view(o: Option<CliCjsAnalysis>) -> Option<AnalysisView> {
    match o {
        Some(a) => Some(a@),
        None => None,
    }
}

/// What the node resolver is told of a module: an ES module with its
/// source and, where they were analysed, its exports; or the exports of a
/// CommonJS module.
#[derive(Debug, Clone, PartialEq, Eq)]
pub enum CjsAnalysis {
    Esm(String, Option<ModuleExportsAndReExports>),
    Cjs(ModuleExportsAndReExports),
}

pub enum CjsAnalysisView {
    Esm(Seq<char>, Option<ExportsView>),
    Cjs(ExportsView),
}

impl View for CjsAnalysis {
    type V = CjsAnalysisView;

    open spec fn view(&self) -> CjsAnalysisView {
        match *self {
            CjsAnalysis::Esm(source, exports) => CjsAnalysisView::Esm(
                source@,
                match exports {
                    Some(e) => Some(e@),
                    None => None,
                },
            ),
            CjsAnalysis::Cjs(e) => CjsAnalysisView::Cjs(e@),
        }
    }
}

/// What the node resolver is told for a verdict on a module with the given
/// source.
pub open spec fn reported(analysis: AnalysisView, source: Seq<char>) -> CjsAnalysisView {
    match analysis {
        AnalysisView::Esm => CjsAnalysisView::Esm(source, None),
        AnalysisView::EsmAnalysis(e) => CjsAnalysisView::Esm(source, Some(e)),
        AnalysisView::Cjs(e) => CjsAnalysisView::Cjs(e),
    }
}

/// Turns a verdict into what the node resolver is told.
pub fn analyze_cjs(analysis: CliCjsAnalysis, source: String) -> (r: CjsAnalysis)
    ensures
        r@ == reported(analysis@, source@),
{
    match analysis {
        CliCjsAnalysis::Esm => CjsAnalysis::Esm(source, None),
        CliCjsAnalysis::EsmAnalysis(e) => CjsAnalysis::Esm(source, Some(e)),
        CliCjsAnalysis::Cjs(e) => CjsAnalysis::Cjs(e),
    }
}

/// A copy of a list of strings.
pub fn copy_strings(v: &Vec<String>) -> (r: Vec<String>)
    ensures
        texts(r@) == texts(v@),
{
    let mut out: Vec<String> = Vec::new();
    let mut i: usize = 0;
    while i < v.len()
        invariant
            i <= v.len(),
            out.len() == i,
            forall|k: int| 0 <= k < i ==> (#[trigger] out@[k])@ == v@[k]@,
        decreases v.len() - i,
    {
        out.push(v[i].clone());
        i = i + 1;
    }
    assert(texts(out@) =~= texts(v@));
    out
}

impl ModuleExportsAndReExports {
    /// Neither exports nor re-exports.
    pub fn empty() -> (r: ModuleExportsAndReExports)
        ensures
            r@ == no_exports(),
    {
        let r = ModuleExportsAndReExports { exports: Vec::new(), reexports: Vec::new() };
        assert(r@.exports =~= Seq::<Seq<char>>::empty());
        assert(r@.reexports =~= Seq::<Seq<char>>::empty());
        r
    }

    /// A copy with the same names.
    pub fn copy(&self) -> (r: ModuleExportsAndReExports)
        ensures
            r@ == self@,
    {
        ModuleExportsAndReExports {
            exports: copy_strings(&self.exports),
            reexports: copy_strings(&self.reexports),
        }
    }
}

impl CliCjsAnalysis {
    /// A copy of the verdict.
    pub fn copy(&self) -> (r: CliCjsAnalysis)
        ensures
            r@ == self@,
    {
        match self {
            CliCjsAnalysis::Esm => CliCjsAnalysis::Esm,
            CliCjsAnalysis::EsmAnalysis(e) => CliCjsAnalysis::EsmAnalysis(e.copy()),
            CliCjsAnalysis::Cjs(e) => CliCjsAnalysis::Cjs(e.copy()),
        }
    }
}

/// One memoized verdict.
#[derive(Debug, Clone, PartialEq, Eq)]
pub struct CacheEntry {
    pub specifier: String,
    pub source_hash: u64,
    pub analysis: CliCjsAnalysis,
}

/// The verdicts memoized so far.
#[derive(Debug, Clone, PartialEq, Eq)]
pub struct NodeAnalysisCache {
    pub cache: Vec<CacheEntry>,
}

/// The index of the first entry with the key at or after `from`; the
/// length of the list where there is none.
pub open spec fn entry_index(entries: Seq<CacheEntry>, specifier: Seq<char>, hash: u64, from: int)
    -> int
    decreases entries.len() - from,
{
    if from < 0 || from >= entries.len() {
        entries.len() as int
    } else if entries[from].specifier@ == specifier && entries[from].source_hash == hash {
        from
    } else {
        entry_index(entries, specifier, hash, from + 1)
    }
}

/// The verdict memoized under the key.
pub open spec fn memoized(entries: Seq<CacheEntry>, specifier: Seq<char>, hash: u64) -> Option<
    AnalysisView,
> {
    let i = entry_index(entries, specifier, hash, 0);
    if i < entries.len() {
        Some(entries[i].analysis@)
    } else {
        None
    }
}

/// `entry_index` finds the first entry with the key at or after `from`.
pub proof fn lemma_entry_index(entries: Seq<CacheEntry>, specifier: Seq<char>, hash: u64, from: int)
    requires
        0 <= from <= entries.len(),
    ensures
        from <= entry_index(entries, specifier, hash, from) <= entries.len(),
        forall|k: int|
            from <= k < entry_index(entries, specifier, hash, from) ==> !((
            #[trigger] entries[k]).specifier@ == specifier && entries[k].source_hash == hash),
        entry_index(entries, specifier, hash, from) < entries.len() ==> {
            let i = entry_index(entries, specifier, hash, from);
            entries[i].specifier@ == specifier && entries[i].source_hash == hash
        },
    decreases entries.len() - from,
{
    if from < entries.len() && !(entries[from].specifier@ == specifier
        && entries[from].source_hash == hash) {
        lemma_entry_index(entries, specifier, hash, from + 1);
    }
}

/// An index that is the first with the key at or after `from` is the one
/// that `entry_index` returns.
pub proof fn lemma_entry_index_is(
    entries: Seq<CacheEntry>,
    specifier: Seq<char>,
    hash: u64,
    from: int,
    r: int,
)
    requires
        0 <= from <= r <= entries.len(),
        forall|k: int|
            from <= k < r ==> !((#[trigger] entries[k]).specifier@ == specifier
                && entries[k].source_hash == hash),
        r < entries.len() ==> entries[r].specifier@ == specifier && entries[r].source_hash
            == hash,
    ensures
        entry_index(entries, specifier, hash, from) == r,
    decreases r - from,
{
    if from < r {
        lemma_entry_index_is(entries, specifier, hash, from + 1, r);
    }
}

impl NodeAnalysisCache {
    /// The verdict memoized for a specifier with a content hash.
    pub open spec fn lookup(&self, specifier: Seq<char>, hash: u64) -> Option<AnalysisView> {
        memoized(self.cache@, specifier, hash)
    }

    /// A cache without verdicts.
    pub fn new() -> (r: NodeAnalysisCache)
        ensures
            forall|s: Seq<char>, h: u64| r.lookup(s, h) is None,
    {
        NodeAnalysisCache { cache: Vec::new() }
    }

    /// Finds the first entry with the key.
    fn find(&self, specifier: &str, hash: u64) -> (r: usize)
        ensures
            r == entry_index(self.cache@, specifier@, hash, 0),
            r <= self.cache.len(),
    {
        let mut i: usize = 0;
        while i < self.cache.len()
            invariant
                i <= self.cache.len(),
                entry_index(self.cache@, specifier@, hash, 0) == entry_index(
                    self.cache@,
                    specifier@,
                    hash,
                    i as int,
                ),
            decreases self.cache.len() - i,
        {
            if self.cache[i].source_hash == hash && same_text(
                self.cache[i].specifier.as_str(),
                specifier,
            ) {
                return i;
            }
            i = i + 1;
        }
        i
    }

    /// The verdict memoized for the specifier with exactly this content
    /// hash: a verdict for other content is never handed out.
    pub fn get_cjs_analysis(&self, specifier: &str, expected_source_hash: u64) -> (r: Option<
        CliCjsAnalysis,
    >)
        ensures
            opt_analysis_view(r) == self.lookup(specifier@, expected_source_hash),
    {
        let i: usize = self.find(specifier, expected_source_hash);
        if i < self.cache.len() {
            Some(self.cache[i].analysis.copy())
        } else {
            None
        }
    }

    /// Memoizes a verdict for the specifier with this content hash, in
    /// place of an earlier one for the same key. What is memoized under
    /// other keys stays.
    pub fn set_cjs_analysis(
        &mut self,
        specifier: &str,
        source_hash: u64,
        cjs_analysis: &CliCjsAnalysis,
    )
        ensures
            forall|s: Seq<char>, h: u64|
                final(self).lookup(s, h) == (if s == specifier@ && h == source_hash {
                    Some(cjs_analysis@)
                } else {
                    old(self).lookup(s, h)
                }),
    {
        let i: usize = self.find(specifier, source_hash);
        let ghost before = self.cache@;
        let entry = CacheEntry {
            specifier: specifier.to_owned(),
            source_hash,
            analysis: cjs_analysis.copy(),
        };
        proof {
            lemma_entry_index(before, specifier@, source_hash, 0);
        }
        if i < self.cache.len() {
            self.cache.set(i, entry);
        } else {
            self.cache.push(entry);
        }
        proof {
            let after = self.cache@;
            assert forall|s: Seq<char>, h: u64|
                memoized(after, s, h) == (if s == specifier@ && h == source_hash {
                    Some(cjs_analysis@)
                } else {
                    memoized(before, s, h)
                }) by {
                lemma_entry_index(before, s, h, 0);
                let j = entry_index(before, s, h, 0);
                if s == specifier@ && h == source_hash {
                    assert forall|k: int| 0 <= k < i implies !((#[trigger] after[k]).specifier@
                        == s && after[k].source_hash == h) by {
                        assert(after[k] == before[k]);
                    }
                    lemma_entry_index_is(after, s, h, 0, i as int);
                } else {
                    assert forall|k: int| 0 <= k < j implies !((#[trigger] after[k]).specifier@
                        == s && after[k].source_hash == h) by {
                        if k != i {
                            assert(after[k] == before[k]);
                        }
                    }
                    if j < before.len() {
                        assert(after[j] == before[j]);
                        lemma_entry_index_is(after, s, h, 0, j);
                    } else {
                        lemma_entry_index_is(after, s, h, 0, after.len() as int);
                    }
                }
            }
        }
    }
}

/// A verdict memoized for one content hash is not handed out for another:
/// after a verdict is set for `(specifier, hash)`, the answer for the same
/// specifier with any other hash is what it was before.
pub proof fn lemma_changed_content_is_analysed_again(
    before: NodeAnalysisCache,
    after: NodeAnalysisCache,
    specifier: Seq<char>,
    hash: u64,
    other: u64,
    verdict: AnalysisView,
)
    requires
        forall|s: Seq<char>, h: u64|
            after.lookup(s, h) == (if s == specifier && h == hash {
                Some(verdict)
            } else {
                before.lookup(s, h)
            }),
        other != hash,
    ensures
        after.lookup(specifier, other) == before.lookup(specifier, other),
        before.lookup(specifier, other) is None ==> after.lookup(specifier, other) is None,
{
}

} // verus!
