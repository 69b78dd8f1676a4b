//! Finding the entry point of a package through the `exports` of its
//! `package.json`.
//!
//! The subpath asked for, or `.` for the package itself, is looked up in
//! the exports: first as it is written, then against every export that is
//! a pattern with `*`. A target that is a path is the entry point. A target
//! that is a set of conditions gives the path under `import` or `require`,
//! by the kind of the importer; else the one under `default`; else the
//! first path under any other condition. Patterns are matched by the
//! `wildcard` crate.

use vstd::prelude::*;
use vstd::string::*;

use crate::text::{chars_of, has_char, occurs_from, opt_view, same_text};

verus! {

/// The kind of module that imports a package.
#[derive(Debug, Clone, Copy, PartialEq, Eq, Structural)]
pub enum NodeModuleKind {
    Esm,
    Cjs,
}

/// One condition of a conditional export: its name, and the path under it
/// where the value is a path.
#[derive(Debug, Clone, PartialEq, Eq)]
pub struct Condition {
    pub key: String,
    pub path: Option<String>,
}

pub struct ConditionView {
    pub key: Seq<char>,
    pub path: Option<Seq<char>>,
}

impl View for Condition {
    type V = ConditionView;

    open spec fn view(&self) -> ConditionView {
        ConditionView { key: self.key@, path: opt_view(self.path) }
    }
}

/// What an export stands for.
#[derive(Debug, Clone, PartialEq, Eq)]
pub enum ExportTarget {
    /// A path.
    Path(String),
    /// One path for each condition.
    Conditions(Vec<Condition>),
    /// Anything else.
    Other,
}

pub enum TargetView {
    Path(Seq<char>),
    Conditions(Seq<ConditionView>),
    Other,
}

/// The views of a list of conditions.
pub open spec fn conditions_view(v: Seq<Condition>) -> Seq<ConditionView> {
    v.map_values(|c: Condition| c@)
}

impl View for ExportTarget {
    type V = TargetView;

    open spec fn view(&self) -> TargetView {
        match *self {
            ExportTarget::Path(p) => TargetView::Path(p@),
            ExportTarget::Conditions(c) => TargetView::Conditions(conditions_view(c@)),
            ExportTarget::Other => TargetView::Other,
        }
    }
}

/// One export: the subpath or pattern, and what it stands for.
#[derive(Debug, Clone, PartialEq, Eq)]
pub struct ExportEntry {
    pub pattern: String,
    pub target: ExportTarget,
}

pub struct ExportEntryView {
    pub pattern: Seq<char>,
    pub target: TargetView,
}

impl View for ExportEntry {
    type V = ExportEntryView;

    open spec fn view(&self) -> ExportEntryView {
        ExportEntryView { pattern: self.pattern@, target: self.target@ }
    }
}

/// The views of a list of exports.
pub open spec fn exports_view(v: Seq<ExportEntry>) -> Seq<ExportEntryView> {
    v.map_values(|e: ExportEntry| e@)
}

/// Whether the `wildcard` crate matches the input against the pattern:
/// `None` where `Wildcard::new` refuses the pattern.
pub uninterp spec fn wildcard_match(pattern: Seq<char>, input: Seq<char>) -> Option<bool>;

/// Calls `wildcard::Wildcard::new` on the bytes of the pattern and then
/// `Wildcard::is_match` on the bytes of the input. Nothing is claimed of
/// the result but that it is a function of the two texts.
#[verifier::external_body]
pub(crate) fn wildcard_is_match(pattern: &str, input: &str) -> (r: Option<bool>)
    ensures
        r == wildcard_match(pattern@, input@),
{
    match wildcard::Wildcard::new(pattern.as_bytes()) {
        Ok(w) => Some(w.is_match(input.as_bytes())),
        Err(_) => None,
    }
}

/// The index of the first condition with the key at or after `from`; the
/// length of the list where there is none.
pub open spec fn condition_index(conditions: Seq<ConditionView>, key: Seq<char>, from: int) -> int
    decreases conditions.len() - from,
{
    if from < 0 || from >= conditions.len() {
        conditions.len() as int
    } else if conditions[from].key == key {
        from
    } else {
        condition_index(conditions, key, from + 1)
    }
}

/// The path under the condition with the key.
pub open spec fn path_under(conditions: Seq<ConditionView>, key: Seq<char>) -> Option<Seq<char>> {
    let i = condition_index(conditions, key, 0);
    if i < conditions.len() {
        conditions[i].path
    } else {
        None
    }
}

/// A condition that is looked at before all others.
pub open spec fn is_named_condition(key: Seq<char>) -> bool {
    key == "import"@ || key == "require"@ || key == "default"@
}

/// The first path under a condition that is not `import`, `require` or
/// `default`, among the conditions from `from` on.
pub open spec fn path_under_other(conditions: Seq<ConditionView>, from: int) -> Option<Seq<char>>
    decreases conditions.len() - from,
{
    if from < 0 || from >= conditions.len() {
        None
    } else if !is_named_condition(conditions[from].key) && conditions[from].path is Some {
        conditions[from].path
    } else {
        path_under_other(conditions, from + 1)
    }
}

/// The condition that stands for the kind of the importer.
pub open spec fn kind_condition(kind: NodeModuleKind) -> Seq<char> {
    match kind {
        NodeModuleKind::Esm => "import"@,
        NodeModuleKind::Cjs => "require"@,
    }
}

/// The path that a set of conditions gives to an importer of the kind.
pub open spec fn extracted_path(conditions: Seq<ConditionView>, kind: NodeModuleKind) -> Option<
    Seq<char>,
> {
    match path_under(conditions, kind_condition(kind)) {
        Some(p) => Some(p),
        None => match path_under(conditions, "default"@) {
            Some(p) => Some(p),
            None => path_under_other(conditions, 0),
        },
    }
}

/// The entry point that a target gives: `None` for a target that is
/// neither a path nor a set of conditions. A set of conditions without a
/// path gives the subpath asked for.
pub open spec fn target_entry(target: TargetView, kind: NodeModuleKind, sub_path: Seq<char>)
    -> Option<Seq<char>> {
    match target {
        TargetView::Path(p) => Some(p),
        TargetView::Conditions(c) => match extracted_path(c, kind) {
            Some(p) => Some(p),
            None => Some(sub_path),
        },
        TargetView::Other => None,
    }
}

/// The index of the first export written exactly as `lookup` at or after
/// `from`; the length of the list where there is none.
pub open spec fn export_index(exports: Seq<ExportEntryView>, lookup: Seq<char>, from: int) -> int
    decreases exports.len() - from,
{
    if from < 0 || from >= exports.len() {
        exports.len() as int
    } else if exports[from].pattern == lookup {
        from
    } else {
        export_index(exports, lookup, from + 1)
    }
}

/// The entry point of the export written exactly as `lookup`.
pub open spec fn direct_entry(
    exports: Seq<ExportEntryView>,
    lookup: Seq<char>,
    kind: NodeModuleKind,
    sub_path: Seq<char>,
) -> Option<Seq<char>> {
    let i = export_index(exports, lookup, 0);
    if i < exports.len() {
        target_entry(exports[i].target, kind, sub_path)
    } else {
        None
    }
}

/// The export is a pattern that matches `lookup`.
pub open spec fn pattern_matches(entry: ExportEntryView, lookup: Seq<char>) -> bool {
    has_char(entry.pattern, '*') && wildcard_match(entry.pattern, lookup) == Some(true)
}

/// The entry point of the first pattern at or after `from` that matches
/// `lookup` and has a path or conditions as its target.
pub open spec fn pattern_entry(
    exports: Seq<ExportEntryView>,
    lookup: Seq<char>,
    kind: NodeModuleKind,
    sub_path: Seq<char>,
    from: int,
) -> Option<Seq<char>>
    decreases exports.len() - from,
{
    if from < 0 || from >= exports.len() {
        None
    } else if pattern_matches(exports[from], lookup) && target_entry(
        exports[from].target,
        kind,
        sub_path,
    ) is Some {
        target_entry(exports[from].target, kind, sub_path)
    } else {
        pattern_entry(exports, lookup, kind, sub_path, from + 1)
    }
}

/// What is looked up for a subpath: `.` for the package itself.
pub open spec fn lookup_path(sub_path: Seq<char>) -> Seq<char> {
    if sub_path.len() == 0 {
        "."@
    } else {
        sub_path
    }
}

/// The entry point of a package for a subpath: what the exports give;
/// else, for the package itself, its main file; else the subpath.
pub open spec fn entrypoint(
    exports: Option<Seq<ExportEntryView>>,
    main: Option<Seq<char>>,
    sub_path: Seq<char>,
    kind: NodeModuleKind,
) -> Seq<char> {
    let lookup = lookup_path(sub_path);
    let exported = match exports {
        Some(e) => match direct_entry(e, lookup, kind, sub_path) {
            Some(p) => Some(p),
            None => pattern_entry(e, lookup, kind, sub_path, 0),
        },
        None => None,
    };
    match exported {
        Some(p) => p,
        None => if lookup == "."@ && main is Some {
            main->0
        } else {
            sub_path
        },
    }
}

/// The path under the condition with the key.
fn find_path(conditions: &Vec<Condition>, key: &str) -> (r: Option<String>)
    ensures
        opt_view(r) == path_under(conditions_view(conditions@), key@),
{
    let ghost view = conditions_view(conditions@);
    let mut i: usize = 0;
    while i < conditions.len()
        invariant
            i <= conditions.len(),
            view == conditions_view(conditions@),
            condition_index(view, key@, 0) == condition_index(view, key@, i as int),
        decreases conditions.len() - i,
    {
        assert(view[i as int] == conditions[i as int]@);
        if same_text(conditions[i].key.as_str(), key) {
            return match &conditions[i].path {
                Some(p) => Some(p.clone()),
                None => None,
            };
        }
        i = i + 1;
    }
    None
}

/// The path that a set of conditions gives to an importer of the kind.
pub fn extract_path_from_object(conditions: &Vec<Condition>, kind: NodeModuleKind) -> (r: Option<
    String,
>)
    ensures
        opt_view(r) == extracted_path(conditions_view(conditions@), kind),
{
    let kind_field: &str = match kind {
        NodeModuleKind::Esm => "import",
        NodeModuleKind::Cjs => "require",
    };
    match find_path(conditions, kind_field) {
        Some(p) => {
            return Some(p);
        },
        None => {},
    }
    match find_path(conditions, "default") {
        Some(p) => {
            return Some(p);
        },
        None => {},
    }
    let ghost view = conditions_view(conditions@);
    let mut i: usize = 0;
    while i < conditions.len()
        invariant
            i <= conditions.len(),
            view == conditions_view(conditions@),
            path_under(view, kind_condition(kind)) is None,
            path_under(view, "default"@) is None,
            path_under_other(view, 0) == path_under_other(view, i as int),
        decreases conditions.len() - i,
    {
        assert(view[i as int] == conditions[i as int]@);
        let key: &str = conditions[i].key.as_str();
        let named: bool = same_text(key, "import") || same_text(key, "require") || same_text(
            key,
            "default",
        );
        if !named {
            match &conditions[i].path {
                Some(p) => {
                    return Some(p.clone());
                },
                None => {},
            }
        }
        i = i + 1;
    }
    None
}

/// The entry point that a target gives.
fn entry_of(target: &ExportTarget, kind: NodeModuleKind, sub_path: &str) -> (r: Option<String>)
    ensures
        opt_view(r) == target_entry(target@, kind, sub_path@),
{
    match target {
        ExportTarget::Path(p) => Some(p.clone()),
        ExportTarget::Conditions(c) => match extract_path_from_object(c, kind) {
            Some(p) => Some(p),
            None => Some(sub_path.to_owned()),
        },
        ExportTarget::Other => None,
    }
}

/// Finds the export written exactly as `lookup`.
fn find_export(list: &Vec<ExportEntry>, lookup: &str) -> (r: usize)
    ensures
        r == export_index(exports_view(list@), lookup@, 0),
        r <= list.len(),
{
    let ghost view = exports_view(list@);
    let mut i: usize = 0;
    while i < list.len()
        invariant
            i <= list.len(),
            view == exports_view(list@),
            export_index(view, lookup@, 0) == export_index(view, lookup@, i as int),
        decreases list.len() - i,
    {
        assert(view[i as int] == list[i as int]@);
        if same_text(list[i].pattern.as_str(), lookup) {
            return i;
        }
        i = i + 1;
    }
    i
}

/// Finds the entry point of the first pattern that matches `lookup`.
fn find_pattern(list: &Vec<ExportEntry>, lookup: &str, kind: NodeModuleKind, sub_path: &str) -> (r:
    Option<String>)
    ensures
        opt_view(r) == pattern_entry(exports_view(list@), lookup@, kind, sub_path@, 0),
{
    let ghost view = exports_view(list@);
    let mut j: usize = 0;
    while j < list.len()
        invariant
            j <= list.len(),
            view == exports_view(list@),
            pattern_entry(view, lookup@, kind, sub_path@, 0) == pattern_entry(
                view,
                lookup@,
                kind,
                sub_path@,
                j as int,
            ),
        decreases list.len() - j,
    {
        assert(view[j as int] == list[j as int]@);
        let pattern: &str = list[j].pattern.as_str();
        let starred: Vec<char> = chars_of(pattern);
        let is_pattern: bool = occurs_from(&starred, 0, '*');
        assert(starred@.subrange(0, starred@.len() as int) =~= pattern@);
        if is_pattern {
            match wildcard_is_match(pattern, lookup) {
                Some(true) => match entry_of(&list[j].target, kind, sub_path) {
                    Some(p) => {
                        return Some(p);
                    },
                    None => {},
                },
                _ => {},
            }
        }
        j = j + 1;
    }
    None
}

/// Finds the entry point of a package for a subpath. `main` is the main
/// file that the manifest declares for an importer of the kind.
pub fn resolve_entrypoint(
    exports: Option<&Vec<ExportEntry>>,
    main: Option<&str>,
    sub_path: &str,
    kind: NodeModuleKind,
) -> (r: String)
    ensures
        r@ == entrypoint(
            match exports {
                Some(e) => Some(exports_view(e@)),
                None => None,
            },
            match main {
                Some(m) => Some(m@),
                None => None,
            },
            sub_path@,
            kind,
        ),
{
    let lookup: &str = if sub_path.unicode_len() == 0 {
        "."
    } else {
        sub_path
    };
    assert(lookup@ == lookup_path(sub_path@));
    match exports {
        Some(list) => {
            let ghost view = exports_view(list@);
            let i: usize = find_export(list, lookup);
            if i < list.len() {
                assert(view[i as int] == list[i as int]@);
                match entry_of(&list[i].target, kind, sub_path) {
                    Some(p) => {
                        return p;
                    },
                    None => {},
                }
            }
            match find_pattern(list, lookup, kind, sub_path) {
                Some(p) => {
                    return p;
                },
                None => {},
            }
        },
        None => {},
    }
    if same_text(lookup, ".") {
        match main {
            Some(m) => {
                return m.to_owned();
            },
            None => {},
        }
    }
    sub_path.to_owned()
}

/// What an import alias of a package stands for: the alias itself where it
/// is a path, the path under its condition `node` where it is a set of
/// conditions.
pub open spec fn alias_of(imports: Seq<ExportEntryView>, specifier: Seq<char>) -> Option<
    Seq<char>,
> {
    let i = export_index(imports, specifier, 0);
    if i < imports.len() {
        match imports[i].target {
            TargetView::Path(p) => Some(p),
            TargetView::Conditions(c) => path_under(c, "node"@),
            TargetView::Other => None,
        }
    } else {
        None
    }
}

/// Resolves an import alias through the `imports` of the nearest
/// `package.json`.
pub fn resolve_alias(imports: &Vec<ExportEntry>, specifier: &str) -> (r: Option<String>)
    ensures
        opt_view(r) == alias_of(exports_view(imports@), specifier@),
{
    let i: usize = find_export(imports, specifier);
    if i < imports.len() {
        assert(exports_view(imports@)[i as int] == imports[i as int]@);
        match &imports[i].target {
            ExportTarget::Path(p) => Some(p.clone()),
            ExportTarget::Conditions(c) => find_path(c, "node"),
            ExportTarget::Other => None,
        }
    } else {
        None
    }
}

} // verus!
