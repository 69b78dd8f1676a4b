//! Choosing the version of a JSR package that a requirement asks for.
//!
//! Among the versions that a package lists, the one chosen is not yanked,
//! meets the requirement and is the highest such version. A requirement
//! that is a tag meets no version.

use vstd::prelude::*;
use vstd::string::*;

use crate::text::opt_view;
use crate::semver::{
    is_range_requirement, is_version, normalize_version, requirement_matches, requirement_met,
    read_requirement, version_before, version_precedes,
};

verus! {

/// What the registry says of one version of a package.
#[derive(Debug, Clone, Copy, PartialEq, Eq)]
pub struct JsrPackageInfoVersion {
    /// The version was withdrawn and is not to be chosen.
    pub yanked: bool,
}

impl Default for JsrPackageInfoVersion {
    fn default() -> (r: JsrPackageInfoVersion)
        ensures
            !r.yanked,
    {
        JsrPackageInfoVersion { yanked: false }
    }
}

/// Tells whether a flag is off. A flag that is off is left out when the
/// metadata is written.
pub fn is_false(v: &bool) -> (r: bool)
    ensures
        r == !*v,
{
    !*v
}

/// One version in the list of a package.
#[derive(Debug, Clone, PartialEq, Eq)]
pub struct JsrVersionEntry {
    pub version: String,
    pub info: JsrPackageInfoVersion,
}

/// The registry's metadata of a package: its versions in the order in which
/// they were listed.
#[derive(Debug, Clone, PartialEq, Eq)]
pub struct JsrPackageInfo {
    pub scope: String,
    pub name: String,
    pub latest: String,
    pub versions: Vec<JsrVersionEntry>,
}

pub struct VersionEntryView {
    pub version: Seq<char>,
    pub yanked: bool,
}

impl View for JsrVersionEntry {
    type V = VersionEntryView;

    open spec fn view(&self) -> VersionEntryView {
        VersionEntryView { version: self.version@, yanked: self.info.yanked }
    }
}

pub struct PackageInfoView {
    pub scope: Seq<char>,
    pub name: Seq<char>,
    pub latest: Seq<char>,
    pub versions: Seq<VersionEntryView>,
}

impl View for JsrPackageInfo {
    type V = PackageInfoView;

    open spec fn view(&self) -> PackageInfoView {
        PackageInfoView {
            scope: self.scope@,
            name: self.name@,
            latest: self.latest@,
            versions: self.versions@.map_values(|e: JsrVersionEntry| e@),
        }
    }
}

/// The entry may be chosen for the requirement: it is not yanked, it is a
/// version, and the requirement is a set of ranges that it meets.
pub open spec fn eligible(e: VersionEntryView, requirement: Seq<char>) -> bool {
    &&& !e.yanked
    &&& is_range_requirement(requirement)
    &&& is_version(e.version)
    &&& requirement_met(requirement, e.version)
}

/// The index chosen among the first `upto` entries: an eligible entry takes
/// the place of the one chosen so far where that one comes before it in the
/// order of versions.
pub open spec fn best_of(entries: Seq<VersionEntryView>, requirement: Seq<char>, upto: int)
    -> Option<int>
    decreases upto,
{
    if upto <= 0 {
        None
    } else {
        let before = best_of(entries, requirement, upto - 1);
        let i = upto - 1;
        if !eligible(entries[i], requirement) {
            before
        } else {
            match before {
                None => Some(i),
                Some(j) => if version_before(entries[j].version, entries[i].version) {
                    Some(i)
                } else {
                    before
                },
            }
        }
    }
}

/// The version chosen for the requirement among all entries.
pub open spec fn selected_version(entries: Seq<VersionEntryView>, requirement: Seq<char>)
    -> Option<Seq<char>> {
    match best_of(entries, requirement, entries.len() as int) {
        Some(i) => Some(entries[i].version),
        None => None,
    }
}

/// The entry chosen is one of the entries looked at, and it is eligible.
pub proof fn lemma_best_is_eligible(
    entries: Seq<VersionEntryView>,
    requirement: Seq<char>,
    upto: int,
)
    requires
        0 <= upto <= entries.len(),
    ensures
        best_of(entries, requirement, upto) matches Some(i) ==> 0 <= i < upto && eligible(
            entries[i],
            requirement,
        ),
    decreases upto,
{
    if upto > 0 {
        lemma_best_is_eligible(entries, requirement, upto - 1);
    }
}

/// Nothing is chosen exactly where no entry is eligible.
pub proof fn lemma_none_iff_no_eligible(
    entries: Seq<VersionEntryView>,
    requirement: Seq<char>,
    upto: int,
)
    requires
        0 <= upto <= entries.len(),
    ensures
        best_of(entries, requirement, upto) is None <==> forall|i: int|
            0 <= i < upto ==> !eligible(#[trigger] entries[i], requirement),
    decreases upto,
{
    if upto > 0 {
        lemma_none_iff_no_eligible(entries, requirement, upto - 1);
        lemma_best_is_eligible(entries, requirement, upto);
    }
}

/// A yanked version is never chosen, and neither is one that fails the
/// requirement: what is chosen is listed, not yanked, and meets it.
pub proof fn lemma_selected_is_listed(entries: Seq<VersionEntryView>, requirement: Seq<char>)
    ensures
        selected_version(entries, requirement) matches Some(v) ==> exists|i: int|
            0 <= i < entries.len() && (#[trigger] entries[i]).version == v && !entries[i].yanked
                && requirement_met(requirement, v),
{
    lemma_best_is_eligible(entries, requirement, entries.len() as int);
}

/// The order of versions, on the versions listed, never puts a version
/// before itself and passes from one pair to the next.
pub open spec fn order_is_strict(entries: Seq<VersionEntryView>) -> bool {
    &&& forall|i: int|
        0 <= i < entries.len() ==> !version_before(
            (#[trigger] entries[i]).version,
            entries[i].version,
        )
    &&& forall|i: int, j: int, k: int|
        0 <= i < entries.len() && 0 <= j < entries.len() && 0 <= k < entries.len()
            && #[trigger] version_before(entries[i].version, entries[j].version)
            && #[trigger] version_before(entries[j].version, entries[k].version)
            ==> version_before(entries[i].version, entries[k].version)
}

/// Where the order of versions is strict on the versions listed, the one
/// chosen is a highest: it comes before no eligible entry.
pub proof fn lemma_best_is_highest(
    entries: Seq<VersionEntryView>,
    requirement: Seq<char>,
    upto: int,
)
    requires
        0 <= upto <= entries.len(),
    ensures
        order_is_strict(entries) ==> (best_of(entries, requirement, upto) matches Some(b)
            ==> forall|i: int|
            0 <= i < upto && eligible(#[trigger] entries[i], requirement) ==> !version_before(
                entries[b].version,
                entries[i].version,
            )),
    decreases upto,
{
    if upto > 0 && order_is_strict(entries) {
        lemma_best_is_highest(entries, requirement, upto - 1);
        lemma_best_is_eligible(entries, requirement, upto - 1);
        let before = best_of(entries, requirement, upto - 1);
        let last = upto - 1;
        if eligible(entries[last], requirement) {
            match before {
                None => {
                    lemma_none_iff_no_eligible(entries, requirement, upto - 1);
                },
                Some(j) => {
                    if version_before(entries[j].version, entries[last].version) {
                        assert forall|i: int|
                            0 <= i < upto && eligible(
                                #[trigger] entries[i],
                                requirement,
                            ) implies !version_before(
                            entries[last].version,
                            entries[i].version,
                        ) by {
                            if i < last && version_before(
                                entries[last].version,
                                entries[i].version,
                            ) {
                                assert(version_before(entries[j].version, entries[i].version));
                            }
                        }
                    }
                },
            }
        }
    }
}

/// Chooses the version of the package that `requirement` asks for: the
/// highest listed version that is not yanked and meets the requirement.
/// `None` where there is none, where the requirement is a tag and where it
/// is no requirement at all.
pub fn select_version(info: &JsrPackageInfo, requirement: &str) -> (r: Option<String>)
    ensures
        opt_view(r) == selected_version(info@.versions, requirement@),
{
    let ghost entries = info@.versions;
    let n: usize = info.versions.len();
    let is_range: bool = match read_requirement(requirement) {
        Some(None) => true,
        _ => false,
    };
    let mut best: Option<usize> = None;
    let mut i: usize = 0;
    while i < n
        invariant
            n == info.versions.len(),
            entries == info@.versions,
            entries.len() == n,
            i <= n,
            is_range == is_range_requirement(requirement@),
            match best {
                Some(b) => best_of(entries, requirement@, i as int) == Some(b as int),
                None => best_of(entries, requirement@, i as int) is None,
            },
        decreases n - i,
    {
        proof {
            lemma_best_is_eligible(entries, requirement@, i as int);
        }
        let entry: &JsrVersionEntry = &info.versions[i];
        assert(entries[i as int] == entry@);
        let mut takes: bool = false;
        if is_range && !entry.info.yanked {
            if normalize_version(entry.version.as_str()).is_some() {
                if requirement_matches(requirement, entry.version.as_str()) {
                    takes =
                    match best {
                        None => true,
                        Some(b) => {
                            assert(entries[b as int] == info.versions[b as int]@);
                            version_precedes(
                                info.versions[b].version.as_str(),
                                entry.version.as_str(),
                            )
                        },
                    };
                }
            }
        }
        if takes {
            best = Some(i);
        }
        i = i + 1;
    }
    proof {
        lemma_best_is_eligible(entries, requirement@, n as int);
    }
    match best {
        Some(b) => {
            assert(entries[b as int] == info.versions[b as int]@);
            Some(info.versions[b].version.clone())
        },
        None => None,
    }
}

} // verus!
