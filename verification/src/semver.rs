//! Versions and version requirements, as text. Parsing, ordering and
//! matching are done by the `deno_semver` crate.

use vstd::prelude::*;
use vstd::string::*;

use crate::text::{chars_of, opt_view};

verus! {

/// What `deno_semver::Version::parse_from_npm` makes of a text, written out
/// again: `None` where the text is no version.
pub uninterp spec fn normal_version(text: Seq<char>) -> Option<Seq<char>>;

/// How `deno_semver::VersionReq::parse_from_specifier` reads a requirement:
/// `None` where it refuses the text, `Some(None)` for a set of ranges,
/// `Some(Some(tag))` for a tag.
pub uninterp spec fn requirement_tag(text: Seq<char>) -> Option<Option<Seq<char>>>;

/// Whether the requirement, a set of ranges, is met by the version, as
/// `deno_semver::VersionReq::matches` says.
pub uninterp spec fn requirement_met(requirement: Seq<char>, version: Seq<char>) -> bool;

/// Whether the first version comes before the second in the order of
/// `deno_semver::Version`.
pub uninterp spec fn version_before(a: Seq<char>, b: Seq<char>) -> bool;

/// Whether `deno_semver::package::PackageReq::from_str` accepts the text as
/// a name with an optional requirement.
pub uninterp spec fn package_req_accepted(text: Seq<char>) -> bool;

/// The view of an optional tag inside the answer of `requirement_shape`.
pub open spec fn shape_view(o: Option<Option<String>>) -> Option<Option<Seq<char>>> {
    match o {
        Some(t) => Some(opt_view(t)),
        None => None,
    }
}

/// `text` is a version.
pub open spec fn is_version(text: Seq<char>) -> bool {
    normal_version(text) is Some
}

/// The longest number that a requirement may hold, in digits. A number of
/// so many digits is below the largest `u64`, so that the number after it
/// exists.
pub const MAX_DIGITS: usize = 19;

/// A decimal digit.
pub open spec fn is_digit(c: char) -> bool {
    '0' <= c && c <= '9'
}

/// How many digits stand in a row just before the index `upto`.
pub open spec fn digit_run(text: Seq<char>, upto: int) -> nat
    decreases upto,
{
    if upto <= 0 || upto > text.len() || !is_digit(text[upto - 1]) {
        0
    } else {
        1 + digit_run(text, upto - 1)
    }
}

/// No number in the text has more than `MAX_DIGITS` digits.
pub open spec fn numbers_fit(text: Seq<char>) -> bool {
    forall|i: int| 0 <= i <= text.len() ==> #[trigger] digit_run(text, i) <= MAX_DIGITS
}

/// How a requirement is read: as `deno_semver` reads it, except that a
/// text with a number of more than `MAX_DIGITS` digits is no requirement.
pub open spec fn requirement_read(text: Seq<char>) -> Option<Option<Seq<char>>> {
    if numbers_fit(text) {
        requirement_tag(text)
    } else {
        None
    }
}

/// `text` is a requirement made of ranges, not a tag.
pub open spec fn is_range_requirement(text: Seq<char>) -> bool {
    requirement_read(text) == Some(None::<Seq<char>>)
}

/// Whether a name with an optional requirement is accepted: as
/// `deno_semver` accepts it, except that a text with a number of more than
/// `MAX_DIGITS` digits is refused.
pub open spec fn package_req_read(text: Seq<char>) -> bool {
    numbers_fit(text) && package_req_accepted(text)
}

/// Tells whether no number in the text has more than `MAX_DIGITS` digits.
pub fn has_fitting_numbers(text: &str) -> (r: bool)
    ensures
        r == numbers_fit(text@),
{
    let v: Vec<char> = chars_of(text);
    let mut run: usize = 0;
    let mut i: usize = 0;
    while i < v.len()
        invariant
            v@ == text@,
            i <= v.len(),
            run == digit_run(v@, i as int),
            run <= MAX_DIGITS,
            forall|j: int| 0 <= j <= i ==> #[trigger] digit_run(v@, j) <= MAX_DIGITS,
        decreases v.len() - i,
    {
        let c: char = v[i];
        if '0' <= c && c <= '9' {
            run = run + 1;
        } else {
            run = 0;
        }
        i = i + 1;
        assert(run == digit_run(v@, i as int));
        if run > MAX_DIGITS {
            return false;
        }
    }
    true
}

/// Reads a requirement: `None` where the text is none, `Some(None)` for a
/// set of ranges, `Some(Some(tag))` for a tag.
pub fn read_requirement(text: &str) -> (r: Option<Option<String>>)
    ensures
        shape_view(r) == requirement_read(text@),
{
    if has_fitting_numbers(text) {
        requirement_shape(text)
    } else {
        None
    }
}

/// Tells whether the text is accepted as a name with an optional
/// requirement.
pub fn accepts_package_req(text: &str) -> (r: bool)
    ensures
        r == package_req_read(text@),
{
    has_fitting_numbers(text) && package_req_is_accepted(text)
}

/// Calls `Version::parse_from_npm` and writes the version out with its
/// `Display`. Nothing is claimed of the result but that it is a function of
/// the text.
#[verifier::external_body]
pub(crate) fn normalize_version(text: &str) -> (r: Option<String>)
    ensures
        opt_view(r) == normal_version(text@),
{
    match deno_semver::Version::parse_from_npm(text) {
        Ok(v) => Some(v.to_string()),
        Err(_) => None,
    }
}

/// Calls `VersionReq::parse_from_specifier` and then `VersionReq::tag`.
/// Nothing is claimed of the result but that it is a function of the text.
/// The outside parser adds one to a number of the text, which overflows for
/// the largest `u64`: the precondition leaves out texts with so long a
/// number.
#[verifier::external_body]
pub(crate) fn requirement_shape(text: &str) -> (r: Option<Option<String>>)
    requires
        numbers_fit(text@),
    ensures
        shape_view(r) == requirement_tag(text@),
{
    match deno_semver::VersionReq::parse_from_specifier(text) {
        Ok(req) => Some(req.tag().map(|t| t.to_string())),
        Err(_) => None,
    }
}

/// Calls `VersionReq::matches` on the parsed requirement and version. The
/// outside function panics on a tag, the two parsers fail on other texts,
/// and the parser of requirements overflows on a number that is too long:
/// the preconditions leave all of these out.
#[verifier::external_body]
pub(crate) fn requirement_matches(requirement: &str, version: &str) -> (r: bool)
    requires
        is_range_requirement(requirement@),
        is_version(version@),
    ensures
        r == requirement_met(requirement@, version@),
{
    let req = deno_semver::VersionReq::parse_from_specifier(requirement).unwrap();
    let v = deno_semver::Version::parse_from_npm(version).unwrap();
    req.matches(&v)
}

/// Compares two parsed versions with `<`, the order that
/// `deno_semver::Version` implements. The precondition leaves out texts that
/// the parser refuses.
#[verifier::external_body]
pub(crate) fn version_precedes(a: &str, b: &str) -> (r: bool)
    requires
        is_version(a@),
        is_version(b@),
    ensures
        r == version_before(a@, b@),
{
    let x = deno_semver::Version::parse_from_npm(a).unwrap();
    let y = deno_semver::Version::parse_from_npm(b).unwrap();
    x < y
}

/// Calls `PackageReq::from_str` and says whether it succeeded. The
/// outside parser adds one to a number of the requirement, which overflows
/// for the largest `u64`: the precondition leaves out texts with so long a
/// number.
#[verifier::external_body]
pub(crate) fn package_req_is_accepted(text: &str) -> (r: bool)
    requires
        numbers_fit(text@),
    ensures
        r == package_req_accepted(text@),
{
    deno_semver::package::PackageReq::from_str(text).is_ok()
}

} // verus!
