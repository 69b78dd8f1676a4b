//! Package specifiers: `npm:[@scope/]name[@version][/subpath]`,
//! `jsr:@scope/name[@version][/subpath]` and `node:builtin`.
//!
//! A specifier is split at fixed delimiters. The name is an optional scope
//! (`@`, one or more characters other than `/`, then `/`) followed by one or
//! more characters other than `/` and `@`. A version, when present, is
//! introduced by `@` and runs to the next `/`. A subpath, when present, is
//! introduced by `/`, runs to the end and holds no line feed.

use vstd::prelude::*;
use vstd::string::*;

use crate::error::NpmPackageError;
use crate::text::{
    chars_of, find_either, has_char, has_prefix, index_of, index_of_either, join2,
    lemma_index_of_either, lemma_index_of_either_is, occurs_from, opt_view, slice_text,
    starts_with, strip_prefix,
};

verus! {

/// The three parts of a package specifier.
pub struct SpecifierParts {
    pub name: Seq<char>,
    pub version: Option<Seq<char>>,
    pub subpath: Option<Seq<char>>,
}

/// The scheme prefix of npm specifiers.
pub open spec fn npm_prefix() -> Seq<char> {
    seq!['n', 'p', 'm', ':']
}

/// The scheme prefix of JSR specifiers.
pub open spec fn jsr_prefix() -> Seq<char> {
    seq!['j', 's', 'r', ':']
}

/// The scheme prefix of built-in node modules.
pub open spec fn node_prefix() -> Seq<char> {
    seq!['n', 'o', 'd', 'e', ':']
}

/// A name without scope: not empty, no `/` and no `@`.
pub open spec fn is_bare_name(s: Seq<char>) -> bool {
    s.len() > 0 && forall|i: int| 0 <= i < s.len() ==> s[i] != '/' && s[i] != '@'
}

/// A scope: `@` followed by at least one character, none of them `/`.
pub open spec fn is_scope(s: Seq<char>) -> bool {
    s.len() >= 2 && s[0] == '@' && forall|i: int| 0 <= i < s.len() ==> s[i] != '/'
}

/// `s` is a scope, `/` and a bare name, with the `/` at index `k`.
pub open spec fn is_scoped_name_at(s: Seq<char>, k: int) -> bool {
    &&& 0 <= k < s.len()
    &&& s[k] == '/'
    &&& is_scope(s.subrange(0, k))
    &&& is_bare_name(s.subrange(k + 1, s.len() as int))
}

/// A scoped name: a scope, `/` and a bare name.
pub open spec fn is_scoped_name(s: Seq<char>) -> bool {
    exists|k: int| is_scoped_name_at(s, k)
}

/// A package name, with or without scope.
pub open spec fn is_package_name(s: Seq<char>) -> bool {
    is_bare_name(s) || is_scoped_name(s)
}

/// A version: not empty, no `/`.
pub open spec fn is_version_text(s: Seq<char>) -> bool {
    s.len() > 0 && !has_char(s, '/')
}

/// A subpath: anything without a line feed.
pub open spec fn is_subpath_text(s: Seq<char>) -> bool {
    !has_char(s, '\n')
}

/// Every part has the form that the grammar gives it.
pub open spec fn well_formed(p: SpecifierParts) -> bool {
    &&& is_package_name(p.name)
    &&& (p.version matches Some(v) ==> is_version_text(v))
    &&& (p.subpath matches Some(s) ==> is_subpath_text(s))
}

/// The text of a version with its `@`, empty when there is none.
pub open spec fn version_suffix(version: Option<Seq<char>>) -> Seq<char> {
    match version {
        Some(v) => seq!['@'] + v,
        None => Seq::empty(),
    }
}

/// The text of a subpath with its `/`, empty when there is none.
pub open spec fn subpath_suffix(subpath: Option<Seq<char>>) -> Seq<char> {
    match subpath {
        Some(s) => seq!['/'] + s,
        None => Seq::empty(),
    }
}

/// The text that the parts are written as.
pub open spec fn compose(p: SpecifierParts) -> Seq<char> {
    p.name + version_suffix(p.version) + subpath_suffix(p.subpath)
}

/// Where the bare name starts: after the scope's `/` for a text that begins
/// with `@`, at 0 otherwise. `None` when the text begins with `@` and no
/// scope can be read.
pub open spec fn name_start(s: Seq<char>) -> Option<int> {
    if s.len() > 0 && s[0] == '@' {
        let slash = index_of(s, 0, '/');
        if 2 <= slash < s.len() {
            Some(slash + 1)
        } else {
            None
        }
    } else {
        Some(0)
    }
}

/// The parts of `s`, or `None` where `s` does not have the form of a package
/// reference. With `scope_required`, a name without scope is refused.
pub open spec fn split_package(s: Seq<char>, scope_required: bool) -> Option<SpecifierParts> {
    match name_start(s) {
        None => None,
        Some(from) => {
            let name_end = index_of_either(s, from, '/', '@');
            let has_version = name_end < s.len() && s[name_end] == '@';
            let version_end = if has_version {
                index_of(s, name_end + 1, '/')
            } else {
                name_end
            };
            if scope_required && from == 0 {
                None
            } else if name_end == from {
                None
            } else if has_version && version_end == name_end + 1 {
                None
            } else if version_end < s.len() && has_char(
                s.subrange(version_end + 1, s.len() as int),
                '\n',
            ) {
                None
            } else {
                Some(
                    SpecifierParts {
                        name: s.subrange(0, name_end),
                        version: if has_version {
                            Some(s.subrange(name_end + 1, version_end))
                        } else {
                            None
                        },
                        subpath: if version_end < s.len() {
                            Some(s.subrange(version_end + 1, s.len() as int))
                        } else {
                            None
                        },
                    },
                )
            }
        },
    }
}

/// The parts of an npm specifier; the `npm:` prefix may be missing.
pub open spec fn parse_npm_spec(s: Seq<char>) -> Option<SpecifierParts> {
    split_package(strip_prefix(s, npm_prefix()), false)
}

/// The text of a JSR specifier behind `jsr:` and one optional `/`.
pub open spec fn jsr_body(s: Seq<char>) -> Seq<char> {
    if has_prefix(s, jsr_prefix()) {
        strip_prefix(s.subrange(4, s.len() as int), seq!['/'])
    } else {
        s
    }
}

/// The parts of a JSR specifier; the scope is mandatory.
pub open spec fn parse_jsr_spec(s: Seq<char>) -> Option<SpecifierParts> {
    split_package(jsr_body(s), true)
}

/// The views of the three strings that the parser hands out.
pub open spec fn parts_view(t: (String, Option<String>, Option<String>)) -> SpecifierParts {
    SpecifierParts { name: t.0@, version: opt_view(t.1), subpath: opt_view(t.2) }
}

/// Splits the characters of a package reference.
fn split_chars(text: &str, scope_required: bool) -> (r: Option<
    (String, Option<String>, Option<String>),
>)
    ensures
        match split_package(text@, scope_required) {
            Some(p) => r matches Some(t) && parts_view(t) == p,
            None => r is None,
        },
{
    let v: Vec<char> = chars_of(text);
    let n: usize = v.len();
    let mut from: usize = 0;
    if n > 0 && v[0] == '@' {
        let slash: usize = find_either(&v, 0, '/', '/');
        if slash < 2 || slash >= n {
            return None;
        }
        from = slash + 1;
    } else if scope_required {
        return None;
    }
    let name_end: usize = find_either(&v, from, '/', '@');
    if name_end == from {
        return None;
    }
    let has_version: bool = name_end < n && v[name_end] == '@';
    let version_end: usize = if has_version {
        find_either(&v, name_end + 1, '/', '/')
    } else {
        name_end
    };
    if has_version && version_end == name_end + 1 {
        return None;
    }
    if version_end < n && occurs_from(&v, version_end + 1, '\n') {
        return None;
    }
    let name: String = slice_text(text, 0, name_end);
    let version: Option<String> = if has_version {
        Some(slice_text(text, name_end + 1, version_end))
    } else {
        None
    };
    let subpath: Option<String> = if version_end < n {
        Some(slice_text(text, version_end + 1, n))
    } else {
        None
    };
    Some((name, version, subpath))
}

/// The message for a text that is no npm specifier.
pub open spec fn invalid_npm_message(specifier: Seq<char>) -> Seq<char> {
    "Invalid npm package specifier: "@ + specifier
}

/// Parses `npm:[@scope/]name[@version][/subpath]`. The prefix `npm:` is
/// dropped once if it is there. The subpath comes without its leading `/`.
pub fn parse_npm_specifier(specifier: &str) -> (r: Result<
    (String, Option<String>, Option<String>),
    NpmPackageError,
>)
    ensures
        match parse_npm_spec(specifier@) {
            Some(p) => r matches Ok(t) && parts_view(t) == p,
            None => r matches Err(NpmPackageError::InvalidPackageSpec(m)) && m@
                == invalid_npm_message(specifier@),
        },
{
    let body: &str = strip_npm_prefix(specifier);
    match split_chars(body, false) {
        Some(t) => Ok(t),
        None => Err(
            NpmPackageError::InvalidPackageSpec(
                join2("Invalid npm package specifier: ", specifier),
            ),
        ),
    }
}

/// `specifier` without a leading `npm:`.
pub fn strip_npm_prefix(specifier: &str) -> (r: &str)
    ensures
        r@ == strip_prefix(specifier@, npm_prefix()),
{
    let v: Vec<char> = chars_of(specifier);
    let p: Vec<char> = vec!['n', 'p', 'm', ':'];
    assert(p@ =~= npm_prefix());
    if starts_with(&v, &p) {
        specifier.substring_char(4, v.len())
    } else {
        specifier
    }
}

/// `specifier` without a leading `jsr:` and the one `/` that may follow it.
pub fn strip_jsr_prefix(specifier: &str) -> (r: &str)
    ensures
        r@ == jsr_body(specifier@),
{
    let v: Vec<char> = chars_of(specifier);
    let p: Vec<char> = vec!['j', 's', 'r', ':'];
    assert(p@ =~= jsr_prefix());
    if starts_with(&v, &p) {
        if v.len() > 4 && v[4] == '/' {
            proof {
                let rest = specifier@.subrange(4, specifier@.len() as int);
                assert(rest.subrange(0, 1) =~= seq!['/']);
                assert(rest.subrange(1, rest.len() as int) =~= specifier@.subrange(
                    5,
                    specifier@.len() as int,
                ));
            }
            specifier.substring_char(5, v.len())
        } else {
            proof {
                let rest = specifier@.subrange(4, specifier@.len() as int);
                if rest.len() >= 1 {
                    assert(rest.subrange(0, 1)[0] == rest[0]);
                }
            }
            specifier.substring_char(4, v.len())
        }
    } else {
        specifier
    }
}

/// Splits `jsr:@scope/name[@version][/subpath]` into its parts. The prefix
/// `jsr:` and one `/` behind it are dropped if they are there; the scope is
/// mandatory.
pub fn split_jsr_specifier(specifier: &str) -> (r: Option<
    (String, Option<String>, Option<String>),
>)
    ensures
        match parse_jsr_spec(specifier@) {
            Some(p) => r matches Some(t) && parts_view(t) == p,
            None => r is None,
        },
{
    let body: &str = strip_jsr_prefix(specifier);
    split_chars(body, true)
}

/// The name of a built-in module: `specifier` without a leading `node:`.
pub fn node_builtin_name(specifier: &str) -> (r: &str)
    ensures
        r@ == strip_prefix(specifier@, node_prefix()),
{
    let v: Vec<char> = chars_of(specifier);
    let p: Vec<char> = vec!['n', 'o', 'd', 'e', ':'];
    assert(p@ =~= node_prefix());
    if starts_with(&v, &p) {
        specifier.substring_char(5, v.len())
    } else {
        specifier
    }
}

/// What `split_package` hands out is well formed and spells the text it was
/// read from.
pub proof fn lemma_split_sound(s: Seq<char>, scope_required: bool)
    requires
        split_package(s, scope_required) is Some,
    ensures
        well_formed(split_package(s, scope_required)->0),
        compose(split_package(s, scope_required)->0) == s,
        scope_required ==> is_scoped_name(split_package(s, scope_required)->0.name),
{
    let p = split_package(s, scope_required)->0;
    let from = name_start(s)->0;
    if from > 0 {
        lemma_index_of_either(s, 0, '/', '/');
    }
    lemma_index_of_either(s, from, '/', '@');
    let name_end = index_of_either(s, from, '/', '@');
    let has_version = name_end < s.len() && s[name_end] == '@';
    if has_version {
        lemma_index_of_either(s, name_end + 1, '/', '/');
    }
    let version_end = if has_version {
        index_of(s, name_end + 1, '/')
    } else {
        name_end
    };
    // the name
    if from == 0 {
        assert(is_bare_name(p.name));
    } else {
        let k = from - 1;
        assert(is_scope(p.name.subrange(0, k)));
        assert(is_bare_name(p.name.subrange(k + 1, p.name.len() as int)));
        assert(is_scoped_name_at(p.name, k));
    }
    // the version
    if has_version {
        let v = p.version->0;
        assert forall|i: int| 0 <= i < v.len() implies v[i] != '/' by {
            assert(v[i] == s[name_end + 1 + i]);
        }
    }
    assert(compose(p) =~= s);
}

/// Well-formed parts are read back from the text they are written as.
pub proof fn lemma_split_complete(p: SpecifierParts, scope_required: bool)
    requires
        well_formed(p),
        scope_required ==> is_scoped_name(p.name),
    ensures
        split_package(compose(p), scope_required) == Some(p),
{
    let s = compose(p);
    let n = p.name.len() as int;
    assert(s.subrange(0, n) =~= p.name);
    // where the bare name starts
    let from: int = if is_scoped_name(p.name) {
        let k = choose|k: int| is_scoped_name_at(p.name, k);
        assert(p.name.subrange(0, k)[0] == p.name[0]);
        assert forall|i: int| 0 <= i < k implies s[i] != '/' by {
            assert(p.name.subrange(0, k)[i] == s[i]);
        }
        lemma_index_of_either_is(s, 0, '/', '/', k);
        assert forall|i: int| k + 1 <= i < n implies s[i] != '/' && s[i] != '@' by {
            assert(p.name.subrange(k + 1, n)[i - (k + 1)] == s[i]);
        }
        k + 1
    } else {
        assert(s[0] == p.name[0]);
        0
    };
    assert(name_start(s) == Some(from));
    assert(from < n) by {
        if is_scoped_name(p.name) {
            let k = choose|k: int| is_scoped_name_at(p.name, k);
            assert(p.name.subrange(k + 1, n).len() > 0);
        }
    }
    if p.version is Some || p.subpath is Some {
        assert(s[n] == '@' || s[n] == '/');
    }
    lemma_index_of_either_is(s, from, '/', '@', n);
    match p.version {
        Some(v) => {
            let e = n + 1 + v.len();
            assert(s[n] == '@');
            assert forall|i: int| n + 1 <= i < e implies s[i] != '/' by {
                assert(v[i - (n + 1)] == s[i]);
            }
            if p.subpath is Some {
                assert(s[e] == '/');
            }
            lemma_index_of_either_is(s, n + 1, '/', '/', e);
            assert(s.subrange(n + 1, e) =~= v);
            match p.subpath {
                Some(t) => {
                    assert(s.subrange(e + 1, s.len() as int) =~= t);
                },
                None => {},
            }
        },
        None => {
            match p.subpath {
                Some(t) => {
                    assert(s[n] == '/');
                    assert(s.subrange(n + 1, s.len() as int) =~= t);
                },
                None => {},
            }
        },
    }
}

/// A text has at most one reading: two well-formed sets of parts that are
/// written alike are the same.
pub proof fn lemma_compose_injective(p: SpecifierParts, q: SpecifierParts)
    requires
        well_formed(p),
        well_formed(q),
        compose(p) == compose(q),
    ensures
        p == q,
{
    lemma_split_complete(p, false);
    lemma_split_complete(q, false);
}

/// An npm specifier with name, version and subpath is read back as exactly
/// these three.
pub proof fn lemma_npm_full_specifier(name: Seq<char>, version: Seq<char>, subpath: Seq<char>)
    requires
        is_package_name(name),
        is_version_text(version),
        is_subpath_text(subpath),
    ensures
        parse_npm_spec(npm_prefix() + name + seq!['@'] + version + seq!['/'] + subpath) == Some(
            SpecifierParts { name, version: Some(version), subpath: Some(subpath) },
        ),
{
    let p = SpecifierParts { name, version: Some(version), subpath: Some(subpath) };
    let s = npm_prefix() + name + seq!['@'] + version + seq!['/'] + subpath;
    assert(s.subrange(0, 4) =~= npm_prefix());
    assert(s.subrange(4, s.len() as int) =~= compose(p));
    lemma_split_complete(p, false);
}

/// An npm specifier that is a name alone is read back as that name, with
/// neither version nor subpath.
pub proof fn lemma_npm_name_only(name: Seq<char>)
    requires
        is_package_name(name),
    ensures
        parse_npm_spec(npm_prefix() + name) == Some(
            SpecifierParts { name, version: None, subpath: None },
        ),
{
    let p = SpecifierParts { name, version: None, subpath: None };
    let s = npm_prefix() + name;
    assert(s.subrange(0, 4) =~= npm_prefix());
    assert(s.subrange(4, s.len() as int) =~= compose(p));
    lemma_split_complete(p, false);
}

/// Whatever the npm parser accepts is well formed and spells the specifier
/// behind its prefix.
pub proof fn lemma_npm_parse_sound(s: Seq<char>)
    requires
        parse_npm_spec(s) is Some,
    ensures
        well_formed(parse_npm_spec(s)->0),
        compose(parse_npm_spec(s)->0) == strip_prefix(s, npm_prefix()),
{
    lemma_split_sound(strip_prefix(s, npm_prefix()), false);
}

/// Whatever the JSR parser accepts is well formed, has a scope and spells
/// the specifier behind its prefix.
pub proof fn lemma_jsr_parse_sound(s: Seq<char>)
    requires
        parse_jsr_spec(s) is Some,
    ensures
        well_formed(parse_jsr_spec(s)->0),
        is_scoped_name(parse_jsr_spec(s)->0.name),
        compose(parse_jsr_spec(s)->0) == jsr_body(s),
{
    lemma_split_sound(jsr_body(s), true);
}

} // verus!
