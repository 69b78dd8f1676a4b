use ai_deno::error::NpmPackageError;
use ai_deno::specifier::{
    node_builtin_name, parse_npm_specifier, split_jsr_specifier, strip_jsr_prefix,
    strip_npm_prefix,
};

type Parts = (String, Option<String>, Option<String>);

fn parts(name: &str, version: Option<&str>, subpath: Option<&str>) -> Parts {
    (name.to_string(), version.map(|v| v.to_string()), subpath.map(|s| s.to_string()))
}

fn invalid(specifier: &str) -> Result<Parts, NpmPackageError> {
    Err(NpmPackageError::InvalidPackageSpec(format!(
        "Invalid npm package specifier: {}",
        specifier
    )))
}

/// What the pattern of the grammar makes of a specifier.
fn by_pattern(specifier: &str) -> Option<Parts> {
    let body = specifier.strip_prefix("npm:").unwrap_or(specifier);
    let pattern = regex::Regex::new(r"^((?:@[^/]+/)?[^/@]+)(?:@([^/]+))?(/.*)?$").unwrap();
    let found = pattern.captures(body)?;
    Some((
        found.get(1).unwrap().as_str().to_string(),
        found.get(2).map(|m| m.as_str().to_string()),
        found.get(3).map(|m| m.as_str()[1..].to_string()),
    ))
}

#[test]
fn npm_name_version_and_subpath() {
    assert_eq!(
        parse_npm_specifier("npm:lodash@4.17.21/map.js"),
        Ok(parts("lodash", Some("4.17.21"), Some("map.js")))
    );
}

#[test]
fn npm_scoped_name_alone() {
    assert_eq!(parse_npm_specifier("npm:@types/react"), Ok(parts("@types/react", None, None)));
}

#[test]
fn npm_scoped_name_with_version() {
    assert_eq!(
        parse_npm_specifier("npm:@types/react@18.2.0"),
        Ok(parts("@types/react", Some("18.2.0"), None))
    );
}

#[test]
fn npm_prefix_may_be_missing() {
    assert_eq!(parse_npm_specifier("zod@3.24.2"), Ok(parts("zod", Some("3.24.2"), None)));
}

#[test]
fn npm_prefix_is_dropped_once() {
    assert_eq!(parse_npm_specifier("npm:npm:x"), Ok(parts("npm:x", None, None)));
    assert_eq!(strip_npm_prefix("npm:npm:x"), "npm:x");
    assert_eq!(strip_npm_prefix("lodash"), "lodash");
}

#[test]
fn npm_subpath_without_version() {
    assert_eq!(parse_npm_specifier("npm:lodash/fp/map.js"), Ok(parts("lodash", None, Some("fp/map.js"))));
}

#[test]
fn npm_subpath_may_be_empty() {
    assert_eq!(parse_npm_specifier("npm:lodash@1/"), Ok(parts("lodash", Some("1"), Some(""))));
}

#[test]
fn npm_version_may_hold_an_at_sign() {
    assert_eq!(parse_npm_specifier("npm:a@1@2/x"), Ok(parts("a", Some("1@2"), Some("x"))));
}

#[test]
fn npm_scope_may_hold_an_at_sign() {
    assert_eq!(parse_npm_specifier("npm:@a@b/c"), Ok(parts("@a@b/c", None, None)));
}

#[test]
fn npm_empty_name_is_refused() {
    assert_eq!(parse_npm_specifier("npm:"), invalid("npm:"));
    assert_eq!(parse_npm_specifier(""), invalid(""));
    assert_eq!(parse_npm_specifier("npm:/x"), invalid("npm:/x"));
    assert_eq!(parse_npm_specifier("npm:@1.0.0"), invalid("npm:@1.0.0"));
}

#[test]
fn npm_empty_version_is_refused() {
    assert_eq!(parse_npm_specifier("npm:lodash@"), invalid("npm:lodash@"));
    assert_eq!(parse_npm_specifier("npm:lodash@/x"), invalid("npm:lodash@/x"));
}

#[test]
fn npm_scope_without_name_is_refused() {
    assert_eq!(parse_npm_specifier("npm:@scope"), invalid("npm:@scope"));
    assert_eq!(parse_npm_specifier("npm:@scope/"), invalid("npm:@scope/"));
    assert_eq!(parse_npm_specifier("npm:@/name"), invalid("npm:@/name"));
}

#[test]
fn npm_line_feed_in_subpath_is_refused() {
    assert_eq!(parse_npm_specifier("npm:a/b\nc"), invalid("npm:a/b\nc"));
    assert_eq!(parse_npm_specifier("npm:a\nb/c"), Ok(parts("a\nb", None, Some("c"))));
}

#[test]
fn npm_characters_beyond_ascii() {
    assert_eq!(
        parse_npm_specifier("npm:パッケージ@1.0.0/ファイル.js"),
        Ok(parts("パッケージ", Some("1.0.0"), Some("ファイル.js")))
    );
}

#[test]
fn npm_parser_agrees_with_the_pattern() {
    let samples = [
        "npm:lodash",
        "npm:lodash@4.17.21",
        "npm:lodash@4.17.21/map.js",
        "npm:lodash/map.js",
        "npm:@types/react",
        "npm:@types/react@18",
        "npm:@types/react@18/index.d.ts",
        "npm:@types/react/index.d.ts",
        "npm:",
        "npm:@",
        "npm:@/",
        "npm:@a",
        "npm:@a/",
        "npm:@a/b",
        "npm:@a//b",
        "npm:@a/b@",
        "npm:@a/b@/",
        "npm:@a/b@1",
        "npm:@a/b@1/",
        "npm:@a/b@1//",
        "npm:a@b@c",
        "npm:a@b@c/d@e",
        "npm:a/b@c",
        "npm:/a",
        "npm://a",
        "npm:a//",
        "npm:a\n",
        "npm:a/\n",
        "npm:a@\n/b",
        "npm:@a\n/b",
        "npm:npm:a",
        "a",
        "a@1",
        "@a/b@1/c",
        "@",
        "",
        "npm:a@1/b c",
        "npm:é@1/ü",
    ];
    for sample in samples {
        let expected = match by_pattern(sample) {
            Some(found) => Ok(found),
            None => invalid(sample),
        };
        assert_eq!(parse_npm_specifier(sample), expected, "for {:?}", sample);
    }
}

#[test]
fn jsr_scope_is_mandatory() {
    assert_eq!(split_jsr_specifier("jsr:path@1.0.8"), None);
    assert_eq!(
        split_jsr_specifier("jsr:@std/path@1.0.8"),
        Some(parts("@std/path", Some("1.0.8"), None))
    );
}

#[test]
fn jsr_prefix_with_slash() {
    assert_eq!(strip_jsr_prefix("jsr:/@std/path"), "@std/path");
    assert_eq!(strip_jsr_prefix("jsr:@std/path"), "@std/path");
    assert_eq!(strip_jsr_prefix("jsr://@std/path"), "/@std/path");
    assert_eq!(strip_jsr_prefix("@std/path"), "@std/path");
    assert_eq!(
        split_jsr_specifier("jsr:/@std/path@1/posix"),
        Some(parts("@std/path", Some("1"), Some("posix")))
    );
}

#[test]
fn jsr_subpath_without_version() {
    assert_eq!(
        split_jsr_specifier("jsr:@std/path/posix"),
        Some(parts("@std/path", None, Some("posix")))
    );
}

#[test]
fn node_prefix_is_dropped() {
    assert_eq!(node_builtin_name("node:fs"), "fs");
    assert_eq!(node_builtin_name("node:fs/promises"), "fs/promises");
    assert_eq!(node_builtin_name("fs"), "fs");
}
