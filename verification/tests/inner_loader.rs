use ai_deno::cjs_tracker::ResolutionMode;
use ai_deno::error::LoaderError;
use ai_deno::inner_loader::{
    contains_ignoring_case, ensure_read_permission, handle_load, in_npm_package, to_lower, InnerLoad, InnerResolve, InnerRustyLoader,
    LoaderOptions, NpmProcessState, NpmProcessStateKind, ResolutionKind, SourceMapEntry,
};
use ai_deno::media::ModuleType;
use ai_deno::package_exports::{
    extract_path_from_object, resolve_alias, resolve_entrypoint, Condition, ExportEntry,
    ExportTarget, NodeModuleKind,
};
use ai_deno::urls::UrlParts;

fn inner() -> InnerRustyLoader {
    InnerRustyLoader::new(LoaderOptions {
        fs_whitelist: vec![],
        source_map_cache: vec![],
        schema_whlist: vec![],
        cwd: "/cwd".to_string(),
    })
}

fn url(href: &str, scheme: &str, path: &str) -> UrlParts {
    UrlParts { href: href.to_string(), scheme: scheme.to_string(), path: path.to_string() }
}

fn chars(text: &str) -> Vec<char> {
    text.chars().collect()
}

fn condition(key: &str, path: Option<&str>) -> Condition {
    Condition { key: key.to_string(), path: path.map(|p| p.to_string()) }
}

fn export(pattern: &str, target: ExportTarget) -> ExportEntry {
    ExportEntry { pattern: pattern.to_string(), target }
}

fn path(text: &str) -> ExportTarget {
    ExportTarget::Path(text.to_string())
}

#[test]
fn working_directory_is_set() {
    let mut loader = inner();
    assert_eq!(loader.cwd, "/cwd");
    loader.set_current_dir("/other".to_string());
    assert_eq!(loader.cwd, "/other");
}

#[test]
fn whitelist_of_the_file_system() {
    let mut loader = inner();
    assert!(!loader.whitelist_has("file:///a.js"));
    loader.whitelist_add("file:///a.js");
    loader.whitelist_add("file:///a.js");
    assert!(loader.whitelist_has("file:///a.js"));
    assert!(!loader.whitelist_has("file:///b.js"));
    assert_eq!(loader.fs_whlist.len(), 1);
}

#[test]
fn sources_kept_for_error_messages() {
    let mut loader = inner();
    assert_eq!(loader.get_source_map("a.js"), None);
    loader.add_source_map("a.js", "one".to_string(), None);
    loader.add_source_map("b.js", "two".to_string(), Some(vec![1, 2]));
    loader.add_source_map("a.js", "three".to_string(), Some(vec![3]));
    assert_eq!(
        loader.get_source_map("a.js"),
        Some(&SourceMapEntry {
            filename: "a.js".to_string(),
            source: "three".to_string(),
            source_map: Some(vec![3]),
        })
    );
    assert_eq!(
        loader.get_source_map("b.js"),
        Some(&SourceMapEntry {
            filename: "b.js".to_string(),
            source: "two".to_string(),
            source_map: Some(vec![1, 2]),
        })
    );
    assert_eq!(loader.get_source_map("c.js"), None);
    assert_eq!(loader.source_map_cache.len(), 2);
}

#[test]
fn letters_in_lower_case() {
    assert_eq!(to_lower('A'), 'a');
    assert_eq!(to_lower('Z'), 'z');
    assert_eq!(to_lower('m'), 'm');
    assert_eq!(to_lower('@'), '@');
    assert_eq!(to_lower('['), '[');
    assert_eq!(to_lower('É'), 'É');
}

#[test]
fn text_inside_a_text() {
    assert!(contains_ignoring_case(&chars("/a/Node_Modules/b"), &chars("/node_modules/")));
    assert!(contains_ignoring_case(&chars("abc"), &chars("")));
    assert!(contains_ignoring_case(&chars("abc"), &chars("abc")));
    assert!(contains_ignoring_case(&chars("xabc"), &chars("abc")));
    assert!(!contains_ignoring_case(&chars("ab"), &chars("abc")));
    assert!(!contains_ignoring_case(&chars("abd"), &chars("abc")));
    assert!(!contains_ignoring_case(&chars("abc"), &chars("ABC")));
}

#[test]
fn urls_inside_installed_packages() {
    assert!(in_npm_package(&url("file:///a/node_modules/b/c.js", "file", "/a/node_modules/b/c.js")));
    assert!(in_npm_package(&url("file:///a/NODE_MODULES/b/c.js", "file", "/a/NODE_MODULES/b/c.js")));
    assert!(in_npm_package(&url("file:///node:fs", "file", "/node:fs")));
    assert!(!in_npm_package(&url("file:///a/b/c.js", "file", "/a/b/c.js")));
    assert!(!in_npm_package(&url("file:///a/node_modules", "file", "/a/node_modules")));
    assert!(!in_npm_package(&url(
        "https://x/node_modules/b.js",
        "https",
        "/node_modules/b.js"
    )));
}

#[test]
fn import_from_inside_a_package() {
    let loader = inner();
    assert_eq!(
        loader.resolve("./x.js", "file:///a/node_modules/b/c.js", ResolutionKind::Import, "file:///cwd/"),
        Ok(InnerResolve::Node {
            referrer: "file:///a/node_modules/b/c.js".to_string(),
            mode: ResolutionMode::Require,
        })
    );
    assert_eq!(
        loader.resolve("./x.js", "file:///a/node_modules/b/c.mjs", ResolutionKind::Import, "file:///cwd/"),
        Ok(InnerResolve::Node {
            referrer: "file:///a/node_modules/b/c.mjs".to_string(),
            mode: ResolutionMode::Import,
        })
    );
}

#[test]
fn import_from_outside_the_packages() {
    assert_eq!(
        inner().resolve("./x.js", "file:///a/b/c.js", ResolutionKind::Import, "file:///cwd/"),
        Err(LoaderError::UnsupportedScheme("./x.js imported from file:///a/b/c.js".to_string()))
    );
}

#[test]
fn dot_is_the_referrer_of_the_main_module_only() {
    let loader = inner();
    assert_eq!(
        loader.resolve("./x.js", ".", ResolutionKind::Import, "file:///cwd/"),
        Err(LoaderError::ResolutionFailed("Expected to resolve main module".to_string()))
    );
    assert_eq!(
        loader.resolve("./x.js", ".", ResolutionKind::DynamicImport, "file:///cwd/"),
        Err(LoaderError::ResolutionFailed("Expected to resolve main module".to_string()))
    );
    assert_eq!(
        loader.resolve("./x.js", ".", ResolutionKind::MainModule, "file:///cwd/"),
        Err(LoaderError::UnsupportedScheme("./x.js imported from file:///cwd/".to_string()))
    );
    assert_eq!(
        loader.resolve("./x.js", ".", ResolutionKind::MainModule, "file:///node_modules/a/"),
        Ok(InnerResolve::Node {
            referrer: "file:///node_modules/a/".to_string(),
            mode: ResolutionMode::Require,
        })
    );
}

#[test]
fn referrer_that_is_no_url() {
    assert_eq!(
        inner().resolve("./x.js", "main.js", ResolutionKind::Import, "file:///cwd/"),
        Err(LoaderError::InvalidSpecifier("Referrer uses invalid specifier: main.js".to_string()))
    );
}

#[test]
fn route_of_an_inner_load() {
    let loader = inner();
    let file = url("file:///a.js", "file", "/a.js");
    let remote = url("https://x/a.js", "https", "/a.js");
    let plain = url("http://x/a.js", "http", "/a.js");
    let other = url("npm:lodash", "npm", "lodash");
    assert_eq!(loader.load(&other, true, true), Ok(InnerLoad::Cached));
    assert_eq!(loader.load(&other, false, true), Ok(InnerLoad::Provided));
    assert_eq!(loader.load(&file, false, false), Ok(InnerLoad::File));
    assert_eq!(loader.load(&remote, false, false), Ok(InnerLoad::Remote));
    assert_eq!(loader.load(&plain, false, false), Ok(InnerLoad::Remote));
    assert_eq!(
        loader.load(&other, false, false),
        Err(LoaderError::UnsupportedScheme("npm imports are not allowed here: npm:lodash".to_string()))
    );
}

#[test]
fn state_of_a_process() {
    assert_eq!(
        NpmProcessState::new(Some("/a/node_modules".to_string())),
        NpmProcessState {
            kind: NpmProcessStateKind::Byonm,
            local_node_modules_path: Some("/a/node_modules".to_string()),
        }
    );
    assert_eq!(NpmProcessState::new(None).local_node_modules_path, None);
}

#[test]
fn path_of_a_conditional_export() {
    let both = vec![
        condition("types", Some("./a.d.ts")),
        condition("require", Some("./a.cjs")),
        condition("import", Some("./a.mjs")),
        condition("default", Some("./a.js")),
    ];
    assert_eq!(extract_path_from_object(&both, NodeModuleKind::Esm), Some("./a.mjs".to_string()));
    assert_eq!(extract_path_from_object(&both, NodeModuleKind::Cjs), Some("./a.cjs".to_string()));
    let default_only = vec![condition("types", Some("./a.d.ts")), condition("default", Some("./a.js"))];
    assert_eq!(extract_path_from_object(&default_only, NodeModuleKind::Esm), Some("./a.js".to_string()));
    let other_only = vec![
        condition("import", None),
        condition("browser", None),
        condition("types", Some("./a.d.ts")),
        condition("deno", Some("./a.ts")),
    ];
    assert_eq!(extract_path_from_object(&other_only, NodeModuleKind::Esm), Some("./a.d.ts".to_string()));
    assert_eq!(extract_path_from_object(&vec![condition("import", None)], NodeModuleKind::Esm), None);
    assert_eq!(extract_path_from_object(&vec![], NodeModuleKind::Cjs), None);
}

#[test]
fn entry_point_through_the_exports() {
    let exports = vec![
        export(".", path("./index.js")),
        export("./fp", ExportTarget::Conditions(vec![condition("import", Some("./fp.mjs"))])),
        export("./empty", ExportTarget::Conditions(vec![])),
        export("./odd", ExportTarget::Other),
        export("./lib/*", path("./dist/lib.js")),
        export("./*", path("./dist/any.js")),
    ];
    let resolve = |sub_path: &str| {
        resolve_entrypoint(Some(&exports), Some("main.js"), sub_path, NodeModuleKind::Esm)
    };
    assert_eq!(resolve(""), "./index.js");
    assert_eq!(resolve("./fp"), "./fp.mjs");
    assert_eq!(resolve("./empty"), "./empty");
    assert_eq!(resolve("./lib/a"), "./dist/lib.js");
    assert_eq!(resolve("./other"), "./dist/any.js");
    assert_eq!(resolve("./odd"), "./dist/any.js");
    assert_eq!(resolve("unlisted"), "unlisted");
}

#[test]
fn entry_point_without_exports() {
    assert_eq!(resolve_entrypoint(None, Some("main.js"), "", NodeModuleKind::Esm), "main.js");
    assert_eq!(resolve_entrypoint(None, None, "", NodeModuleKind::Esm), "");
    assert_eq!(resolve_entrypoint(None, Some("main.js"), "./a.js", NodeModuleKind::Cjs), "./a.js");
    let exports = vec![export("./a", path("./a.js"))];
    assert_eq!(resolve_entrypoint(Some(&exports), Some("main.js"), "", NodeModuleKind::Esm), "main.js");
    assert_eq!(resolve_entrypoint(Some(&exports), Some("main.js"), ".", NodeModuleKind::Esm), "main.js");
}

#[test]
fn pattern_matches_by_wildcard() {
    let exports = vec![export("./feat*re/?.js", path("./hit.js")), export("./plain", path("./p.js"))];
    let resolve =
        |sub_path: &str| resolve_entrypoint(Some(&exports), None, sub_path, NodeModuleKind::Esm);
    assert_eq!(resolve("./feature/a.js"), "./hit.js");
    assert_eq!(resolve("./featre/b.js"), "./hit.js");
    assert_eq!(resolve("./feature/ab.js"), "./feature/ab.js");
    assert_eq!(resolve("./feat*re/?.js"), "./hit.js");
    assert_eq!(resolve("./plai"), "./plai");
}

#[test]
fn alias_of_an_import() {
    let imports = vec![
        export("#a", path("./a.js")),
        export("#b", ExportTarget::Conditions(vec![
            condition("default", Some("./b.js")),
            condition("node", Some("./b.node.js")),
        ])),
        export("#c", ExportTarget::Conditions(vec![condition("default", Some("./c.js"))])),
        export("#d", ExportTarget::Other),
    ];
    assert_eq!(resolve_alias(&imports, "#a"), Some("./a.js".to_string()));
    assert_eq!(resolve_alias(&imports, "#b"), Some("./b.node.js".to_string()));
    assert_eq!(resolve_alias(&imports, "#c"), None);
    assert_eq!(resolve_alias(&imports, "#d"), None);
    assert_eq!(resolve_alias(&imports, "#e"), None);
}

#[test]
fn module_type_by_extension() {
    assert_eq!(handle_load("/a/b.json"), ModuleType::Json);
    assert_eq!(handle_load("/a/b.JSON"), ModuleType::Json);
    assert_eq!(handle_load("/a/b.Json"), ModuleType::Json);
    assert_eq!(handle_load("b.c.json"), ModuleType::Json);
    assert_eq!(handle_load("/a/b.js"), ModuleType::JavaScript);
    assert_eq!(handle_load("/a/.json"), ModuleType::JavaScript);
    assert_eq!(handle_load(".json"), ModuleType::JavaScript);
    assert_eq!(handle_load("/a.json/b"), ModuleType::JavaScript);
    assert_eq!(handle_load("/a/b.jsonc"), ModuleType::JavaScript);
    assert_eq!(handle_load("/a/bjson"), ModuleType::JavaScript);
    assert_eq!(handle_load(""), ModuleType::JavaScript);
}

#[test]
fn installed_packages_are_read_without_permission() {
    assert!(!ensure_read_permission("/a/node_modules/b/c.js"));
    assert!(!ensure_read_permission("node_modules"));
    assert!(!ensure_read_permission("/a/Node_Modules"));
    assert!(!ensure_read_permission("node_modules/a"));
    assert!(ensure_read_permission("/a/b/c.js"));
    assert!(ensure_read_permission("/a/node_modules_x/c.js"));
    assert!(ensure_read_permission("/a/xnode_modules/c.js"));
    assert!(ensure_read_permission(""));
}
