use ai_deno::entries::Entry;
use ai_deno::error::{Error, ErrorClass, LoaderError, NpmPackageError};
use ai_deno::loader::{
    after_npm_install, file_content, npm_fetch_installed, resolve_import,
    specifier_has_uri_scheme, AiDenoModuleLoader, AiDenoModuleLoaderInit, Fetch, LoadStep,
    ModuleSource, NpmEnsure, NpmFetch, NpmTarget, RequestedModuleType, Resolved, Source,
};
use ai_deno::npm::{versioned, NpmPackage, PackageManifest, PackageOnDisk};
use ai_deno::media::ModuleType;
use ai_deno::npm_registry::NpmPackageInfo;
use ai_deno::urls::UrlParts;

fn loader() -> AiDenoModuleLoader {
    AiDenoModuleLoader::new(AiDenoModuleLoaderInit {
        package_root_dir: "/home/u/.ai-deno".to_string(),
        allowed_module_schemas: vec!["ai_deno:".to_string(), "ext:".to_string()],
    })
}

fn on_disk(version: &str) -> PackageOnDisk {
    PackageOnDisk::Manifest(PackageManifest {
        version: Some(version.to_string()),
        main: None,
        module: None,
        typ: "none".to_string(),
        dependencies: vec![],
        optional_dependencies: vec![],
    })
}

fn direct(content: &str) -> Source {
    Source { path: None, content: content.to_string() }
}

fn url(href: &str, scheme: &str, path: &str) -> UrlParts {
    UrlParts { href: href.to_string(), scheme: scheme.to_string(), path: path.to_string() }
}

#[test]
fn caches_of_a_new_loader() {
    let loader = loader();
    assert_eq!(loader.pkg_manager.packages_root_dir, "/home/u/.ai-deno/npm");
    assert_eq!(loader.jsr_manager.package_root_dir, "/home/u/.ai-deno/jsr");
    assert_eq!(loader.allowed_module_schemas, vec!["ai_deno:".to_string(), "ext:".to_string()]);
    assert!(loader.pkg_manager.installed_packages.is_empty());
}

#[test]
fn package_specifiers_are_kept_for_the_load() {
    let loader = loader();
    assert_eq!(
        loader.resolve("npm:lodash@4.17.21/map.js", "file:///main.js"),
        Ok(Resolved::Url("npm:lodash@4.17.21/map.js".to_string()))
    );
    assert_eq!(
        loader.resolve("jsr:@std/path@1.0.8", "file:///main.js"),
        Ok(Resolved::Url("jsr:@std/path@1.0.8".to_string()))
    );
}

#[test]
fn builtin_goes_to_the_node_resolver() {
    assert_eq!(
        loader().resolve("node:fs/promises", "file:///main.js"),
        Ok(Resolved::NodeBuiltin("fs/promises".to_string()))
    );
}

#[test]
fn specifier_of_the_host_is_kept() {
    assert_eq!(
        loader().resolve("ext:ai-deno/init", "file:///main.js"),
        Ok(Resolved::Url("ext:ai-deno/init".to_string()))
    );
    assert_eq!(
        loader().resolve("ai_deno:main", "file:///main.js"),
        Err(LoaderError::InvalidSpecifier("Failed to parse URL: ai_deno:main".to_string()))
    );
}

#[test]
fn relative_specifier_is_read_against_the_referrer() {
    let loader = loader();
    assert_eq!(
        loader.resolve("./lib/a.js", "file:///app/main.js"),
        Ok(Resolved::Url("file:///app/lib/a.js".to_string()))
    );
    assert_eq!(
        loader.resolve("../b.js", "https://example.com/x/y/main.js"),
        Ok(Resolved::Url("https://example.com/x/b.js".to_string()))
    );
    assert_eq!(
        loader.resolve("/c.js", "https://example.com/x/y/main.js"),
        Ok(Resolved::Url("https://example.com/c.js".to_string()))
    );
}

#[test]
fn url_is_written_in_its_normal_form() {
    assert_eq!(
        loader().resolve("HTTPS://Example.COM/a/../b.js", "file:///main.js"),
        Ok(Resolved::Url("https://example.com/b.js".to_string()))
    );
}

#[test]
fn bare_specifier_falls_back_to_the_package_manager() {
    assert_eq!(
        loader().resolve("lodash", "file:///root/npm/app/1.0.0/index.js"),
        Ok(Resolved::NpmFallback(LoaderError::ResolutionFailed(
            "Failed to resolve import: lodash".to_string()
        )))
    );
    assert_eq!(
        loader().resolve("./a.js", "not a url"),
        Ok(Resolved::NpmFallback(LoaderError::ResolutionFailed(
            "Failed to resolve import: ./a.js".to_string()
        )))
    );
}

#[test]
fn standard_resolution() {
    assert_eq!(resolve_import("./a.js", "file:///x/y.js"), Some("file:///x/a.js".to_string()));
    assert_eq!(resolve_import("data:text/plain,hi", ""), Some("data:text/plain,hi".to_string()));
    assert_eq!(resolve_import("a.js", "file:///x/y.js"), None);
    assert_eq!(resolve_import("", "file:///x/y.js"), None);
}

#[test]
fn texts_with_a_uri_scheme() {
    for text in ["file:///a", "https://a", "ab:", "a1+-.:x", "npm:lodash"] {
        assert!(specifier_has_uri_scheme(text), "{}", text);
    }
    for text in ["", "a", "a:", "c:/windows", "1a:b", ":", "a b:c", "./a:b", "ab", "é:x"] {
        assert!(!specifier_has_uri_scheme(text), "{}", text);
    }
}

#[test]
fn referrer_is_a_url_or_a_path() {
    let loader = loader();
    assert_eq!(
        loader.resolve_referrer("file:///app/main.js", "file:///cwd/"),
        Ok("file:///app/main.js".to_string())
    );
    assert_eq!(loader.resolve_referrer(".", "file:///cwd/"), Ok("file:///cwd/".to_string()));
    assert_eq!(
        loader.resolve_referrer("src/main.js", "file:///cwd/"),
        Ok("file:///cwd/src/main.js".to_string())
    );
    assert_eq!(
        loader.resolve_referrer("http://[::1", "file:///cwd/"),
        Err(LoaderError::ResolutionFailed("Invalid referrer: http://[::1".to_string()))
    );
    assert_eq!(
        loader.resolve_referrer("main.js", "no base"),
        Err(LoaderError::ResolutionFailed("Invalid referrer: main.js".to_string()))
    );
}

#[test]
fn route_of_a_load_by_scheme() {
    let loader = loader();
    assert_eq!(loader.fetch_module_content("file:///a/b.js"), Ok(Fetch::File));
    assert_eq!(loader.fetch_module_content("npm:lodash@4.17.21"), Ok(Fetch::Npm));
    assert_eq!(loader.fetch_module_content("jsr:@std/path"), Ok(Fetch::Jsr));
    assert_eq!(loader.fetch_module_content("http://example.com/a.js"), Ok(Fetch::Remote));
    assert_eq!(loader.fetch_module_content("HTTPS://example.com/a.js"), Ok(Fetch::Remote));
    assert_eq!(
        loader.fetch_module_content("ftp://example.com/a.js"),
        Err(LoaderError::UnsupportedScheme("Unsupported scheme in module imports: ftp".to_string()))
    );
    assert_eq!(
        loader.fetch_module_content("no scheme"),
        Err(LoaderError::InvalidSpecifier("Invalid module specifier: no scheme".to_string()))
    );
}

#[test]
fn npm_module_with_a_version() {
    assert_eq!(
        loader().resolve_and_ensure_npm_module("npm:lodash@4.17.21/map.js", None),
        Ok(NpmTarget {
            name: "lodash".to_string(),
            version: "4.17.21".to_string(),
            subpath: Some("map.js".to_string()),
            specifier: "npm:lodash@4.17.21/map.js".to_string(),
        })
    );
}

#[test]
fn npm_module_without_a_version_is_latest() {
    let info = NpmPackageInfo {
        name: "zod".to_string(),
        dist_tags: Some(vec![Entry { key: "latest".to_string(), value: "3.24.2".to_string() }]),
        versions: vec![],
    };
    assert_eq!(
        loader().resolve_and_ensure_npm_module("npm:zod", Some(&info)),
        Ok(NpmTarget {
            name: "zod".to_string(),
            version: "3.24.2".to_string(),
            subpath: None,
            specifier: "npm:zod@3.24.2".to_string(),
        })
    );
    assert_eq!(
        loader().resolve_and_ensure_npm_module("npm:zod", None),
        Err(LoaderError::ResolutionFailed("Failed to get `latest` tag of package: zod".to_string()))
    );
    assert_eq!(
        loader().resolve_and_ensure_npm_module("npm:@", None),
        Err(LoaderError::InvalidSpecifier("Failed to parse npm specifier: npm:@".to_string()))
    );
}

#[test]
fn specifier_of_a_version() {
    assert_eq!(versioned("a", "1.0.0", &None), "npm:a@1.0.0");
    assert_eq!(versioned("a", "1.0.0", &Some("".to_string())), "npm:a@1.0.0");
    assert_eq!(versioned("@s/a", "1.0.0", &Some("x/y.js".to_string())), "npm:@s/a@1.0.0/x/y.js");
}

#[test]
fn source_is_delivered_with_both_urls() {
    let found = url("file:///root/npm/lodash/4.17.21/index.js", "file", "/root/npm/lodash/4.17.21/index.js");
    assert_eq!(
        loader().load("npm:lodash", &found, "code".to_string(), &RequestedModuleType::Unspecified),
        Ok(ModuleSource {
            module_type: ModuleType::JavaScript,
            code: "code".to_string(),
            specifier: "npm:lodash".to_string(),
            found: "file:///root/npm/lodash/4.17.21/index.js".to_string(),
        })
    );
}

#[test]
fn json_is_delivered_only_where_it_is_asked_for() {
    let found = url("file:///a/data.json", "file", "/a/data.json");
    let loader = loader();
    assert_eq!(
        loader.load("file:///a/data.json", &found, "{}".to_string(), &RequestedModuleType::Json),
        Ok(ModuleSource {
            module_type: ModuleType::Json,
            code: "{}".to_string(),
            specifier: "file:///a/data.json".to_string(),
            found: "file:///a/data.json".to_string(),
        })
    );
    for requested in [RequestedModuleType::Unspecified, RequestedModuleType::Other("text".to_string())] {
        assert_eq!(
            loader.load("file:///a/data.json", &found, "{}".to_string(), &requested),
            Err(LoaderError::ResolutionFailed("Invalid module type requested".to_string()))
        );
    }
}

#[test]
fn host_specifiers_are_not_transpiled() {
    let loader = loader();
    assert!(loader.is_allowed("ai_deno:main.ts"));
    assert!(!loader.is_allowed("ai_deno"));
    assert!(!loader.extension_transpiler("ai_deno:main.ts"));
    assert!(loader.extension_transpiler("file:///a/main.ts"));
    assert!(!loader.extension_transpiler("file:///a/main.js"));
    assert!(loader.extension_transpiler("node:fs"));
}

#[test]
fn file_that_is_read() {
    assert_eq!(file_content("/a.js", true, Ok("code".to_string())), Ok("code".to_string()));
    assert_eq!(
        file_content("/a.js", false, Ok("code".to_string())),
        Err(LoaderError::ModuleNotFound("File not found: /a.js".to_string()))
    );
    assert_eq!(
        file_content("/a.js", true, Err("denied".to_string())),
        Err(LoaderError::ResolutionFailed("Failed to read file: /a.js - denied".to_string()))
    );
}

#[test]
fn messages_of_package_errors() {
    assert_eq!(
        NpmPackageError::DownloadFailed("x".to_string()).to_string(),
        "パッケージのダウンロードに失敗しました: x"
    );
    assert_eq!(
        NpmPackageError::ExtractionFailed("x".to_string()).to_string(),
        "パッケージの展開に失敗しました: x"
    );
    assert_eq!(
        NpmPackageError::ResolutionFailed("x".to_string()).to_string(),
        "パッケージの解決に失敗しました: x"
    );
    assert_eq!(NpmPackageError::InvalidPackageSpec("x".to_string()).to_string(), "無効なパッケージ指定: x");
    assert_eq!(NpmPackageError::HttpError("x".to_string()).to_string(), "HTTP リクエストエラー: x");
    assert_eq!(NpmPackageError::JsonError("x".to_string()).to_string(), "JSON パースエラー: x");
    assert_eq!(NpmPackageError::IoError("x".to_string()).to_string(), "I/O エラー: x");
}

#[test]
fn load_failure_of_a_package_error() {
    assert_eq!(
        LoaderError::from_npm(&NpmPackageError::DownloadFailed("x".to_string())),
        LoaderError::DownloadFailed("パッケージのダウンロードに失敗しました: x".to_string())
    );
    assert_eq!(
        LoaderError::from_npm(&NpmPackageError::InvalidPackageSpec("x".to_string())),
        LoaderError::InvalidSpecifier("無効なパッケージ指定: x".to_string())
    );
    assert_eq!(
        LoaderError::from_npm(&NpmPackageError::IoError("x".to_string())),
        LoaderError::ExtractionFailed("I/O エラー: x".to_string())
    );
    assert_eq!(
        LoaderError::from_npm(&NpmPackageError::JsonError("x".to_string())),
        LoaderError::ParseFailed("JSON パースエラー: x".to_string())
    );
    assert_eq!(LoaderError::ModuleNotFound("gone".to_string()).to_string(), "gone");
    assert_eq!(LoaderError::UnsupportedScheme("ftp".to_string()).to_string(), "ftp");
}

#[test]
fn messages_of_runtime_errors() {
    assert_eq!(Error::CoreError("x".to_string()).to_string(), "core error: x");
    assert_eq!(Error::Runtime("x".to_string()).to_string(), "runtime error: x");
    assert_eq!(
        Error::ValueNotFound("x".to_string()).to_string(),
        "x could not be found in global, or module exports"
    );
    assert_eq!(Error::Timeout("x".to_string()).to_string(), "Module timed out: x");
    assert_eq!(Error::V8Encoding("x".to_string()).to_string(), "x could not be encoded as a v8 value");
    assert_eq!(Error::ModuleNotFound("x".to_string()).to_string(), "x");
    assert_eq!(Error::ModuleResolutionError("x".to_string()).to_string(), "x");
    assert_eq!(Error::HeapExhausted.to_string(), "Heap exhausted");
}

#[test]
fn runtime_errors_as_script_errors() {
    assert_eq!(Error::CoreError("x".to_string()).to_script_error(), (ErrorClass::Generic, "x".to_string()));
    assert_eq!(
        Error::Runtime("x".to_string()).to_script_error(),
        (ErrorClass::Generic, "Runtime error: x".to_string())
    );
    assert_eq!(
        Error::ValueNotFound("x".to_string()).to_script_error(),
        (ErrorClass::TypeError, "TypeError: x".to_string())
    );
    assert_eq!(Error::HeapExhausted.to_script_error(), (ErrorClass::Generic, "Heap exhausted".to_string()));
    assert_eq!(
        Error::ModuleNotFound("x".to_string()).to_script_error(),
        (ErrorClass::Generic, "ModuleNotFound error: x".to_string())
    );
    assert_eq!(
        Error::ModuleResolutionError("x".to_string()).to_script_error(),
        (ErrorClass::Generic, "ModuleResolutionError: x".to_string())
    );
    assert_eq!(
        Error::V8Encoding("x".to_string()).to_script_error(),
        (ErrorClass::Generic, "V8Encoding error: x".to_string())
    );
    assert_eq!(
        Error::Timeout("x".to_string()).to_script_error(),
        (ErrorClass::Generic, "Timeout error: x".to_string())
    );
}

#[test]
fn load_goes_through_its_stages() {
    let loader = loader();
    let load = match loader.begin_load("file:///a/main.ts", RequestedModuleType::Unspecified) {
        LoadStep::Fetch(load) => load,
        other => panic!("unexpected {:?}", other),
    };
    assert_eq!(load.route, Fetch::File);
    assert_eq!(load.specifier, "file:///a/main.ts");
    let found = url("file:///a/main.ts", "file", "/a/main.ts");
    let fetched = match load.on_fetched(&loader, Ok(direct("let a: number = 1;"))) {
        LoadStep::Transform(state, content) => {
            assert_eq!(content, "let a: number = 1;");
            state
        }
        other => panic!("unexpected {:?}", other),
    };
    assert_eq!(
        fetched.on_transpiled(Ok("let a = 1;".to_string())),
        LoadStep::Deliver(ModuleSource {
            module_type: ModuleType::JavaScript,
            code: "let a = 1;".to_string(),
            specifier: "file:///a/main.ts".to_string(),
            found: "file:///a/main.ts".to_string(),
        })
    );
}

#[test]
fn source_that_needs_no_transpiling_is_delivered() {
    let loader = loader();
    let load = match loader.begin_load("npm:lodash", RequestedModuleType::Unspecified) {
        LoadStep::Fetch(load) => load,
        other => panic!("unexpected {:?}", other),
    };
    assert_eq!(load.route, Fetch::Npm);
    let read = Source {
        path: Some("/root/npm/lodash/4.17.21/index.js".to_string()),
        content: "code".to_string(),
    };
    assert_eq!(
        load.on_fetched(&loader, Ok(read)),
        LoadStep::Deliver(ModuleSource {
            module_type: ModuleType::JavaScript,
            code: "code".to_string(),
            specifier: "npm:lodash".to_string(),
            found: "file:///root/npm/lodash/4.17.21/index.js".to_string(),
        })
    );
}

#[test]
fn failure_at_any_stage_ends_the_load() {
    let loader = loader();
    assert_eq!(
        loader.begin_load("ftp://x/a.js", RequestedModuleType::Unspecified),
        LoadStep::Failed(LoaderError::UnsupportedScheme(
            "Unsupported scheme in module imports: ftp".to_string()
        ))
    );
    let load = |specifier: &str, requested: RequestedModuleType| match loader.begin_load(specifier, requested) {
        LoadStep::Fetch(load) => load,
        other => panic!("unexpected {:?}", other),
    };
    assert_eq!(
        load("https://x/a.js", RequestedModuleType::Unspecified)
            .on_fetched(&loader, Err(LoaderError::DownloadFailed("gone".to_string()))),
        LoadStep::Failed(LoaderError::DownloadFailed("gone".to_string()))
    );
    assert_eq!(
        load("https://x/a.json", RequestedModuleType::Unspecified)
            .on_fetched(&loader, Ok(direct("{}"))),
        LoadStep::Failed(LoaderError::ResolutionFailed("Invalid module type requested".to_string()))
    );
    assert_eq!(
        load("https://x/a.json", RequestedModuleType::Json)
            .on_fetched(&loader, Ok(direct("{}"))),
        LoadStep::Deliver(ModuleSource {
            module_type: ModuleType::Json,
            code: "{}".to_string(),
            specifier: "https://x/a.json".to_string(),
            found: "https://x/a.json".to_string(),
        })
    );
    let fetched = match load("https://x/a.ts", RequestedModuleType::Unspecified)
        .on_fetched(&loader, Ok(direct("x")))
    {
        LoadStep::Transform(state, _) => state,
        other => panic!("unexpected {:?}", other),
    };
    assert_eq!(
        fetched.on_transpiled(Err(LoaderError::ParseFailed("bad".to_string()))),
        LoadStep::Failed(LoaderError::ParseFailed("bad".to_string()))
    );
}

#[test]
fn package_is_installed_only_where_it_is_missing() {
    let mut loader = loader();
    let target = loader.resolve_and_ensure_npm_module("npm:lodash@4.17.21/map.js", None).unwrap();
    assert_eq!(
        loader.ensure_npm(target.clone(), &PackageOnDisk::Missing),
        NpmEnsure::Install(target.clone())
    );
    loader.pkg_manager.mark_installed("lodash", "4.17.21");
    assert_eq!(
        loader.ensure_npm(target.clone(), &PackageOnDisk::Missing),
        NpmEnsure::Install(target.clone())
    );
    assert_eq!(
        loader.ensure_npm(target.clone(), &on_disk("4.17.20")),
        NpmEnsure::Install(target.clone())
    );
    assert_eq!(
        loader.ensure_npm(target, &on_disk("4.17.21")),
        NpmEnsure::Ready("npm:lodash@4.17.21/map.js".to_string())
    );
}

#[test]
fn fetch_of_an_npm_specifier_goes_through_its_steps() {
    let loader = loader();
    assert_eq!(loader.begin_npm_fetch("npm:lodash/map.js"), NpmFetch::NeedInfo("lodash".to_string()));
    assert_eq!(
        loader.begin_npm_fetch("npm:"),
        NpmFetch::Failed(LoaderError::InvalidSpecifier(
            "Failed to parse npm specifier: npm:".to_string()
        ))
    );
    let target = NpmTarget {
        name: "lodash".to_string(),
        version: "4.17.21".to_string(),
        subpath: Some("map.js".to_string()),
        specifier: "npm:lodash@4.17.21/map.js".to_string(),
    };
    let probe = NpmFetch::Probe(target.clone(), "/home/u/.ai-deno/npm/lodash/4.17.21".to_string());
    assert_eq!(loader.begin_npm_fetch("npm:lodash@4.17.21/map.js"), probe);
    let info = NpmPackageInfo {
        name: "lodash".to_string(),
        dist_tags: Some(vec![Entry { key: "latest".to_string(), value: "4.17.21".to_string() }]),
        versions: vec![],
    };
    assert_eq!(loader.npm_fetch_with_info("npm:lodash/map.js", Some(&info)), probe);
    assert_eq!(
        loader.npm_fetch_with_info("npm:lodash/map.js", None),
        NpmFetch::Failed(LoaderError::ResolutionFailed(
            "Failed to get `latest` tag of package: lodash".to_string()
        ))
    );
    assert_eq!(
        loader.npm_fetch_probed(target.clone(), &PackageOnDisk::NoManifest),
        NpmFetch::Install(target.clone())
    );
    assert_eq!(
        loader.npm_fetch_probed(target.clone(), &on_disk("4.17.21")),
        NpmFetch::Read("npm:lodash@4.17.21/map.js".to_string())
    );
    let installed = NpmPackage {
        name: "lodash".to_string(),
        version: "4.17.21".to_string(),
        content_path: "/home/u/.ai-deno/npm/lodash/4.17.21".to_string(),
    };
    assert_eq!(
        npm_fetch_installed(&target, Ok(installed)),
        NpmFetch::Read("npm:lodash@4.17.21/map.js".to_string())
    );
    assert_eq!(
        npm_fetch_installed(&target, Err(NpmPackageError::DownloadFailed("gone".to_string()))),
        NpmFetch::Failed(LoaderError::from_npm(&NpmPackageError::DownloadFailed("gone".to_string())))
    );
}

#[test]
fn installed_version_is_loaded() {
    let loader = loader();
    let info = NpmPackageInfo { name: "zod".to_string(), dist_tags: None, versions: vec![] };
    let target = loader.resolve_and_ensure_npm_module("npm:zod@next/lib.js", Some(&info)).unwrap();
    assert_eq!(target.version, "next");
    let installed = NpmPackage {
        name: "zod".to_string(),
        version: "4.0.0-beta.1".to_string(),
        content_path: "/home/u/.ai-deno/npm/zod/4.0.0-beta.1".to_string(),
    };
    assert_eq!(
        after_npm_install(&target, Ok(installed)),
        Ok("npm:zod@4.0.0-beta.1/lib.js".to_string())
    );
    assert_eq!(
        after_npm_install(&target, Err(NpmPackageError::ExtractionFailed("disk full".to_string()))),
        Err(LoaderError::ExtractionFailed("パッケージの展開に失敗しました: disk full".to_string()))
    );
}

#[test]
fn loaded_url_of_a_file_or_download_is_the_url_of_the_load() {
    let loader = loader();
    let load = |specifier: &str| match loader.begin_load(specifier, RequestedModuleType::Unspecified) {
        LoadStep::Fetch(load) => load,
        other => panic!("unexpected {:?}", other),
    };
    let elsewhere = Source { path: Some("/b/other.ts".to_string()), content: "1".to_string() };
    assert_eq!(
        load("file:///a/main.js").on_fetched(&loader, Ok(elsewhere.clone())),
        LoadStep::Deliver(ModuleSource {
            module_type: ModuleType::JavaScript,
            code: "1".to_string(),
            specifier: "file:///a/main.js".to_string(),
            found: "file:///a/main.js".to_string(),
        })
    );
    assert_eq!(
        load("https://x.test/a/../b.js?q=1").on_fetched(&loader, Ok(direct("2"))),
        LoadStep::Deliver(ModuleSource {
            module_type: ModuleType::JavaScript,
            code: "2".to_string(),
            specifier: "https://x.test/a/../b.js?q=1".to_string(),
            found: "https://x.test/b.js?q=1".to_string(),
        })
    );
}

#[test]
fn loaded_url_of_a_package_module_is_the_url_of_its_file() {
    let loader = loader();
    let load = |specifier: &str| match loader.begin_load(specifier, RequestedModuleType::Unspecified) {
        LoadStep::Fetch(load) => load,
        other => panic!("unexpected {:?}", other),
    };
    let read = Source {
        path: Some("/root/jsr/@std/path/1.0.0/a b.js".to_string()),
        content: "1".to_string(),
    };
    assert_eq!(
        load("jsr:@std/path@1").on_fetched(&loader, Ok(read)),
        LoadStep::Deliver(ModuleSource {
            module_type: ModuleType::JavaScript,
            code: "1".to_string(),
            specifier: "jsr:@std/path@1".to_string(),
            found: "file:///root/jsr/@std/path/1.0.0/a%20b.js".to_string(),
        })
    );
    let unresolved = LoadStep::Failed(LoaderError::InvalidSpecifier(
        "Invalid module specifier: npm:lodash".to_string(),
    ));
    assert_eq!(load("npm:lodash").on_fetched(&loader, Ok(direct("1"))), unresolved);
    let relative = Source { path: Some("lodash/index.js".to_string()), content: "1".to_string() };
    assert_eq!(load("npm:lodash").on_fetched(&loader, Ok(relative)), unresolved);
    assert_eq!(
        load("npm:lodash").deliver(
            &loader,
            Some(url("file:///root/npm/lodash/4.17.21/package.json", "file", "/root/npm/lodash/4.17.21/package.json")),
            "{}".to_string()
        ),
        LoadStep::Failed(LoaderError::ResolutionFailed("Invalid module type requested".to_string()))
    );
}
