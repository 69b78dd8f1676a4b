//! Media types of modules, and what follows from them: whether a source is
//! transpiled before it is run, and which kind of module it is delivered as.

use vstd::prelude::*;
use vstd::string::*;

use crate::text::{has_prefix, has_suffix, opt_view, same_text, str_ends_with, str_starts_with};

verus! {

/// The media type of a module, as it is read off its specifier.
#[derive(Debug, Clone, Copy, PartialEq, Eq, Structural)]
pub enum MediaType {
    JavaScript,
    Jsx,
    Mjs,
    Cjs,
    TypeScript,
    Mts,
    Cts,
    Dts,
    Dmts,
    Dcts,
    Tsx,
    Css,
    Json,
    Jsonc,
    Json5,
    Html,
    Markdown,
    Sql,
    Wasm,
    SourceMap,
    Unknown,
}

/// The kind of module that the engine is handed.
#[derive(Debug, Clone, Copy, PartialEq, Eq, Structural)]
pub enum ModuleType {
    JavaScript,
    Json,
}

/// The name under which `deno_ast::MediaType::from_specifier` files the
/// URL, as the type's `Display` writes it; `None` where the text is no URL.
pub uninterp spec fn media_type_name(specifier: Seq<char>) -> Option<Seq<char>>;

/// Parses the specifier with `url::Url::parse`, calls
/// `deno_ast::MediaType::from_specifier` and writes the result with its
/// `Display`. Nothing is claimed of the name but that it is a function of
/// the specifier.
#[verifier::external_body]
pub(crate) fn media_type_name_of(specifier: &str) -> (r: Option<String>)
    ensures
        opt_view(r) == media_type_name(specifier@),
{
    match url::Url::parse(specifier) {
        Ok(u) => Some(deno_ast::MediaType::from_specifier(&u).to_string()),
        Err(_) => None,
    }
}

/// The media type with the given name; `Unknown` for any other text.
pub open spec fn named_media_type(name: Seq<char>) -> MediaType {
    if name == "JavaScript"@ {
        MediaType::JavaScript
    } else if name == "JSX"@ {
        MediaType::Jsx
    } else if name == "Mjs"@ {
        MediaType::Mjs
    } else if name == "Cjs"@ {
        MediaType::Cjs
    } else if name == "TypeScript"@ {
        MediaType::TypeScript
    } else if name == "Mts"@ {
        MediaType::Mts
    } else if name == "Cts"@ {
        MediaType::Cts
    } else if name == "Dts"@ {
        MediaType::Dts
    } else if name == "Dmts"@ {
        MediaType::Dmts
    } else if name == "Dcts"@ {
        MediaType::Dcts
    } else if name == "TSX"@ {
        MediaType::Tsx
    } else if name == "Css"@ {
        MediaType::Css
    } else if name == "Json"@ {
        MediaType::Json
    } else if name == "Jsonc"@ {
        MediaType::Jsonc
    } else if name == "Json5"@ {
        MediaType::Json5
    } else if name == "Html"@ {
        MediaType::Html
    } else if name == "Markdown"@ {
        MediaType::Markdown
    } else if name == "Sql"@ {
        MediaType::Sql
    } else if name == "Wasm"@ {
        MediaType::Wasm
    } else if name == "SourceMap"@ {
        MediaType::SourceMap
    } else {
        MediaType::Unknown
    }
}

/// The media type of a specifier; `Unknown` where the specifier is no URL.
pub open spec fn media_type_of(specifier: Seq<char>) -> MediaType {
    match media_type_name(specifier) {
        Some(name) => named_media_type(name),
        None => MediaType::Unknown,
    }
}

impl MediaType {
    /// The media type with the given name.
    pub fn from_name(name: &str) -> (r: MediaType)
        ensures
            r == named_media_type(name@),
    {
        if same_text(name, "JavaScript") {
            MediaType::JavaScript
        } else if same_text(name, "JSX") {
            MediaType::Jsx
        } else if same_text(name, "Mjs") {
            MediaType::Mjs
        } else if same_text(name, "Cjs") {
            MediaType::Cjs
        } else if same_text(name, "TypeScript") {
            MediaType::TypeScript
        } else if same_text(name, "Mts") {
            MediaType::Mts
        } else if same_text(name, "Cts") {
            MediaType::Cts
        } else if same_text(name, "Dts") {
            MediaType::Dts
        } else if same_text(name, "Dmts") {
            MediaType::Dmts
        } else if same_text(name, "Dcts") {
            MediaType::Dcts
        } else if same_text(name, "TSX") {
            MediaType::Tsx
        } else if same_text(name, "Css") {
            MediaType::Css
        } else if same_text(name, "Json") {
            MediaType::Json
        } else if same_text(name, "Jsonc") {
            MediaType::Jsonc
        } else if same_text(name, "Json5") {
            MediaType::Json5
        } else if same_text(name, "Html") {
            MediaType::Html
        } else if same_text(name, "Markdown") {
            MediaType::Markdown
        } else if same_text(name, "Sql") {
            MediaType::Sql
        } else if same_text(name, "Wasm") {
            MediaType::Wasm
        } else if same_text(name, "SourceMap") {
            MediaType::SourceMap
        } else {
            MediaType::Unknown
        }
    }

    /// The media type of a specifier.
    pub fn from_specifier(specifier: &str) -> (r: MediaType)
        ensures
            r == media_type_of(specifier@),
    {
        match media_type_name_of(specifier) {
            Some(name) => MediaType::from_name(name.as_str()),
            None => MediaType::Unknown,
        }
    }
}

/// The media types whose sources are transpiled before they are run: JSX,
/// TypeScript with its declarations, TSX and CommonJS.
pub open spec fn is_transpiled(media_type: MediaType) -> bool {
    media_type == MediaType::Jsx || media_type == MediaType::TypeScript || media_type
        == MediaType::Cjs || media_type == MediaType::Dts || media_type == MediaType::Dmts
        || media_type == MediaType::Dcts || media_type == MediaType::Tsx
}

/// Tells whether sources of this media type are transpiled before they are
/// run. All others pass through unchanged.
pub fn should_transpile(media_type: MediaType) -> (r: bool)
    ensures
        r == is_transpiled(media_type),
{
    match media_type {
        MediaType::Jsx | MediaType::TypeScript | MediaType::Cjs | MediaType::Dts
        | MediaType::Dmts | MediaType::Dcts | MediaType::Tsx => true,
        _ => false,
    }
}

/// The media type that a file is transpiled as: that of its specifier, and
/// TypeScript for a built-in `node:` module of unknown type.
pub open spec fn transpile_type_of(filename: Seq<char>) -> MediaType {
    if media_type_of(filename) == MediaType::Unknown && has_prefix(filename, "node:"@) {
        MediaType::TypeScript
    } else {
        media_type_of(filename)
    }
}

/// The media type that a file is transpiled as.
pub fn transpile_media_type(filename: &str) -> (r: MediaType)
    ensures
        r == transpile_type_of(filename@),
{
    let media_type: MediaType = MediaType::from_specifier(filename);
    if media_type == MediaType::Unknown && str_starts_with(filename, "node:") {
        MediaType::TypeScript
    } else {
        media_type
    }
}

/// The kind of module that a path is delivered as: JSON where the path ends
/// in `.json`, JavaScript otherwise.
pub open spec fn module_type_of(path: Seq<char>) -> ModuleType {
    if has_suffix(path, ".json"@) {
        ModuleType::Json
    } else {
        ModuleType::JavaScript
    }
}

/// The kind of module that the path of a resolved URL is delivered as.
pub fn determine_module_type(path: &str) -> (r: ModuleType)
    ensures
        r == module_type_of(path@),
{
    if str_ends_with(path, ".json") {
        ModuleType::Json
    } else {
        ModuleType::JavaScript
    }
}

} // verus!
