//! Error values of the package managers and of the embedding runtime.

use vstd::prelude::*;
use vstd::string::*;

use crate::text::join2;

verus! {

/// Failure of an npm package operation. Each variant carries the detail
/// that the message ends with.
#[derive(Debug, Clone, PartialEq, Eq)]
pub enum NpmPackageError {
    /// The tarball or the metadata could not be downloaded.
    DownloadFailed(String),
    /// The archive could not be unpacked or written.
    ExtractionFailed(String),
    /// No version, directory or entry point could be found.
    ResolutionFailed(String),
    /// The specifier is not a package specifier.
    InvalidPackageSpec(String),
    /// The transport reported an error.
    HttpError(String),
    /// A JSON document could not be read.
    JsonError(String),
    /// The file system reported an error.
    IoError(String),
}

/// The kind of an npm package error, without its detail.
#[derive(Debug, Clone, Copy, PartialEq, Eq, Structural)]
pub enum NpmErrorKind {
    DownloadFailed,
    ExtractionFailed,
    ResolutionFailed,
    InvalidPackageSpec,
    HttpError,
    JsonError,
    IoError,
}

pub struct NpmErrorView {
    pub kind: NpmErrorKind,
    pub detail: Seq<char>,
}

impl View for NpmPackageError {
    type V = NpmErrorView;

    open spec fn view(&self) -> NpmErrorView {
        NpmErrorView { kind: self.kind(), detail: self.detail() }
    }
}

impl NpmPackageError {
    /// The kind of the error.
    pub open spec fn kind(self) -> NpmErrorKind {
        match self {
            NpmPackageError::DownloadFailed(_) => NpmErrorKind::DownloadFailed,
            NpmPackageError::ExtractionFailed(_) => NpmErrorKind::ExtractionFailed,
            NpmPackageError::ResolutionFailed(_) => NpmErrorKind::ResolutionFailed,
            NpmPackageError::InvalidPackageSpec(_) => NpmErrorKind::InvalidPackageSpec,
            NpmPackageError::HttpError(_) => NpmErrorKind::HttpError,
            NpmPackageError::JsonError(_) => NpmErrorKind::JsonError,
            NpmPackageError::IoError(_) => NpmErrorKind::IoError,
        }
    }

    /// The detail carried by the error.
    pub open spec fn detail(self) -> Seq<char> {
        match self {
            NpmPackageError::DownloadFailed(d) => d@,
            NpmPackageError::ExtractionFailed(d) => d@,
            NpmPackageError::ResolutionFailed(d) => d@,
            NpmPackageError::InvalidPackageSpec(d) => d@,
            NpmPackageError::HttpError(d) => d@,
            NpmPackageError::JsonError(d) => d@,
            NpmPackageError::IoError(d) => d@,
        }
    }

    /// The fixed text that the message begins with.
    pub open spec fn label(self) -> Seq<char> {
        match self {
            NpmPackageError::DownloadFailed(_) => "パッケージのダウンロードに失敗しました: "@,
            NpmPackageError::ExtractionFailed(_) => "パッケージの展開に失敗しました: "@,
            NpmPackageError::ResolutionFailed(_) => "パッケージの解決に失敗しました: "@,
            NpmPackageError::InvalidPackageSpec(_) => "無効なパッケージ指定: "@,
            NpmPackageError::HttpError(_) => "HTTP リクエストエラー: "@,
            NpmPackageError::JsonError(_) => "JSON パースエラー: "@,
            NpmPackageError::IoError(_) => "I/O エラー: "@,
        }
    }

    /// The message shown to the user: the label, then the detail.
    pub fn to_string(&self) -> (r: String)
        ensures
            r@ == self.label() + self.detail(),
    {
        match self {
            NpmPackageError::DownloadFailed(d) => join2(
                "パッケージのダウンロードに失敗しました: ",
                d.as_str(),
            ),
            NpmPackageError::ExtractionFailed(d) => join2(
                "パッケージの展開に失敗しました: ",
                d.as_str(),
            ),
            NpmPackageError::ResolutionFailed(d) => join2(
                "パッケージの解決に失敗しました: ",
                d.as_str(),
            ),
            NpmPackageError::InvalidPackageSpec(d) => join2("無効なパッケージ指定: ", d.as_str()),
            NpmPackageError::HttpError(d) => join2("HTTP リクエストエラー: ", d.as_str()),
            NpmPackageError::JsonError(d) => join2("JSON パースエラー: ", d.as_str()),
            NpmPackageError::IoError(d) => join2("I/O エラー: ", d.as_str()),
        }
    }
}

/// Failure reported by the embedding runtime.
#[derive(Debug, Clone, PartialEq, Eq)]
pub enum Error {
    CoreError(String),
    Runtime(String),
    ValueNotFound(String),
    /// A module did not finish in time.
    Timeout(String),
    /// A string could not be encoded for the engine.
    V8Encoding(String),
    /// A module could not be loaded from the file system.
    ModuleNotFound(String),
    ModuleResolutionError(String),
    /// The heap limit was reached during execution.
    HeapExhausted,
}

/// The class under which an error is raised inside the script engine.
#[derive(Debug, Clone, Copy, PartialEq, Eq, Structural)]
pub enum ErrorClass {
    Generic,
    TypeError,
}

impl Error {
    /// The message of the error.
    pub open spec fn text(self) -> Seq<char> {
        match self {
            Error::CoreError(e) => "core error: "@ + e@,
            Error::Runtime(e) => "runtime error: "@ + e@,
            Error::ValueNotFound(e) => e@ + " could not be found in global, or module exports"@,
            Error::Timeout(e) => "Module timed out: "@ + e@,
            Error::V8Encoding(e) => e@ + " could not be encoded as a v8 value"@,
            Error::ModuleNotFound(e) => e@,
            Error::ModuleResolutionError(e) => e@,
            Error::HeapExhausted => "Heap exhausted"@,
        }
    }

    /// The class with which the error reaches the running script.
    pub open spec fn script_class(self) -> ErrorClass {
        match self {
            Error::ValueNotFound(_) => ErrorClass::TypeError,
            _ => ErrorClass::Generic,
        }
    }

    /// The message with which the error reaches the running script.
    pub open spec fn script_text(self) -> Seq<char> {
        match self {
            Error::CoreError(e) => e@,
            Error::Runtime(e) => "Runtime error: "@ + e@,
            Error::ValueNotFound(e) => "TypeError: "@ + e@,
            Error::HeapExhausted => "Heap exhausted"@,
            Error::ModuleNotFound(e) => "ModuleNotFound error: "@ + e@,
            Error::ModuleResolutionError(e) => "ModuleResolutionError: "@ + e@,
            Error::V8Encoding(e) => "V8Encoding error: "@ + e@,
            Error::Timeout(e) => "Timeout error: "@ + e@,
        }
    }

    /// The message of the error.
    pub fn to_string(&self) -> (r: String)
        ensures
            r@ == self.text(),
    {
        match self {
            Error::CoreError(e) => join2("core error: ", e.as_str()),
            Error::Runtime(e) => join2("runtime error: ", e.as_str()),
            Error::ValueNotFound(e) => join2(
                e.as_str(),
                " could not be found in global, or module exports",
            ),
            Error::Timeout(e) => join2("Module timed out: ", e.as_str()),
            Error::V8Encoding(e) => join2(e.as_str(), " could not be encoded as a v8 value"),
            Error::ModuleNotFound(e) => e.clone(),
            Error::ModuleResolutionError(e) => e.clone(),
            Error::HeapExhausted => "Heap exhausted".to_owned(),
        }
    }

    /// The class and message with which the error reaches the running
    /// script.
    pub fn to_script_error(&self) -> (r: (ErrorClass, String))
        ensures
            r.0 == self.script_class(),
            r.1@ == self.script_text(),
    {
        match self {
            Error::CoreError(e) => (ErrorClass::Generic, e.clone()),
            Error::Runtime(e) => (ErrorClass::Generic, join2("Runtime error: ", e.as_str())),
            Error::ValueNotFound(e) => (ErrorClass::TypeError, join2("TypeError: ", e.as_str())),
            Error::HeapExhausted => (ErrorClass::Generic, "Heap exhausted".to_owned()),
            Error::ModuleNotFound(e) => (
                ErrorClass::Generic,
                join2("ModuleNotFound error: ", e.as_str()),
            ),
            Error::ModuleResolutionError(e) => (
                ErrorClass::Generic,
                join2("ModuleResolutionError: ", e.as_str()),
            ),
            Error::V8Encoding(e) => (ErrorClass::Generic, join2("V8Encoding error: ", e.as_str())),
            Error::Timeout(e) => (ErrorClass::Generic, join2("Timeout error: ", e.as_str())),
        }
    }
}

/// Failure of a module load. Each variant carries the message.
#[derive(Debug, Clone, PartialEq, Eq)]
pub enum LoaderError {
    /// The specifier is malformed.
    InvalidSpecifier(String),
    /// No version or no export matches, or the referrer is invalid.
    ResolutionFailed(String),
    /// The download failed after all attempts.
    DownloadFailed(String),
    /// The archive or the file system failed during unpacking.
    ExtractionFailed(String),
    /// The file is not on disk.
    ModuleNotFound(String),
    /// The source cannot be parsed.
    ParseFailed(String),
    /// The scheme of the specifier is not known.
    UnsupportedScheme(String),
}

/// The kind of a load failure, without its message.
#[derive(Debug, Clone, Copy, PartialEq, Eq, Structural)]
pub enum LoaderErrorKind {
    InvalidSpecifier,
    ResolutionFailed,
    DownloadFailed,
    ExtractionFailed,
    ModuleNotFound,
    ParseFailed,
    UnsupportedScheme,
}

pub struct LoaderErrorView {
    pub kind: LoaderErrorKind,
    pub message: Seq<char>,
}

impl View for LoaderError {
    type V = LoaderErrorView;

    open spec fn view(&self) -> LoaderErrorView {
        LoaderErrorView { kind: self.kind(), message: self.message() }
    }
}

/// The kind of load failure that an npm package error stands for.
pub open spec fn loader_kind_of(kind: NpmErrorKind) -> LoaderErrorKind {
    match kind {
        NpmErrorKind::DownloadFailed => LoaderErrorKind::DownloadFailed,
        NpmErrorKind::ExtractionFailed => LoaderErrorKind::ExtractionFailed,
        NpmErrorKind::ResolutionFailed => LoaderErrorKind::ResolutionFailed,
        NpmErrorKind::InvalidPackageSpec => LoaderErrorKind::InvalidSpecifier,
        NpmErrorKind::HttpError => LoaderErrorKind::DownloadFailed,
        NpmErrorKind::JsonError => LoaderErrorKind::ParseFailed,
        NpmErrorKind::IoError => LoaderErrorKind::ExtractionFailed,
    }
}

impl LoaderError {
    /// The kind of the failure.
    pub open spec fn kind(self) -> LoaderErrorKind {
        match self {
            LoaderError::InvalidSpecifier(_) => LoaderErrorKind::InvalidSpecifier,
            LoaderError::ResolutionFailed(_) => LoaderErrorKind::ResolutionFailed,
            LoaderError::DownloadFailed(_) => LoaderErrorKind::DownloadFailed,
            LoaderError::ExtractionFailed(_) => LoaderErrorKind::ExtractionFailed,
            LoaderError::ModuleNotFound(_) => LoaderErrorKind::ModuleNotFound,
            LoaderError::ParseFailed(_) => LoaderErrorKind::ParseFailed,
            LoaderError::UnsupportedScheme(_) => LoaderErrorKind::UnsupportedScheme,
        }
    }

    /// The message of the failure.
    pub open spec fn message(self) -> Seq<char> {
        match self {
            LoaderError::InvalidSpecifier(m) => m@,
            LoaderError::ResolutionFailed(m) => m@,
            LoaderError::DownloadFailed(m) => m@,
            LoaderError::ExtractionFailed(m) => m@,
            LoaderError::ModuleNotFound(m) => m@,
            LoaderError::ParseFailed(m) => m@,
            LoaderError::UnsupportedScheme(m) => m@,
        }
    }

    /// The message of the failure.
    pub fn to_string(&self) -> (r: String)
        ensures
            r@ == self.message(),
    {
        match self {
            LoaderError::InvalidSpecifier(m) => m.clone(),
            LoaderError::ResolutionFailed(m) => m.clone(),
            LoaderError::DownloadFailed(m) => m.clone(),
            LoaderError::ExtractionFailed(m) => m.clone(),
            LoaderError::ModuleNotFound(m) => m.clone(),
            LoaderError::ParseFailed(m) => m.clone(),
            LoaderError::UnsupportedScheme(m) => m.clone(),
        }
    }

    /// The load failure that a failed download stands for.
    pub fn from_download(message: String) -> (r: LoaderError)
        ensures
            r@.kind == LoaderErrorKind::DownloadFailed,
            r@.message == message@,
    {
        LoaderError::DownloadFailed(message)
    }

    /// The load failure that an npm package error stands for: the kind
    /// that matches, with the message of the package error.
    pub fn from_npm(error: &NpmPackageError) -> (r: LoaderError)
        ensures
            r@.kind == loader_kind_of(error.kind()),
            r@.message == error.label() + error.detail(),
    {
        let message: String = error.to_string();
        match error {
            NpmPackageError::DownloadFailed(_) => LoaderError::DownloadFailed(message),
            NpmPackageError::ExtractionFailed(_) => LoaderError::ExtractionFailed(message),
            NpmPackageError::ResolutionFailed(_) => LoaderError::ResolutionFailed(message),
            NpmPackageError::InvalidPackageSpec(_) => LoaderError::InvalidSpecifier(message),
            NpmPackageError::HttpError(_) => LoaderError::DownloadFailed(message),
            NpmPackageError::JsonError(_) => LoaderError::ParseFailed(message),
            NpmPackageError::IoError(_) => LoaderError::ExtractionFailed(message),
        }
    }
}

} // verus!
