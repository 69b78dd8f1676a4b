//! URLs as text. Parsing and joining are done by the `url` crate; the
//! library keeps a URL as the string that the crate serialises it to.

use vstd::prelude::*;
use vstd::string::*;

use crate::text::opt_view;

verus! {

/// A parsed URL: its serialisation, its scheme and its path.
#[derive(Debug, Clone, PartialEq, Eq)]
pub struct UrlParts {
    pub href: String,
    pub scheme: String,
    pub path: String,
}

/// The three texts of a parsed URL.
pub struct UrlPartsView {
    pub href: Seq<char>,
    pub scheme: Seq<char>,
    pub path: Seq<char>,
}

impl View for UrlParts {
    type V = UrlPartsView;

    open spec fn view(&self) -> UrlPartsView {
        UrlPartsView { href: self.href@, scheme: self.scheme@, path: self.path@ }
    }
}

/// The view of an optional parsed URL.
pub open spec fn opt_parts_view(o: Option<UrlParts>) -> Option<UrlPartsView> {
    match o {
        Some(p) => Some(p@),
        None => None,
    }
}

/// What `url::Url::parse` makes of a text: `None` where it refuses the text.
pub uninterp spec fn parsed_url(text: Seq<char>) -> Option<UrlPartsView>;

/// What `url::Url::join` makes of a reference read against a base URL:
/// `None` where the base or the reference is refused.
pub uninterp spec fn joined_url(base: Seq<char>, reference: Seq<char>) -> Option<Seq<char>>;

/// Calls `url::Url::parse` and hands out the URL's serialisation, its
/// `scheme()` and its `path()`. Nothing is claimed of them but that they are
/// a function of the text.
#[verifier::external_body]
pub(crate) fn parse_url(text: &str) -> (r: Option<UrlParts>)
    ensures
        opt_parts_view(r) == parsed_url(text@),
{
    match url::Url::parse(text) {
        Ok(u) => Some(
            UrlParts {
                href: u.as_str().to_string(),
                scheme: u.scheme().to_string(),
                path: u.path().to_string(),
            },
        ),
        Err(_) => None,
    }
}

/// Calls `url::Url::join` on the parsed `base` and hands out the
/// serialisation of the result. Nothing is claimed of it but that it is a
/// function of the two texts.
#[verifier::external_body]
pub(crate) fn join_url(base: &str, reference: &str) -> (r: Option<String>)
    ensures
        opt_view(r) == joined_url(base@, reference@),
{
    match url::Url::parse(base) {
        Ok(b) => match b.join(reference) {
            Ok(u) => Some(String::from(u)),
            Err(_) => None,
        },
        Err(_) => None,
    }
}

/// Calls `url::Url::from_file_path` on the path and hands out the
/// serialisation, the `scheme()` and the `path()` of the URL that it makes;
/// `None` where it refuses the path. What a path is depends on the
/// platform, so the URL has no name here: all that is claimed is that its
/// scheme is `file`, which the outside function writes itself.
#[verifier::external_body]
pub(crate) fn file_url(path: &str) -> (r: Option<UrlParts>)
    ensures
        r matches Some(u) ==> u.scheme@ == "file"@,
{
    match url::Url::from_file_path(path) {
        Ok(u) => Some(
            UrlParts {
                href: u.as_str().to_string(),
                scheme: u.scheme().to_string(),
                path: u.path().to_string(),
            },
        ),
        Err(_) => None,
    }
}

} // verus!
