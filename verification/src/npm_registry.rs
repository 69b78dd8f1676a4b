//! What the npm registry says of a package, and how a requested version is
//! turned into an exact version with its tarball.
//!
//! The requested version is used where one is given, the dist-tag `latest`
//! otherwise. A requested version that is the name of a dist-tag stands for
//! the version that the tag points to; any other is taken as it is.

use vstd::prelude::*;
use vstd::string::*;

use crate::entries::{
    entries_view, lookup, opt_entries_view, value_of, Entry, EntryView,
};
use crate::error::NpmPackageError;
use crate::text::{chars_of, join2, join3, opt_view, same_text, slice_text};

verus! {

/// The address of the public npm registry.
pub const NPM_REGISTRY_URL: &'static str = "https://registry.npmjs.org";

/// One version of a package as the registry lists it.
#[derive(Debug, Clone, PartialEq, Eq)]
pub struct NpmVersionInfo {
    pub version: String,
    /// Where the archive of the version is, if the registry says so.
    pub tarball: Option<String>,
    pub dependencies: Vec<Entry>,
    pub optional_dependencies: Vec<Entry>,
}

pub struct VersionInfoView {
    pub version: Seq<char>,
    pub tarball: Option<Seq<char>>,
    pub dependencies: Seq<EntryView>,
    pub optional_dependencies: Seq<EntryView>,
}

impl View for NpmVersionInfo {
    type V = VersionInfoView;

    open spec fn view(&self) -> VersionInfoView {
        VersionInfoView {
            version: self.version@,
            tarball: opt_view(self.tarball),
            dependencies: entries_view(self.dependencies@),
            optional_dependencies: entries_view(self.optional_dependencies@),
        }
    }
}

/// The registry's document of a package. `dist_tags` is `None` where the
/// document has no dist-tags at all.
#[derive(Debug, Clone, PartialEq, Eq)]
pub struct NpmPackageInfo {
    pub name: String,
    pub dist_tags: Option<Vec<Entry>>,
    pub versions: Vec<NpmVersionInfo>,
}

pub struct NpmPackageInfoView {
    pub name: Seq<char>,
    pub dist_tags: Option<Seq<EntryView>>,
    pub versions: Seq<VersionInfoView>,
}

impl View for NpmPackageInfo {
    type V = NpmPackageInfoView;

    open spec fn view(&self) -> NpmPackageInfoView {
        NpmPackageInfoView {
            name: self.name@,
            dist_tags: opt_entries_view(self.dist_tags),
            versions: self.versions@.map_values(|v: NpmVersionInfo| v@),
        }
    }
}

/// An exact version, the address of its archive and its place in the list
/// of versions.
#[derive(Debug, Clone, PartialEq, Eq)]
pub struct ResolvedVersion {
    pub version: String,
    pub tarball: String,
    pub index: usize,
}

/// Why no exact version came out.
pub enum Unresolved {
    /// No version was asked for and the document has no dist-tags.
    NoVersionInfo,
    /// No version was asked for and there is no dist-tag `latest`.
    NoLatestTag,
    /// The version is not listed, or is listed without an archive.
    NoTarball(Seq<char>),
}

/// The characters of the dist-tag that stands for the newest release.
pub open spec fn latest_tag() -> Seq<char> {
    seq!['l', 'a', 't', 'e', 's', 't']
}

/// The version asked for, before dist-tags are looked at.
pub open spec fn wanted_version(info: NpmPackageInfoView, version_req: Option<Seq<char>>)
    -> Result<Seq<char>, Unresolved> {
    match version_req {
        Some(v) => Ok(v),
        None => match info.dist_tags {
            None => Err(Unresolved::NoVersionInfo),
            Some(tags) => match value_of(tags, latest_tag()) {
                Some(v) => Ok(v),
                None => Err(Unresolved::NoLatestTag),
            },
        },
    }
}

/// The version that `wanted` stands for: what the dist-tag of that name
/// points to, or `wanted` itself.
pub open spec fn through_tags(info: NpmPackageInfoView, wanted: Seq<char>) -> Seq<char> {
    match info.dist_tags {
        Some(tags) => match value_of(tags, wanted) {
            Some(v) => v,
            None => wanted,
        },
        None => wanted,
    }
}

/// The index of the first listed version with this text; the length of the
/// list where there is none.
pub open spec fn version_index(versions: Seq<VersionInfoView>, version: Seq<char>, from: int)
    -> int
    decreases versions.len() - from,
{
    if from < 0 || from >= versions.len() {
        versions.len() as int
    } else if versions[from].version == version {
        from
    } else {
        version_index(versions, version, from + 1)
    }
}

/// The exact version, its archive and its index, or why there is none.
pub open spec fn resolved(info: NpmPackageInfoView, version_req: Option<Seq<char>>) -> Result<
    (Seq<char>, Seq<char>, int),
    Unresolved,
> {
    match wanted_version(info, version_req) {
        Err(e) => Err(e),
        Ok(wanted) => {
            let version = through_tags(info, wanted);
            let i = version_index(info.versions, version, 0);
            if i < info.versions.len() && info.versions[i].tarball is Some {
                Ok((version, info.versions[i].tarball->0, i))
            } else {
                Err(Unresolved::NoTarball(version))
            }
        },
    }
}

/// The message that goes with a failure to resolve a version of `name`.
pub open spec fn unresolved_message(name: Seq<char>, why: Unresolved) -> Seq<char> {
    match why {
        Unresolved::NoVersionInfo => "バージョン情報が見つかりません: "@ + name,
        Unresolved::NoLatestTag => "latestタグが見つかりません: "@ + name,
        Unresolved::NoTarball(version) => "tarball URLが見つかりません: "@ + name + "@"@ + version,
    }
}

/// `version_index` finds the first listed version with the text.
pub proof fn lemma_version_index(versions: Seq<VersionInfoView>, version: Seq<char>, from: int)
    requires
        0 <= from <= versions.len(),
    ensures
        from <= version_index(versions, version, from) <= versions.len(),
        version_index(versions, version, from) < versions.len() ==> versions[version_index(
            versions,
            version,
            from,
        )].version == version,
        forall|k: int|
            from <= k < version_index(versions, version, from) ==> (#[trigger] versions[k]).version
                != version,
    decreases versions.len() - from,
{
    if from < versions.len() && versions[from].version != version {
        lemma_version_index(versions, version, from + 1);
    }
}

/// Finds the first listed version with the text.
pub fn find_version(info: &NpmPackageInfo, version: &str) -> (r: usize)
    ensures
        r == version_index(info@.versions, version@, 0),
        r <= info.versions.len(),
{
    let ghost versions = info@.versions;
    let mut i: usize = 0;
    while i < info.versions.len()
        invariant
            i <= info.versions.len(),
            versions == info@.versions,
            version_index(versions, version@, 0) == version_index(versions, version@, i as int),
        decreases info.versions.len() - i,
    {
        assert(versions[i as int] == info.versions[i as int]@);
        if same_text(info.versions[i].version.as_str(), version) {
            return i;
        }
        i = i + 1;
    }
    i
}

/// Turns the version asked for into an exact version of the package with
/// the address of its archive. Without `version_req` the dist-tag `latest`
/// is asked for.
pub fn resolve_version(info: &NpmPackageInfo, name: &str, version_req: Option<&str>) -> (r: Result<
    ResolvedVersion,
    NpmPackageError,
>)
    ensures
        match resolved(
            info@,
            match version_req {
                Some(v) => Some(v@),
                None => None,
            },
        ) {
            Ok((version, tarball, index)) => r matches Ok(found) && found.version@ == version
                && found.tarball@ == tarball && found.index == index,
            Err(why) => r matches Err(NpmPackageError::ResolutionFailed(m)) && m@
                == unresolved_message(name@, why),
        },
{
    let wanted: String = match version_req {
        Some(v) => v.to_owned(),
        None => match &info.dist_tags {
            None => {
                return Err(
                    NpmPackageError::ResolutionFailed(
                        join2("バージョン情報が見つかりません: ", name),
                    ),
                );
            },
            Some(tags) => {
                proof {
                    reveal_strlit("latest");
                    assert("latest"@ =~= latest_tag());
                }
                match lookup(tags, "latest") {
                    Some(v) => v,
                    None => {
                        return Err(
                            NpmPackageError::ResolutionFailed(
                                join2("latestタグが見つかりません: ", name),
                            ),
                        );
                    },
                }
            },
        },
    };
    let version: String = match &info.dist_tags {
        Some(tags) => match lookup(tags, wanted.as_str()) {
            Some(v) => v,
            None => wanted,
        },
        None => wanted,
    };
    let i: usize = find_version(info, version.as_str());
    if i < info.versions.len() {
        assert(info@.versions[i as int] == info.versions[i as int]@);
        match &info.versions[i].tarball {
            Some(tarball) => {
                return Ok(ResolvedVersion { version, tarball: tarball.clone(), index: i });
            },
            None => {},
        }
    }
    let head: String = join3("tarball URLが見つかりません: ", name, "@");
    Err(NpmPackageError::ResolutionFailed(join2(head.as_str(), version.as_str())))
}

/// `name` with every `/` written as `%2F`.
pub open spec fn encoded_name(name: Seq<char>) -> Seq<char>
    decreases name.len(),
{
    if name.len() == 0 {
        Seq::empty()
    } else if name.last() == '/' {
        encoded_name(name.drop_last()) + seq!['%', '2', 'F']
    } else {
        encoded_name(name.drop_last()).push(name.last())
    }
}

/// The address of the registry's document of a package: the registry's
/// address, `/` and the name, with the `/` of a scoped name written as
/// `%2F`.
pub open spec fn package_url(registry: Seq<char>, name: Seq<char>) -> Seq<char> {
    if name.len() > 0 && name[0] == '@' {
        registry + seq!['/'] + encoded_name(name)
    } else {
        registry + seq!['/'] + name
    }
}

/// Writes every `/` of `name` as `%2F`.
pub fn encode_name(name: &str) -> (r: String)
    ensures
        r@ == encoded_name(name@),
{
    let v: Vec<char> = chars_of(name);
    let mut out: String = String::new();
    let mut start: usize = 0;
    let mut i: usize = 0;
    proof {
        assert(name@.subrange(0, 0) =~= Seq::<char>::empty());
    }
    while i < v.len()
        invariant
            v@ == name@,
            start <= i <= v.len(),
            out@ + name@.subrange(start as int, i as int) == encoded_name(
                name@.subrange(0, i as int),
            ),
        decreases v.len() - i,
    {
        let ghost upto = name@.subrange(0, i as int);
        let ghost more = name@.subrange(0, i + 1);
        proof {
            assert(more.drop_last() =~= upto);
            assert(more.last() == name@[i as int]);
        }
        if v[i] == '/' {
            let piece: String = slice_text(name, start, i);
            out.append(piece.as_str());
            proof {
                reveal_strlit("%2F");
                assert("%2F"@ =~= seq!['%', '2', 'F']);
            }
            out.append("%2F");
            start = i + 1;
            proof {
                assert(name@.subrange(start as int, i + 1) =~= Seq::<char>::empty());
                assert(out@ + name@.subrange(start as int, i + 1) =~= out@);
            }
        } else {
            proof {
                assert(name@.subrange(start as int, i + 1) =~= name@.subrange(
                    start as int,
                    i as int,
                ).push(name@[i as int]));
                assert(out@ + name@.subrange(start as int, i + 1) =~= (out@ + name@.subrange(
                    start as int,
                    i as int,
                )).push(name@[i as int]));
            }
        }
        i = i + 1;
    }
    let piece: String = slice_text(name, start, v.len());
    out.append(piece.as_str());
    proof {
        assert(name@.subrange(0, v.len() as int) =~= name@);
    }
    out
}

/// The address of the registry's document of the package.
pub fn registry_url_for(registry: &str, name: &str) -> (r: String)
    ensures
        r@ == package_url(registry@, name@),
{
    let v: Vec<char> = chars_of(name);
    proof {
        reveal_strlit("/");
        assert("/"@ =~= seq!['/']);
    }
    if v.len() > 0 && v[0] == '@' {
        let encoded: String = encode_name(name);
        join3(registry, "/", encoded.as_str())
    } else {
        join3(registry, "/", name)
    }
}

} // verus!
