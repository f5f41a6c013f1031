//! Where the sources come from: a directory, a compressed tarball whose
//! format is sniffed from its first bytes, or a remote repository at a
//! revision; and which directory of the unpacked tree is the project.
use vstd::prelude::*;
use vstd::string::*;
use crate::archive::Compression;
use crate::errors::{OBSCargoError, OBSCargoErrorKind};
use crate::manifest::{join_path, join_spec};
use crate::text::{owned, same_text};

verus! {

/// The MIME type that `infer` recognises in a byte prefix, if any.
pub uninterp spec fn sniffed_mime(head: Seq<u8>) -> Option<Seq<char>>;

/// Relies on `infer::get` and `Type::mime_type`: the type is recognised from
/// the leading bytes alone.
#[verifier::external_body]
fn sniff_mime(head: &[u8]) -> (r: Option<String>)
    ensures
        match r {
            Some(m) => sniffed_mime(head@) == Some(m@),
            None => sniffed_mime(head@) is None,
        },
{
    match infer::get(head) {
        Some(t) => Some(t.mime_type().to_string()),
        None => None,
    }
}

/// Whether `url::Url::parse` accepts the text as an absolute URL.
pub uninterp spec fn url_accepts(s: Seq<char>) -> bool;

/// Relies on `url::Url::parse`: the answer depends on the text alone.
#[verifier::external_body]
fn parses_as_url(s: &str) -> (r: bool)
    ensures
        r == url_accepts(s@),
{
    url::Url::parse(s).is_ok()
}

/// A source the service can work from.
#[derive(Clone, Debug)]
pub enum SupportedFormat {
    Compressed(Compression, String),
    Dir(String),
}

/// A source the service cannot work from.
#[derive(Clone, Debug)]
pub struct UnsupportedFormat {
    pub ext: String,
}

/// A failed vendoring run, as the operator reads it.
#[derive(Clone, Debug)]
pub struct VendorFailed {
    pub error: String,
}

impl UnsupportedFormat {
    /// `Expected one of the supported types. Got <ext>`.
    pub fn describe(&self) -> (r: String)
        ensures
            r@ == "Expected one of the supported types. Got "@ + self.ext@,
    {
        let mut r = String::from_str("Expected one of the supported types. Got ");
        r.append(self.ext.as_str());
        r
    }
}

pub open spec fn codec_of_mime(m: Seq<char>) -> Option<Compression> {
    if m == "application/gzip"@ {
        Some(Compression::Gz)
    } else if m == "application/x-xz"@ {
        Some(Compression::Xz)
    } else if m == "application/zstd"@ {
        Some(Compression::Zst)
    } else if m == "application/x-bzip2"@ {
        Some(Compression::Bz2)
    } else if m == "application/x-tar"@ {
        Some(Compression::Not)
    } else {
        None
    }
}

/// The codec of a sniffed MIME type, where the service supports it.
pub fn codec_for_mime(m: &str) -> (r: Option<Compression>)
    ensures
        r == codec_of_mime(m@),
{
    if same_text(m, "application/gzip") {
        Some(Compression::Gz)
    } else if same_text(m, "application/x-xz") {
        Some(Compression::Xz)
    } else if same_text(m, "application/zstd") {
        Some(Compression::Zst)
    } else if same_text(m, "application/x-bzip2") {
        Some(Compression::Bz2)
    } else if same_text(m, "application/x-tar") {
        Some(Compression::Not)
    } else {
        None
    }
}

/// Classifies a file source from its sniffed MIME type.
pub fn format_for_mime(src: &str, mime: Option<&str>) -> (r: Result<SupportedFormat, UnsupportedFormat>)
    ensures
        match mime {
            Some(m) => match codec_of_mime(m@) {
                Some(c) => r matches Ok(SupportedFormat::Compressed(c2, s)) && c2 == c && s@
                    == src@,
                None => r matches Err(u) && u.ext@ == m@,
            },
            None => r matches Err(u) && u.ext@ == "`File type is not known`"@,
        },
{
    match mime {
        Some(m) => match codec_for_mime(m) {
            Some(c) => Ok(SupportedFormat::Compressed(c, owned(src))),
            None => Err(UnsupportedFormat { ext: owned(m) }),
        },
        None => Err(UnsupportedFormat { ext: String::from_str("`File type is not known`") }),
    }
}

/// Classifies a source: a directory where `head` is `None`, otherwise a file
/// whose leading bytes are `head`.
pub fn is_supported(src: &str, head: Option<&[u8]>) -> (r: Result<SupportedFormat, UnsupportedFormat>)
    ensures
        head is None ==> (r matches Ok(SupportedFormat::Dir(s)) && s@ == src@),
        head matches Some(h) ==> match sniffed_mime(h@) {
            Some(m) => match codec_of_mime(m) {
                Some(c) => r matches Ok(SupportedFormat::Compressed(c2, s)) && c2 == c && s@
                    == src@,
                None => r matches Err(u) && u.ext@ == m,
            },
            None => r matches Err(u) && u.ext@ == "`File type is not known`"@,
        },
{
    match head {
        None => Ok(SupportedFormat::Dir(owned(src))),
        Some(h) => {
            let mime = sniff_mime(h);
            match mime {
                Some(m) => format_for_mime(src, Some(m.as_str())),
                None => format_for_mime(src, None),
            }
        },
    }
}

/// How the source is brought into the working directory.
#[derive(Clone, Debug)]
pub enum SourceKind {
    /// Copy the directory.
    CopyDir,
    /// Unpack the archive.
    Extract,
    /// Clone the repository at this revision.
    Clone(String),
}

/// Decides how to bring the source in, given what the path is and whether
/// the text is a URL. A URL without a revision is refused.
pub fn classify_source_with(
    is_dir: bool,
    is_supported_archive: bool,
    is_url: bool,
    revision: Option<&str>,
) -> (r: Result<SourceKind, OBSCargoError>)
    ensures
        is_dir ==> r is Ok && r->Ok_0 is CopyDir,
        !is_dir && is_supported_archive ==> r is Ok && r->Ok_0 is Extract,
        !is_dir && !is_supported_archive && is_url && revision is Some ==> (r matches Ok(
            SourceKind::Clone(rev),
        ) && rev@ == revision->Some_0@),
        !is_dir && !is_supported_archive && !(is_url && revision is Some) ==> (r matches Err(e)
            && e.kind == OBSCargoErrorKind::VendorError),
{
    if is_dir {
        Ok(SourceKind::CopyDir)
    } else if is_supported_archive {
        Ok(SourceKind::Extract)
    } else if is_url {
        match revision {
            Some(rev) => Ok(SourceKind::Clone(owned(rev))),
            None => Err(
                OBSCargoError::new(OBSCargoErrorKind::VendorError, String::from_str("Revision is empty.")),
            ),
        }
    } else {
        Err(
            OBSCargoError::new(
                OBSCargoErrorKind::VendorError,
                String::from_str("Unsupported format found"),
            ),
        )
    }
}

/// Decides how to bring the source `src` in.
pub fn classify_source(
    src: &str,
    is_dir: bool,
    is_supported_archive: bool,
    revision: Option<&str>,
) -> (r: Result<SourceKind, OBSCargoError>)
    ensures
        is_dir ==> r is Ok && r->Ok_0 is CopyDir,
        !is_dir && is_supported_archive ==> r is Ok && r->Ok_0 is Extract,
        !is_dir && !is_supported_archive && url_accepts(src@) && revision is Some ==> (r matches Ok(
            SourceKind::Clone(rev),
        ) && rev@ == revision->Some_0@),
        !is_dir && !is_supported_archive && !(url_accepts(src@) && revision is Some) ==> (
        r matches Err(e) && e.kind == OBSCargoErrorKind::VendorError),
{
    let is_url = parses_as_url(src);
    classify_source_with(is_dir, is_supported_archive, is_url, revision)
}

/// Which directory of the unpacked tree is the project.
#[derive(Clone, Debug)]
pub enum WorkdirChoice {
    /// Several entries: the working directory itself.
    Whole,
    /// A single directory: that top-level directory.
    TopLevel,
}

/// Picks the project directory from the entries of the working directory.
/// One entry that is a file means a tarball without a top-level directory;
/// no entry at all cannot follow a successful unpack.
pub fn setup_workdir(entries: usize, only_entry_is_dir: bool) -> (r: Result<WorkdirChoice, OBSCargoError>)
    ensures
        entries > 1 ==> r is Ok && r->Ok_0 is Whole,
        entries == 1 && only_entry_is_dir ==> r is Ok && r->Ok_0 is TopLevel,
        entries == 1 && !only_entry_is_dir ==> (r matches Err(e) && e.kind
            == OBSCargoErrorKind::VendorError),
        entries == 0 ==> (r matches Err(e) && e.kind == OBSCargoErrorKind::InternalInvariantBroken),
{
    if entries > 1 {
        Ok(WorkdirChoice::Whole)
    } else if entries == 1 {
        if only_entry_is_dir {
            Ok(WorkdirChoice::TopLevel)
        } else {
            Err(
                OBSCargoError::new(
                    OBSCargoErrorKind::VendorError,
                    String::from_str("No top-level directory found after tarball was extracted"),
                ),
            )
        }
    } else {
        Err(
            OBSCargoError::new(
                OBSCargoErrorKind::InternalInvariantBroken,
                String::from_str("the working directory is empty after unpacking"),
            ),
        )
    }
}

/// The project root: the set-up directory, or the custom root under it.
pub fn project_root(setup: &str, custom_root: Option<&str>) -> (r: String)
    ensures
        r@ == match custom_root {
            Some(c) => join_spec(setup@, c@),
            None => setup@,
        },
{
    match custom_root {
        Some(c) => join_path(setup, c),
        None => owned(setup),
    }
}

} // verus!
