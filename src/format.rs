use vstd::prelude::*;

use crate::text::same_text;

verus! {

/// The two container kinds a file can use.
#[derive(Debug, Clone, Copy, PartialEq, Eq, Structural)]
pub enum FileFormat {
    /// Row-group-oriented on-disk columnar files.
    Parquet,
    /// Batch-oriented interchange (IPC) files.
    Arrow,
}

/// The extension of a path, as `std::path::Path::extension` finds it.
pub uninterp spec fn extension_of(path: Seq<char>) -> Option<Seq<char>>;

/// The lower-case form of a text, as `str::to_lowercase` gives it.
pub uninterp spec fn lower_of(s: Seq<char>) -> Seq<char>;

/// Which container kind a lower-case extension designates, if any.
pub open spec fn extension_format(ext: Seq<char>) -> Option<FileFormat> {
    if ext == "parquet"@ {
        Some(FileFormat::Parquet)
    } else if ext == "arrow"@ || ext == "arrows"@ || ext == "ipc"@ || ext == "feather"@ {
        Some(FileFormat::Arrow)
    } else {
        None
    }
}

/// The container kind that a path's extension designates, if any.
pub open spec fn path_format(path: Seq<char>) -> Option<FileFormat> {
    match extension_of(path) {
        Some(ext) => extension_format(lower_of(ext)),
        None => None,
    }
}

/// The leading signature of row-group files.
pub open spec fn parquet_magic() -> Seq<u8> {
    seq![0x50u8, 0x41u8, 0x52u8, 0x31u8]
}

/// The first four bytes of the signature of interchange files.
pub open spec fn arrow_magic() -> Seq<u8> {
    seq![0x41u8, 0x52u8, 0x52u8, 0x4Fu8]
}

/// The container kind that the first bytes of a file designate; an
/// unknown signature falls back to the row-group format.
pub open spec fn magic_format(bytes: Seq<u8>) -> FileFormat {
    if bytes.len() >= 4 && bytes.subrange(0, 4) == arrow_magic() {
        FileFormat::Arrow
    } else {
        FileFormat::Parquet
    }
}

/// Whether `bytes` begins the way every well-formed file of `format` begins.
pub open spec fn well_formed_prefix(format: FileFormat, bytes: Seq<u8>) -> bool {
    bytes.len() >= 4 && match format {
        FileFormat::Parquet => bytes.subrange(0, 4) == parquet_magic(),
        FileFormat::Arrow => bytes.subrange(0, 4) == arrow_magic(),
    }
}

/// Relies on `std::path::Path::extension`: the extension of a UTF-8 path
/// is a part of it, so it converts back to text.
#[verifier::external_body]
fn path_extension(path: &str) -> (r: Option<String>)
    ensures
        match r {
            Some(e) => extension_of(path@) == Some(e@),
            None => extension_of(path@) is None,
        },
{
    std::path::Path::new(path).extension().and_then(|e| e.to_str()).map(|e| e.to_string())
}

/// Relies on `str::to_lowercase`: the result depends on the characters alone.
#[verifier::external_body]
fn lowercase(s: &str) -> (r: String)
    ensures
        r@ == lower_of(s@),
{
    s.to_lowercase()
}

/// Classifies an extension that is already in lower case.
pub fn format_for_lowered_extension(ext: &str) -> (r: Option<FileFormat>)
    ensures
        r == extension_format(ext@),
{
    proof {
        reveal_strlit("parquet");
        reveal_strlit("arrow");
        reveal_strlit("arrows");
        reveal_strlit("ipc");
        reveal_strlit("feather");
    }
    if same_text(ext, "parquet") {
        Some(FileFormat::Parquet)
    } else if same_text(ext, "arrow") || same_text(ext, "arrows") || same_text(ext, "ipc")
        || same_text(ext, "feather") {
        Some(FileFormat::Arrow)
    } else {
        None
    }
}

/// Classifies a file by its extension, compared without regard to case.
pub fn format_by_extension(path: &str) -> (r: Option<FileFormat>)
    ensures
        r == path_format(path@),
{
    match path_extension(path) {
        Some(ext) => {
            let lowered = lowercase(ext.as_str());
            format_for_lowered_extension(lowered.as_str())
        },
        None => None,
    }
}

/// Classifies a file by its first bytes; without a known signature the
/// row-group format is assumed.
pub fn format_by_magic(bytes: &[u8]) -> (r: FileFormat)
    ensures
        r == magic_format(bytes@),
{
    if bytes.len() >= 4 && bytes[0] == 0x41u8 && bytes[1] == 0x52u8 && bytes[2] == 0x52u8
        && bytes[3] == 0x4Fu8 {
        assert(bytes@.subrange(0, 4) =~= arrow_magic());
        FileFormat::Arrow
    } else {
        assert(bytes@.len() >= 4 ==> bytes@.subrange(0, 4) != arrow_magic()) by {
            if bytes@.len() >= 4 && bytes@.subrange(0, 4) == arrow_magic() {
                assert(bytes@.subrange(0, 4)[0] == bytes@[0]);
                assert(bytes@.subrange(0, 4)[1] == bytes@[1]);
                assert(bytes@.subrange(0, 4)[2] == bytes@[2]);
                assert(bytes@.subrange(0, 4)[3] == bytes@[3]);
            }
        }
        FileFormat::Parquet
    }
}

/// For a well-formed file whose extension names its format, detection by
/// extension and detection by signature give the same format.
pub proof fn lemma_detection_agrees(path: Seq<char>, bytes: Seq<u8>, format: FileFormat)
    requires
        path_format(path) == Some(format),
        well_formed_prefix(format, bytes),
    ensures
        magic_format(bytes) == format,
        path_format(path) == Some(magic_format(bytes)),
{
    if format == FileFormat::Parquet {
        assert(parquet_magic()[0] != arrow_magic()[0]);
    }
}

} // verus!
