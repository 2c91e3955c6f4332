//! What the library asks of a path. A path is opaque to the proofs: only
//! `std::path` knows where its file name and its extension lie. What it
//! finds there has a name here, and the contracts speak of the names.

use crate::text::text_of;
use vstd::prelude::*;

verus! {

/// `std::path::PathBuf`, which the library hands on and gives to
/// `std::path`.
#[verifier::external_type_specification]
#[verifier::external_body]
pub struct ExPathBuf(std::path::PathBuf);

/// The extension of a path, as `Path::extension` finds it and
/// `OsStr::to_string_lossy` decodes it.
pub uninterp spec fn extension_of(path: std::path::PathBuf) -> Option<Seq<char>>;

/// The path that `PathBuf::set_extension` makes of a path and an
/// extension.
pub uninterp spec fn with_extension(
    path: std::path::PathBuf,
    extension: Seq<char>,
) -> std::path::PathBuf;

/// The file name of a path, as `Path::file_name` finds it and
/// `OsStr::to_string_lossy` decodes it.
pub uninterp spec fn file_name_of(path: std::path::PathBuf) -> Option<Seq<char>>;

/// `Path::extension`: the part of the path's file name behind its last dot,
/// if the file name has one that is not its first character. Bytes of it
/// that are not text come back as U+FFFD. The result is a matter of the
/// path alone, and goes by the name `extension_of`.
#[verifier::external_body]
pub(crate) fn extension(path: &std::path::PathBuf) -> (r: Option<String>)
    ensures
        text_of(r) == extension_of(*path),
{
    path.extension().map(|ext| ext.to_string_lossy().into_owned())
}

/// `PathBuf::set_extension`: puts `extension` in the place of the path's
/// extension, or behind its file name if it has none; a path without a file
/// name stays as it is. It panics on an extension that holds a path
/// separator, so those are left out. The new path is a matter of the old
/// one and of the extension alone, and goes by the name `with_extension`.
#[verifier::external_body]
pub(crate) fn set_extension(path: &mut std::path::PathBuf, extension: &str)
    requires
        !extension@.contains('/'),
        !extension@.contains('\\'),
    ensures
        *final(path) == with_extension(*old(path), extension@),
{
    path.set_extension(extension);
}

/// `Path::file_name`: the last component of the path, if it is the name of a
/// file or directory. Bytes of it that are not text come back as U+FFFD.
/// The result is a matter of the path alone, and goes by the name
/// `file_name_of`.
#[verifier::external_body]
pub(crate) fn file_name(path: &std::path::PathBuf) -> (r: Option<String>)
    ensures
        text_of(r) == file_name_of(*path),
{
    path.file_name().map(|name| name.to_string_lossy().into_owned())
}

} // verus!
