//! Convenience conversions from [`Path`] and [`PathBuf`] to text

use vstd::prelude::*;
use std::path::Path;
use std::path::PathBuf;

verus! {

#[verifier::external_type_specification]
#[verifier::external_body]
pub struct ExPath(Path);

#[verifier::external_type_specification]
#[verifier::external_body]
pub struct ExPathBuf(PathBuf);

/// The text a path holds, when every byte of it is valid unicode; absent
/// otherwise. What `Path::to_str` returns.
pub uninterp spec fn path_text(p: &Path) -> Option<Seq<char>>;

/// The text a path converts to when bytes that are not valid unicode are
/// replaced with U+FFFD. What `Path::to_string_lossy` returns.
pub uninterp spec fn path_lossy_text(p: &Path) -> Seq<char>;

/// The text of the path a [`PathBuf`] holds, when it is valid unicode.
pub uninterp spec fn path_buf_text(p: &PathBuf) -> Option<Seq<char>>;

/// The lossy text of the path a [`PathBuf`] holds.
pub uninterp spec fn path_buf_lossy_text(p: &PathBuf) -> Seq<char>;

/// Relies on `std::path::Path::to_str`: it returns the path's text exactly
/// when the path is valid unicode, and nothing otherwise; a valid path's
/// text is also what the lossy conversion returns, since that conversion
/// replaces nothing in valid unicode. The result is a function of the path
/// value alone.
pub assume_specification[ Path::to_str ](p: &Path) -> (r: Option<&str>)
    ensures
        r is Some <==> path_text(p) is Some,
        r matches Some(s) ==> s@ == path_text(p)->0 && s@ == path_lossy_text(p),
;

/// Relies on `std::path::Path::to_string_lossy` (and on `Cow::to_string`,
/// which only turns the borrowed or owned result into an owned `String`):
/// any byte sequence that is not valid unicode is replaced with U+FFFD, so
/// the conversion is lossless exactly on valid unicode, and on anything else
/// the result carries at least one replacement character.
#[verifier::external_body]
fn lossy_string_of_path(p: &Path) -> (r: String)
    ensures
        r@ == path_lossy_text(p),
        path_text(p) matches Some(t) ==> r@ == t,
        path_text(p) is None ==> r@.contains('\u{FFFD}'),
{
    p.to_string_lossy().to_string()
}

/// Relies on `std::path::PathBuf::as_path`: it returns a borrow of exactly
/// the path the buffer holds, so both conversions agree between the two.
pub assume_specification[ PathBuf::as_path ](p: &PathBuf) -> (r: &Path)
    ensures
        path_text(r) == path_buf_text(p),
        path_lossy_text(r) == path_buf_lossy_text(p),
;

/// Convert a filesystem path to a text string: lossily, replacing what is
/// not valid unicode, or strictly, yielding nothing unless the whole path
/// is valid unicode.
pub trait PathToString {
    /// The path's text, when it is valid unicode; absent otherwise.
    spec fn strict_text(&self) -> Option<Seq<char>>;

    /// The path's text with everything not valid unicode replaced by U+FFFD.
    spec fn lossy_text(&self) -> Seq<char>;

    /// Converts the path into a lossy [`String`]. Always succeeds; on a
    /// valid-unicode path the conversion is lossless, and otherwise the
    /// result carries at least one U+FFFD replacement character.
    fn to_lossy_string(&self) -> (r: String)
        ensures
            r@ == self.lossy_text(),
            self.strict_text() matches Some(t) ==> r@ == t,
            self.strict_text() is None ==> r@.contains('\u{FFFD}'),
    ;

    /// Yields a [`String`] exactly when the path is valid unicode: a
    /// faithful copy of its text, equal to what the lossy conversion
    /// returns. Yields nothing otherwise.
    fn to_string(&self) -> (r: Option<String>)
        ensures
            r is Some <==> self.strict_text() is Some,
            r matches Some(s) ==> s@ == self.strict_text()->0 && s@ == self.lossy_text(),
    ;
}

impl PathToString for Path {
    open spec fn strict_text(&self) -> Option<Seq<char>> {
        path_text(self)
    }

    open spec fn lossy_text(&self) -> Seq<char> {
        path_lossy_text(self)
    }

    /// Converts a [`Path`] into a lossy [`String`].
    #[inline]
    fn to_lossy_string(&self) -> (r: String)
        ensures
            r@ == path_lossy_text(self),
            path_text(self) matches Some(t) ==> r@ == t,
            path_text(self) is None ==> r@.contains('\u{FFFD}'),
    {
        lossy_string_of_path(self)
    }

    /// Yields a [`String`] if the [`Path`] is valid unicode.
    #[inline]
    fn to_string(&self) -> (r: Option<String>)
        ensures
            r is Some <==> path_text(self) is Some,
            r matches Some(s) ==> s@ == path_text(self)->0 && s@ == path_lossy_text(self),
    {
        match self.to_str() {
            Some(s) => Some(s.to_string()),
            None => None,
        }
    }
}

impl PathToString for PathBuf {
    open spec fn strict_text(&self) -> Option<Seq<char>> {
        path_buf_text(self)
    }

    open spec fn lossy_text(&self) -> Seq<char> {
        path_buf_lossy_text(self)
    }

    /// Converts a [`PathBuf`] into a lossy [`String`].
    #[inline]
    fn to_lossy_string(&self) -> (r: String)
        ensures
            r@ == path_buf_lossy_text(self),
            path_buf_text(self) matches Some(t) ==> r@ == t,
            path_buf_text(self) is None ==> r@.contains('\u{FFFD}'),
    {
        lossy_string_of_path(self.as_path())
    }

    /// Yields a [`String`] if the [`PathBuf`] is valid unicode.
    #[inline]
    fn to_string(&self) -> (r: Option<String>)
        ensures
            r is Some <==> path_buf_text(self) is Some,
            r matches Some(s) ==> s@ == path_buf_text(self)->0 && s@ == path_buf_lossy_text(self),
    {
        match self.as_path().to_str() {
            Some(s) => Some(s.to_string()),
            None => None,
        }
    }
}

} // verus!
