//! UTF-8 paths and the few operations on them that the rest of the crate needs.
//!
//! Paths are `camino::Utf8PathBuf` values. They are reasoned about through
//! their sequence of components; what camino computes is trusted, what is
//! built on top of it is proved.

use crate::text::wrap_text;
use camino::Utf8PathBuf;
use vstd::prelude::*;

pub use crate::roots::remove_nested;

verus! {

/// `camino::Utf8PathBuf`, an owned path that is valid UTF-8. Nothing of its
/// inside is known here but what the functions below say.
#[verifier::external_type_specification]
#[verifier::external_body]
pub struct ExUtf8PathBuf(Utf8PathBuf);

/// The components of a path, in order, as `Utf8Path::components` yields them.
/// Two paths have the same components exactly when camino's `==` holds of
/// them.
pub uninterp spec fn components(path: Utf8PathBuf) -> Seq<Seq<char>>;

/// The components of the path that is written as `text`.
pub uninterp spec fn parsed(text: Seq<char>) -> Seq<Seq<char>>;

/// The components of `base.join(tail)`, given those of `base` and `tail`.
pub uninterp spec fn joined(base: Seq<Seq<char>>, tail: Seq<Seq<char>>) -> Seq<Seq<char>>;

/// Whether a path with these components has a parent, that is, whether its
/// last component can be popped.
pub uninterp spec fn has_parent(parts: Seq<Seq<char>>) -> bool;

/// Whether a path with these components is absolute.
pub uninterp spec fn absolute(parts: Seq<Seq<char>>) -> bool;

/// The extension of the file name of a path with these components.
pub uninterp spec fn extension_of(parts: Seq<Seq<char>>) -> Option<Seq<char>>;

/// The components of `path.with_extension(ext)`, given those of `path`.
pub uninterp spec fn extended(parts: Seq<Seq<char>>, ext: Seq<char>) -> Seq<Seq<char>>;

/// The text of a path, as `Utf8Path::as_str` gives it.
pub uninterp spec fn written(path: Utf8PathBuf) -> Seq<char>;

/// A text between double quotes.
pub open spec fn quoted_text(text: Seq<char>) -> Seq<char> {
    "\""@ + text + "\""@
}

/// The text holds no path separator.
pub open spec fn plain(text: Seq<char>) -> bool {
    forall|i: int| 0 <= i < text.len() ==> text[i] != '/' && text[i] != '\\'
}

/// `base` is `path` itself or one of its ancestors.
pub open spec fn is_under(path: Utf8PathBuf, base: Utf8PathBuf) -> bool {
    components(base).is_prefix_of(components(path))
}

/// One of the two paths lies under the other.
pub open spec fn related(a: Utf8PathBuf, b: Utf8PathBuf) -> bool {
    is_under(a, b) || is_under(b, a)
}

/// Some path of the list has the same components as `path`.
pub open spec fn listed(paths: Seq<Utf8PathBuf>, path: Utf8PathBuf) -> bool {
    exists|i: int| 0 <= i < paths.len() && components(#[trigger] paths[i]) == components(path)
}

/// `Clone` of `Utf8PathBuf`, which copies the path.
pub assume_specification[ <Utf8PathBuf as Clone>::clone ](path: &Utf8PathBuf) -> (r: Utf8PathBuf)
    ensures
        r == *path,
;

/// `==` on `Utf8PathBuf`, which camino decides by comparing the components.
#[verifier::external_body]
pub(crate) fn same_path(a: &Utf8PathBuf, b: &Utf8PathBuf) -> (r: bool)
    ensures
        r == (components(*a) == components(*b)),
{
    a == b
}

/// `Utf8Path::starts_with`: whether `base` is a prefix of `path`, whole
/// components only.
#[verifier::external_body]
pub(crate) fn starts_with(path: &Utf8PathBuf, base: &Utf8PathBuf) -> (r: bool)
    ensures
        r == components(*base).is_prefix_of(components(*path)),
{
    path.starts_with(base)
}

/// The number of components that `Utf8Path::components` yields.
#[verifier::external_body]
pub(crate) fn component_count(path: &Utf8PathBuf) -> (r: usize)
    ensures
        r == components(*path).len(),
{
    path.components().count()
}

/// The path collected from the components of `path` after its first `n`.
#[verifier::external_body]
pub(crate) fn skip_components(path: &Utf8PathBuf, n: usize) -> (r: Utf8PathBuf)
    requires
        n <= components(*path).len(),
    ensures
        components(r) == components(*path).skip(n as int),
{
    path.components().skip(n).collect()
}

/// `Utf8Path::join`: `tail` adjoined to `base`.
#[verifier::external_body]
pub(crate) fn join(base: &Utf8PathBuf, tail: &Utf8PathBuf) -> (r: Utf8PathBuf)
    ensures
        components(r) == joined(components(*base), components(*tail)),
{
    base.join(tail)
}

/// `Utf8PathBuf::from`: the path written as `text`.
#[verifier::external_body]
pub(crate) fn path_from(text: &str) -> (r: Utf8PathBuf)
    ensures
        components(r) == parsed(text@),
{
    Utf8PathBuf::from(text)
}

/// `Utf8PathBuf::pop`: truncates the path to its parent and returns `true`,
/// or returns `false` and leaves the path as it is when it has no parent.
/// A path without components has no parent.
#[verifier::external_body]
pub(crate) fn pop(path: &mut Utf8PathBuf) -> (r: bool)
    ensures
        r == has_parent(components(*old(path))),
        r ==> components(*old(path)).len() > 0,
        components(*final(path)) == if r {
            components(*old(path)).drop_last()
        } else {
            components(*old(path))
        },
{
    path.pop()
}

/// `Utf8Path::is_absolute`.
#[verifier::external_body]
pub(crate) fn is_absolute(path: &Utf8PathBuf) -> (r: bool)
    ensures
        r == absolute(components(*path)),
{
    path.is_absolute()
}

/// `Utf8Path::extension`: the part of the file name after its last dot.
#[verifier::external_body]
pub(crate) fn extension(path: &Utf8PathBuf) -> (r: Option<&str>)
    ensures
        match r {
            Some(text) => extension_of(components(*path)) == Some(text@),
            None => extension_of(components(*path)) is None,
        },
{
    path.extension()
}

/// `Utf8Path::with_extension`: the path with the extension of its file name
/// set to `ext`, which must not hold a path separator.
#[verifier::external_body]
pub(crate) fn with_extension(path: &Utf8PathBuf, ext: &str) -> (r: Utf8PathBuf)
    requires
        plain(ext@),
    ensures
        components(r) == extended(components(*path), ext@),
{
    path.with_extension(ext)
}

/// `Utf8Path::as_str`, as an owned text.
#[verifier::external_body]
pub(crate) fn path_text(path: &Utf8PathBuf) -> (r: String)
    ensures
        r@ == written(*path),
{
    path.as_str().to_string()
}

/// The text of a path between double quotes.
pub fn quoted(path: &Utf8PathBuf) -> (r: String)
    ensures
        r@ == quoted_text(written(*path)),
{
    wrap_text("\"", path_text(path).as_str(), "\"")
}

/// Why a base could not be removed from a path.
#[derive(Clone, Copy, Debug, PartialEq, Eq, Structural)]
pub enum PathErrorKind {
    /// The path and the base part ways before the base ends.
    BaseMismatch,
    /// The base goes on where the path has ended.
    BaseLonger,
}

/// A base that could not be removed from a path.
#[derive(Clone, Debug, PartialEq, Eq)]
pub struct PathError {
    pub kind: PathErrorKind,
    pub path: Utf8PathBuf,
    pub base: Utf8PathBuf,
}

/// The text that tells of a base that could not be removed from a path,
/// given the texts of the two.
pub open spec fn path_fault_text(kind: PathErrorKind, path: Seq<char>, base: Seq<char>) -> Seq<
    char,
> {
    "Cannot remove base "@ + quoted_text(base) + " from "@ + quoted_text(path) + match kind {
        PathErrorKind::BaseMismatch => " because base doesn't match"@,
        PathErrorKind::BaseLonger => " because base is longer"@,
    }
}

impl PathError {
    /// The text that tells a user what went wrong.
    pub fn message(&self) -> (r: String)
        ensures
            r@ == path_fault_text(self.kind, written(self.path), written(self.base)),
    {
        let mut out = String::from_str("Cannot remove base ");
        out.append(quoted(&self.base).as_str());
        out.append(" from ");
        out.append(quoted(&self.path).as_str());
        match self.kind {
            PathErrorKind::BaseMismatch => out.append(" because base doesn't match"),
            PathErrorKind::BaseLonger => out.append(" because base is longer"),
        }
        out
    }
}

/// What is left of `path` once the components of `base` are taken from its
/// front.
pub open spec fn unbased(path: Seq<Seq<char>>, base: Seq<Seq<char>>) -> Result<
    Seq<Seq<char>>,
    PathErrorKind,
> {
    if base.is_prefix_of(path) {
        Ok(path.skip(base.len() as int))
    } else if path.is_prefix_of(base) {
        Err(PathErrorKind::BaseLonger)
    } else {
        Err(PathErrorKind::BaseMismatch)
    }
}

/// `path` moved from under `src_root` to under `dest_root`.
pub open spec fn rebased(
    path: Seq<Seq<char>>,
    src_root: Seq<Seq<char>>,
    dest_root: Seq<Seq<char>>,
) -> Result<Seq<Seq<char>>, PathErrorKind> {
    match unbased(path, src_root) {
        Ok(rest) => Ok(joined(dest_root, rest)),
        Err(kind) => Err(kind),
    }
}

/// The path relative to `root`, for an absolute path under `root`.
pub open spec fn relative(path: Seq<Seq<char>>, root: Seq<Seq<char>>) -> Option<Seq<Seq<char>>> {
    if absolute(path) && root.is_prefix_of(path) {
        Some(path.skip(root.len() as int))
    } else {
        None
    }
}

/// The components left when the last one is dropped, where the path has a
/// parent; else all of them.
pub open spec fn without_last_parts(parts: Seq<Seq<char>>) -> Seq<Seq<char>> {
    if has_parent(parts) {
        parts.drop_last()
    } else {
        parts
    }
}

/// What a path can do beyond what camino offers.
pub trait PathExt: Sized {
    /// The components of this path.
    spec fn parts(&self) -> Seq<Seq<char>>;

    /// Converts this absolute path to a relative one if its start matches.
    fn relative_to(&self, to: &Utf8PathBuf) -> (r: Option<Utf8PathBuf>)
        ensures
            match r {
                Some(rest) => relative(self.parts(), components(*to)) == Some(components(rest)),
                None => relative(self.parts(), components(*to)) is None,
            },
    ;

    /// Removes `src_root` from the path and puts `dest_root` in its place.
    fn rebase(&self, src_root: &Utf8PathBuf, dest_root: &Utf8PathBuf) -> (r: Result<
        Utf8PathBuf,
        PathError,
    >)
        ensures
            match r {
                Ok(moved) => rebased(self.parts(), components(*src_root), components(*dest_root))
                    == Ok::<Seq<Seq<char>>, PathErrorKind>(components(moved)),
                Err(error) => rebased(self.parts(), components(*src_root), components(*dest_root))
                    == Err::<Seq<Seq<char>>, PathErrorKind>(error.kind)
                    && components(error.path) == self.parts() && error.base == *src_root,
            },
    ;

    /// Removes `base` from the front of the path, making sure they match.
    fn unbase(&self, base: &Utf8PathBuf) -> (r: Result<Utf8PathBuf, PathError>)
        ensures
            match r {
                Ok(rest) => unbased(self.parts(), components(*base)) == Ok::<
                    Seq<Seq<char>>,
                    PathErrorKind,
                >(components(rest)),
                Err(error) => unbased(self.parts(), components(*base)) == Err::<
                    Seq<Seq<char>>,
                    PathErrorKind,
                >(error.kind) && components(error.path) == self.parts() && error.base == *base,
            },
    ;
}

/// What an owned path can do beyond what camino offers.
pub trait PathBufExt: PathExt {
    /// Drops the last component of the path, if it has a parent.
    fn without_last(self) -> (r: Self)
        ensures
            r.parts() == without_last_parts(self.parts()),
    ;
}

impl PathExt for Utf8PathBuf {
    open spec fn parts(&self) -> Seq<Seq<char>> {
        components(*self)
    }

    fn relative_to(&self, to: &Utf8PathBuf) -> (r: Option<Utf8PathBuf>) {
        if is_absolute(self) && starts_with(self, to) {
            let len = component_count(to);
            Some(skip_components(self, len))
        } else {
            None
        }
    }

    fn rebase(&self, src_root: &Utf8PathBuf, dest_root: &Utf8PathBuf) -> (r: Result<
        Utf8PathBuf,
        PathError,
    >) {
        match self.unbase(src_root) {
            Ok(rest) => Ok(join(dest_root, &rest)),
            Err(error) => Err(error),
        }
    }

    fn unbase(&self, base: &Utf8PathBuf) -> (r: Result<Utf8PathBuf, PathError>) {
        if starts_with(self, base) {
            let len = component_count(base);
            Ok(skip_components(self, len))
        } else if starts_with(base, self) {
            Err(
                PathError {
                    kind: PathErrorKind::BaseLonger,
                    path: self.clone(),
                    base: base.clone(),
                },
            )
        } else {
            Err(
                PathError {
                    kind: PathErrorKind::BaseMismatch,
                    path: self.clone(),
                    base: base.clone(),
                },
            )
        }
    }
}

impl PathBufExt for Utf8PathBuf {
    fn without_last(self) -> (r: Self) {
        let mut path = self;
        let _ = pop(&mut path);
        path
    }
}

} // verus!
