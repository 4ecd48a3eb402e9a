//! File-system notifications, the changes they stand for, and where each
//! change is sent.

use crate::bus::Msg;
use crate::path::{
    absolute, components, extension, extension_of, is_absolute, is_under, parsed, path_from,
    quoted, quoted_text, starts_with, written,
};
use crate::roots::{in_scope, nested_free, reduce_roots, remove_nested};
use crate::text::{lowercase, pair_text, same_text, to_lowercase};
use camino::Utf8PathBuf;
use vstd::prelude::*;
use vstd::utf8::{decode_utf8, valid_utf8};

verus! {

/// A debounced notification of the file-system watcher. A path is held as
/// the bytes that the operating system gave.
#[derive(Clone, Debug, PartialEq, Eq)]
pub enum RawEvent {
    /// A write was seen; the `Write` follows when the path has gone quiet.
    NoticeWrite(Vec<u8>),
    /// A removal was seen; the `Remove` follows when it is settled.
    NoticeRemove(Vec<u8>),
    Create(Vec<u8>),
    Write(Vec<u8>),
    /// Only the permissions or other metadata changed.
    Chmod(Vec<u8>),
    Remove(Vec<u8>),
    Rename(Vec<u8>, Vec<u8>),
    /// Notifications were lost: what is on disk must be read again.
    Rescan,
    /// The watcher failed, for this path if it names one.
    Error(Option<Vec<u8>>),
}

/// A change to a watched file or directory.
#[derive(Clone, Debug, PartialEq, Eq)]
pub enum Watched {
    Remove(Utf8PathBuf),
    Rename(Utf8PathBuf, Utf8PathBuf),
    Write(Utf8PathBuf),
    Create(Utf8PathBuf),
    Rescan,
}

/// The view of a `Watched`: the same variants over the paths' components.
pub enum Change {
    Remove(Seq<Seq<char>>),
    Rename(Seq<Seq<char>>, Seq<Seq<char>>),
    Write(Seq<Seq<char>>),
    Create(Seq<Seq<char>>),
    Rescan,
}

/// Why a notification names no usable path.
#[derive(Clone, Debug, PartialEq, Eq)]
pub enum ClassifyError {
    /// The path is not valid UTF-8; these are its bytes.
    NotUtf8(Vec<u8>),
    /// The path is not absolute.
    NotAbsolute(Utf8PathBuf),
}

/// The view of a `ClassifyError`.
pub enum ClassifyFault {
    NotUtf8(Seq<u8>),
    NotAbsolute(Seq<Seq<char>>),
}

impl View for Watched {
    type V = Change;

    open spec fn view(&self) -> Change {
        match self {
            Watched::Remove(p) => Change::Remove(components(*p)),
            Watched::Rename(from, to) => Change::Rename(components(*from), components(*to)),
            Watched::Write(p) => Change::Write(components(*p)),
            Watched::Create(p) => Change::Create(components(*p)),
            Watched::Rescan => Change::Rescan,
        }
    }
}

impl View for ClassifyError {
    type V = ClassifyFault;

    open spec fn view(&self) -> ClassifyFault {
        match self {
            ClassifyError::NotUtf8(bytes) => ClassifyFault::NotUtf8(bytes@),
            ClassifyError::NotAbsolute(path) => ClassifyFault::NotAbsolute(components(*path)),
        }
    }
}

/// The path that the bytes spell, if they spell an absolute one.
pub open spec fn path_of_bytes(bytes: Seq<u8>) -> Result<Seq<Seq<char>>, ClassifyFault> {
    if !valid_utf8(bytes) {
        Err(ClassifyFault::NotUtf8(bytes))
    } else if !absolute(parsed(decode_utf8(bytes))) {
        Err(ClassifyFault::NotAbsolute(parsed(decode_utf8(bytes))))
    } else {
        Ok(parsed(decode_utf8(bytes)))
    }
}

/// The change that a notification stands for.
///
/// Notices and metadata changes stand for none. A lost notification and a
/// failure of the watcher both mean that what is on disk must be read again.
pub open spec fn change_of(event: RawEvent) -> Result<Option<Change>, ClassifyFault> {
    match event {
        RawEvent::Chmod(_) | RawEvent::NoticeRemove(_) | RawEvent::NoticeWrite(_) => Ok(None),
        RawEvent::Create(bytes) => match path_of_bytes(bytes@) {
            Ok(path) => Ok(Some(Change::Create(path))),
            Err(fault) => Err(fault),
        },
        RawEvent::Remove(bytes) => match path_of_bytes(bytes@) {
            Ok(path) => Ok(Some(Change::Remove(path))),
            Err(fault) => Err(fault),
        },
        RawEvent::Write(bytes) => match path_of_bytes(bytes@) {
            Ok(path) => Ok(Some(Change::Write(path))),
            Err(fault) => Err(fault),
        },
        RawEvent::Rename(from, to) => match path_of_bytes(from@) {
            Ok(from_path) => match path_of_bytes(to@) {
                Ok(to_path) => Ok(Some(Change::Rename(from_path, to_path))),
                Err(fault) => Err(fault),
            },
            Err(fault) => Err(fault),
        },
        RawEvent::Rescan | RawEvent::Error(_) => Ok(Some(Change::Rescan)),
    }
}

/// `String::from_utf8`: the text that the bytes encode, or the bytes back
/// when they are not valid UTF-8.
#[verifier::external_body]
pub(crate) fn text_from_utf8(bytes: Vec<u8>) -> (r: Result<String, Vec<u8>>)
    ensures
        match r {
            Ok(text) => valid_utf8(bytes@) && text@ == decode_utf8(bytes@),
            Err(given) => !valid_utf8(bytes@) && given@ == bytes@,
        },
{
    match String::from_utf8(bytes) {
        Ok(text) => Ok(text),
        Err(error) => Err(error.into_bytes()),
    }
}

/// Turns the bytes of a path into a path, which must be valid UTF-8 and
/// absolute.
pub fn convert(bytes: Vec<u8>) -> (r: Result<Utf8PathBuf, ClassifyError>)
    ensures
        match r {
            Ok(path) => path_of_bytes(bytes@) == Ok::<Seq<Seq<char>>, ClassifyFault>(
                components(path),
            ),
            Err(error) => path_of_bytes(bytes@) == Err::<Seq<Seq<char>>, ClassifyFault>(error@),
        },
{
    match text_from_utf8(bytes) {
        Ok(text) => {
            let path = path_from(text.as_str());
            if is_absolute(&path) {
                Ok(path)
            } else {
                Err(ClassifyError::NotAbsolute(path))
            }
        },
        Err(given) => Err(ClassifyError::NotUtf8(given)),
    }
}

impl Watched {
    /// Every path that the change carries is absolute.
    pub open spec fn wf(&self) -> bool {
        match self {
            Watched::Remove(p) | Watched::Write(p) | Watched::Create(p) => absolute(
                components(*p),
            ),
            Watched::Rename(from, to) => absolute(components(*from)) && absolute(
                components(*to),
            ),
            Watched::Rescan => true,
        }
    }

    /// A copy of the change.
    pub fn duplicate(&self) -> (r: Watched)
        ensures
            r == *self,
    {
        match self {
            Watched::Remove(p) => Watched::Remove(p.clone()),
            Watched::Rename(from, to) => Watched::Rename(from.clone(), to.clone()),
            Watched::Write(p) => Watched::Write(p.clone()),
            Watched::Create(p) => Watched::Create(p.clone()),
            Watched::Rescan => Watched::Rescan,
        }
    }

    /// The change in words: what was done, and to which path.
    pub open spec fn described(&self) -> Seq<char> {
        match self {
            Watched::Create(p) => "create "@ + quoted_text(written(*p)),
            Watched::Remove(p) => "remove "@ + quoted_text(written(*p)),
            Watched::Write(p) => "write "@ + quoted_text(written(*p)),
            Watched::Rename(from, to) => "rename "@ + quoted_text(written(*from)) + " -> "@
                + quoted_text(written(*to)),
            Watched::Rescan => "rescan"@,
        }
    }

    /// The change in words, for a log.
    pub fn describe(&self) -> (r: String)
        ensures
            r@ == self.described(),
    {
        match self {
            Watched::Create(p) => pair_text("create ", quoted(p).as_str()),
            Watched::Remove(p) => pair_text("remove ", quoted(p).as_str()),
            Watched::Write(p) => pair_text("write ", quoted(p).as_str()),
            Watched::Rename(from, to) => {
                let mut out = String::from_str("rename ");
                out.append(quoted(from).as_str());
                out.append(" -> ");
                out.append(quoted(to).as_str());
                out
            },
            Watched::Rescan => String::from_str("rescan"),
        }
    }

    /// The change that a notification of the watcher stands for, if any.
    pub fn try_new(event: RawEvent) -> (r: Result<Option<Watched>, ClassifyError>)
        ensures
            match r {
                Ok(Some(watched)) => change_of(event) == Ok::<Option<Change>, ClassifyFault>(
                    Some(watched@),
                ) && watched.wf(),
                Ok(None) => change_of(event) == Ok::<Option<Change>, ClassifyFault>(None),
                Err(error) => change_of(event) == Err::<Option<Change>, ClassifyFault>(error@),
            },
            event is Chmod || event is NoticeWrite || event is NoticeRemove ==> r matches Ok(None),
    {
        match event {
            RawEvent::Chmod(_) | RawEvent::NoticeRemove(_) | RawEvent::NoticeWrite(_) => Ok(None),
            RawEvent::Create(bytes) => match convert(bytes) {
                Ok(path) => Ok(Some(Watched::Create(path))),
                Err(error) => Err(error),
            },
            RawEvent::Remove(bytes) => match convert(bytes) {
                Ok(path) => Ok(Some(Watched::Remove(path))),
                Err(error) => Err(error),
            },
            RawEvent::Rename(from, to) => match convert(from) {
                Ok(from_path) => match convert(to) {
                    Ok(to_path) => Ok(Some(Watched::Rename(from_path, to_path))),
                    Err(error) => Err(error),
                },
                Err(error) => Err(error),
            },
            RawEvent::Write(bytes) => match convert(bytes) {
                Ok(path) => Ok(Some(Watched::Write(path))),
                Err(error) => Err(error),
            },
            RawEvent::Rescan | RawEvent::Error(_) => Ok(Some(Watched::Rescan)),
        }
    }

    /// The path that the change is about; for a rename, the old one.
    pub open spec fn spec_path(&self) -> Option<Utf8PathBuf> {
        match self {
            Watched::Remove(p)
            | Watched::Rename(p, _)
            | Watched::Write(p)
            | Watched::Create(p) => Some(*p),
            Watched::Rescan => None,
        }
    }

    /// Some path of the change lies under `base`.
    pub open spec fn touches(&self, base: Utf8PathBuf) -> bool {
        match self {
            Watched::Write(p) | Watched::Create(p) | Watched::Remove(p) => is_under(*p, base),
            Watched::Rename(from, to) => is_under(*from, base) || is_under(*to, base),
            Watched::Rescan => false,
        }
    }

    /// The extension of the file that the change is about.
    pub open spec fn spec_path_ext(&self) -> Option<Seq<char>> {
        match self.spec_path() {
            Some(p) => extension_of(components(p)),
            None => None,
        }
    }

    /// The extension of the file that the change is about.
    pub fn path_ext(&self) -> (r: Option<&str>)
        ensures
            match r {
                Some(text) => self.spec_path_ext() == Some(text@),
                None => self.spec_path_ext() is None,
            },
    {
        match self.path() {
            Some(p) => extension(p),
            None => None,
        }
    }

    /// The path that the change is about; for a rename, the old one.
    pub fn path(&self) -> (r: Option<&Utf8PathBuf>)
        ensures
            match r {
                Some(p) => self.spec_path() == Some(*p),
                None => self.spec_path() is None,
            },
    {
        match self {
            Watched::Remove(p)
            | Watched::Rename(p, _)
            | Watched::Write(p)
            | Watched::Create(p) => Some(p),
            Watched::Rescan => None,
        }
    }

    /// Whether a path of the change lies under `path`; for a rename, the old
    /// one or the new one.
    pub fn path_starts_with(&self, path: &Utf8PathBuf) -> (r: bool)
        ensures
            r == self.touches(*path),
    {
        match self {
            Watched::Write(p) | Watched::Create(p) | Watched::Remove(p) => starts_with(p, path),
            Watched::Rename(from, to) => starts_with(from, path) || starts_with(to, path),
            Watched::Rescan => false,
        }
    }
}

/// Where a change is sent.
#[derive(Clone, Copy, Debug, PartialEq, Eq, Structural)]
pub enum Route {
    /// To the asset synchronizer.
    Assets,
    /// To whoever rebuilds on a change of source code.
    Source,
    /// To whoever rebuilds on a change of a style sheet.
    Style,
    /// Nowhere: the change is dropped.
    Nowhere,
}

/// A lower-case extension that marks a style sheet.
pub open spec fn style_text(lowered: Seq<char>) -> bool {
    lowered == "scss"@ || lowered == "sass"@ || lowered == "css"@
}

/// Where the extension of a file sends a change: `rs` is source code, and
/// `scss`, `sass` and `css` in any case are style sheets.
pub open spec fn extension_route(ext: Seq<char>) -> Route {
    if ext == "rs"@ {
        Route::Source
    } else if style_text(lowercase(ext)) {
        Route::Style
    } else {
        Route::Nowhere
    }
}

/// `path` lies under one of the excluded paths.
pub open spec fn excluded(exclude: Seq<Utf8PathBuf>, path: Utf8PathBuf) -> bool {
    exists|i: int| 0 <= i < exclude.len() && is_under(path, #[trigger] exclude[i])
}

/// Where a change is sent: nowhere if its path is excluded; else to the
/// asset synchronizer if it touches the assets root; else by its extension.
pub open spec fn route_of(
    watched: Watched,
    exclude: Seq<Utf8PathBuf>,
    assets_dir: Option<Utf8PathBuf>,
) -> Route {
    if watched.spec_path() is Some && excluded(exclude, watched.spec_path()->0) {
        Route::Nowhere
    } else if assets_dir is Some && watched.touches(assets_dir->0) {
        Route::Assets
    } else {
        match watched.spec_path_ext() {
            Some(ext) => extension_route(ext),
            None => Route::Nowhere,
        }
    }
}

/// The message that tells of a change sent along `route`.
pub open spec fn message_of(watched: Watched, route: Route) -> Option<Msg> {
    match route {
        Route::Assets => Some(Msg::AssetsChanged(watched)),
        Route::Source => Some(Msg::SrcChanged),
        Route::Style => Some(Msg::StyleChanged),
        Route::Nowhere => None,
    }
}

/// Whether a lower-case extension marks a style sheet.
pub fn is_style_extension(lowered: &str) -> (r: bool)
    ensures
        r == style_text(lowered@),
{
    same_text(lowered, "scss") || same_text(lowered, "sass") || same_text(lowered, "css")
}

/// Where the extension of a file sends a change.
pub fn route_extension(ext: &str) -> (r: Route)
    ensures
        r == extension_route(ext@),
{
    if same_text(ext, "rs") {
        Route::Source
    } else {
        let lowered = to_lowercase(ext);
        if is_style_extension(lowered.as_str()) {
            Route::Style
        } else {
            Route::Nowhere
        }
    }
}

/// Whether `path` lies under one of the excluded paths.
pub fn is_excluded(exclude: &Vec<Utf8PathBuf>, path: &Utf8PathBuf) -> (r: bool)
    ensures
        r == excluded(exclude@, *path),
{
    let mut i: usize = 0;
    while i < exclude.len()
        invariant
            0 <= i <= exclude.len(),
            forall|j: int| 0 <= j < i ==> !is_under(*path, #[trigger] exclude@[j]),
        decreases exclude.len() - i,
    {
        if starts_with(path, &exclude[i]) {
            return true;
        }
        i += 1;
    }
    false
}

/// Where a change is sent.
pub fn route(watched: &Watched, exclude: &Vec<Utf8PathBuf>, assets_dir: &Option<Utf8PathBuf>) -> (r:
    Route)
    ensures
        r == route_of(*watched, exclude@, *assets_dir),
{
    if let Some(path) = watched.path() {
        if is_excluded(exclude, path) {
            return Route::Nowhere;
        }
    }
    if let Some(dir) = assets_dir {
        if watched.path_starts_with(dir) {
            return Route::Assets;
        }
    }
    match watched.path_ext() {
        Some(ext) => route_extension(ext),
        None => Route::Nowhere,
    }
}

/// The message to publish for a change, if it concerns anyone.
///
/// A change under an excluded path concerns no one. A change that touches
/// the assets root is passed on whole. Any other change counts by the
/// extension of its file: source code, style sheet, or nothing of interest.
pub fn handle(watched: Watched, exclude: &Vec<Utf8PathBuf>, assets_dir: &Option<Utf8PathBuf>) -> (r:
    Option<Msg>)
    ensures
        r == message_of(watched, route_of(watched, exclude@, *assets_dir)),
{
    match route(&watched, exclude, assets_dir) {
        Route::Assets => Some(Msg::AssetsChanged(watched)),
        Route::Source => Some(Msg::SrcChanged),
        Route::Style => Some(Msg::StyleChanged),
        Route::Nowhere => None,
    }
}

/// The paths to watch, before reduction: the source directory, then the
/// directory of the style file if there is one, then the assets root if
/// there is one.
pub open spec fn roots_wanted(
    src: Utf8PathBuf,
    style_dir: Option<Utf8PathBuf>,
    assets_root: Option<Utf8PathBuf>,
) -> Seq<Utf8PathBuf> {
    seq![src] + (match style_dir {
        Some(dir) => seq![dir],
        None => seq![],
    }) + (match assets_root {
        Some(dir) => seq![dir],
        None => seq![],
    })
}

/// The directories to watch: the source directory, the directory of the
/// style file and the assets root, without those that lie under another one
/// of them. No directory is watched twice, and all that lies under one of
/// the three is watched.
pub fn watch_roots(
    src: Utf8PathBuf,
    style_dir: Option<Utf8PathBuf>,
    assets_root: Option<Utf8PathBuf>,
) -> (r: Vec<Utf8PathBuf>)
    ensures
        r@ == reduce_roots(roots_wanted(src, style_dir, assets_root)),
        nested_free(r@),
        forall|location: Seq<Seq<char>>|
            in_scope(r@, location) == in_scope(
                roots_wanted(src, style_dir, assets_root),
                location,
            ),
{
    let mut paths: Vec<Utf8PathBuf> = Vec::new();
    paths.push(src);
    if let Some(dir) = style_dir {
        paths.push(dir);
    }
    if let Some(dir) = assets_root {
        paths.push(dir);
    }
    proof {
        assert(paths@ =~= roots_wanted(src, style_dir, assets_root));
    }
    remove_nested(paths)
}

} // verus!
