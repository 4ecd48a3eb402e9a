//! The asset synchronizer: what to do to the staging directory so that it
//! holds what the assets directory holds.
//!
//! Nothing here touches a disk. Each function says which file operations are
//! due; the caller carries them out and reports how they went.

use crate::bus::{Msg, Signal};
use crate::path::{
    components, is_under, join, joined, listed, parsed, path_from, rebased, same_path, PathError,
    PathErrorKind, PathExt,
};
use crate::watch::Watched;
use camino::Utf8PathBuf;
use vstd::prelude::*;

verus! {

/// The staging directory, relative to the project.
pub const DEST: &'static str = "target/site";

/// The two paths under the assets root whose counterparts in the staging
/// directory are not the synchronizer's to touch: the entry page and the
/// directory of the compiled bundle.
pub fn reserved(src: &Utf8PathBuf) -> (r: Vec<Utf8PathBuf>)
    ensures
        r@.len() == 2,
        components(r@[0]) == joined(components(*src), parsed("index.html"@)),
        components(r@[1]) == joined(components(*src), parsed("pkg"@)),
{
    let mut out: Vec<Utf8PathBuf> = Vec::new();
    out.push(join(src, &path_from("index.html")));
    out.push(join(src, &path_from("pkg")));
    out
}

/// Whether some path of the list equals `path`.
pub fn is_listed(paths: &Vec<Utf8PathBuf>, path: &Utf8PathBuf) -> (r: bool)
    ensures
        r == listed(paths@, *path),
{
    let mut i: usize = 0;
    while i < paths.len()
        invariant
            0 <= i <= paths.len(),
            forall|j: int| 0 <= j < i ==> components(#[trigger] paths@[j]) != components(*path),
        decreases paths.len() - i,
    {
        if same_path(&paths[i], path) {
            return true;
        }
        i += 1;
    }
    false
}

/// One step that brings the staging directory up to date.
#[derive(Clone, Debug, PartialEq, Eq)]
pub enum SyncAction {
    /// Nothing: the change names this reserved path.
    Skip(Utf8PathBuf),
    /// Copy what was created: a directory with all that is in it, anything
    /// else as a single file.
    Copy { from: Utf8PathBuf, to: Utf8PathBuf },
    /// Copy the file that was written.
    CopyFile { from: Utf8PathBuf, to: Utf8PathBuf },
    /// Remove this entry of the staging directory, with all that is in it.
    Remove(Utf8PathBuf),
    /// Rename an entry of the staging directory.
    Rename { from: Utf8PathBuf, to: Utf8PathBuf },
    /// Bring the whole staging directory up to date.
    Resync,
}

/// The view of a `SyncAction`: the same variants over the paths' components.
pub enum SyncStep {
    Skip(Seq<Seq<char>>),
    Copy { from: Seq<Seq<char>>, to: Seq<Seq<char>> },
    CopyFile { from: Seq<Seq<char>>, to: Seq<Seq<char>> },
    Remove(Seq<Seq<char>>),
    Rename { from: Seq<Seq<char>>, to: Seq<Seq<char>> },
    Resync,
}

impl View for SyncAction {
    type V = SyncStep;

    open spec fn view(&self) -> SyncStep {
        match self {
            SyncAction::Skip(p) => SyncStep::Skip(components(*p)),
            SyncAction::Copy { from, to } => SyncStep::Copy {
                from: components(*from),
                to: components(*to),
            },
            SyncAction::CopyFile { from, to } => SyncStep::CopyFile {
                from: components(*from),
                to: components(*to),
            },
            SyncAction::Remove(p) => SyncStep::Remove(components(*p)),
            SyncAction::Rename { from, to } => SyncStep::Rename {
                from: components(*from),
                to: components(*to),
            },
            SyncAction::Resync => SyncStep::Resync,
        }
    }
}

/// The reserved path that a change names, if it names one: its path, or for
/// a rename its old path, else its new one.
pub open spec fn reserved_hit(watched: Watched, reserved: Seq<Utf8PathBuf>) -> Option<Utf8PathBuf> {
    match watched {
        Watched::Create(p) | Watched::Write(p) | Watched::Remove(p) => if listed(reserved, p) {
            Some(p)
        } else {
            None
        },
        Watched::Rename(from, to) => if listed(reserved, from) {
            Some(from)
        } else if listed(reserved, to) {
            Some(to)
        } else {
            None
        },
        Watched::Rescan => None,
    }
}

/// The step that a change to the assets asks for.
///
/// A change that names a reserved path asks for nothing. Any other path is
/// moved from under the assets root to under the staging directory: what was
/// created or written is copied there, what was removed is removed there,
/// what was renamed is renamed there. When notifications were lost, the
/// whole directory is brought up to date.
pub open spec fn update_step(
    watched: Watched,
    src_root: Utf8PathBuf,
    dest_root: Utf8PathBuf,
    reserved: Seq<Utf8PathBuf>,
) -> Result<SyncStep, PathErrorKind> {
    let src = components(src_root);
    let dest = components(dest_root);
    if reserved_hit(watched, reserved) is Some {
        Ok(SyncStep::Skip(components(reserved_hit(watched, reserved)->0)))
    } else {
        match watched {
            Watched::Create(f) => match rebased(components(f), src, dest) {
                Ok(to) => Ok(SyncStep::Copy { from: components(f), to }),
                Err(kind) => Err(kind),
            },
            Watched::Write(f) => match rebased(components(f), src, dest) {
                Ok(to) => Ok(SyncStep::CopyFile { from: components(f), to }),
                Err(kind) => Err(kind),
            },
            Watched::Remove(f) => match rebased(components(f), src, dest) {
                Ok(at) => Ok(SyncStep::Remove(at)),
                Err(kind) => Err(kind),
            },
            Watched::Rename(from, to) => match rebased(components(from), src, dest) {
                Ok(old) => match rebased(components(to), src, dest) {
                    Ok(new) => Ok(SyncStep::Rename { from: old, to: new }),
                    Err(kind) => Err(kind),
                },
                Err(kind) => Err(kind),
            },
            Watched::Rescan => Ok(SyncStep::Resync),
        }
    }
}

/// The path of a change that does not lie under the assets root: its path,
/// or for a rename its old path if that lies elsewhere, else its new one.
pub open spec fn misplaced(watched: Watched, src_root: Utf8PathBuf) -> Seq<Seq<char>> {
    match watched {
        Watched::Create(f) | Watched::Write(f) | Watched::Remove(f) => components(f),
        Watched::Rename(from, to) => if is_under(from, src_root) {
            components(to)
        } else {
            components(from)
        },
        Watched::Rescan => Seq::empty(),
    }
}

/// The step that a change to the assets asks for, or why its path could not
/// be moved under the staging directory.
pub fn update_asset(
    watched: Watched,
    src_root: &Utf8PathBuf,
    dest_root: &Utf8PathBuf,
    reserved: &Vec<Utf8PathBuf>,
) -> (r: Result<SyncAction, PathError>)
    ensures
        match r {
            Ok(action) => update_step(watched, *src_root, *dest_root, reserved@) == Ok::<
                SyncStep,
                PathErrorKind,
            >(action@),
            Err(error) => update_step(watched, *src_root, *dest_root, reserved@) == Err::<
                SyncStep,
                PathErrorKind,
            >(error.kind) && error.base == *src_root && components(error.path) == misplaced(
                watched,
                *src_root,
            ),
        },
        reserved_hit(watched, reserved@) is Some ==> r matches Ok(SyncAction::Skip(_)),
{
    match watched {
        Watched::Create(f) => {
            if is_listed(reserved, &f) {
                return Ok(SyncAction::Skip(f));
            }
            match f.rebase(src_root, dest_root) {
                Ok(to) => Ok(SyncAction::Copy { from: f, to }),
                Err(error) => Err(error),
            }
        },
        Watched::Write(f) => {
            if is_listed(reserved, &f) {
                return Ok(SyncAction::Skip(f));
            }
            match f.rebase(src_root, dest_root) {
                Ok(to) => Ok(SyncAction::CopyFile { from: f, to }),
                Err(error) => Err(error),
            }
        },
        Watched::Remove(f) => {
            if is_listed(reserved, &f) {
                return Ok(SyncAction::Skip(f));
            }
            match f.rebase(src_root, dest_root) {
                Ok(at) => Ok(SyncAction::Remove(at)),
                Err(error) => Err(error),
            }
        },
        Watched::Rename(from, to) => {
            if is_listed(reserved, &from) {
                return Ok(SyncAction::Skip(from));
            }
            if is_listed(reserved, &to) {
                return Ok(SyncAction::Skip(to));
            }
            match from.rebase(src_root, dest_root) {
                Ok(old) => match to.rebase(src_root, dest_root) {
                    Ok(new) => Ok(SyncAction::Rename { from: old, to: new }),
                    Err(error) => Err(error),
                },
                Err(error) => Err(error),
            }
        },
        Watched::Rescan => Ok(SyncAction::Resync),
    }
}

/// What the synchronizer does on a message.
#[derive(Clone, Debug, PartialEq, Eq)]
pub enum SyncReaction {
    /// Carry out this step.
    Apply(SyncAction),
    /// The change could not be placed under the staging directory: bring the
    /// whole directory up to date instead.
    Recover(PathError),
    /// Stop listening.
    Stop,
    /// Nothing: the message is not for the synchronizer.
    Ignore,
}

/// What follows a step of the synchronizer.
#[derive(Clone, Copy, Debug, PartialEq, Eq, Structural)]
pub enum FollowUp {
    /// Publish the message that makes browsers reload.
    Reload,
    /// Bring the whole staging directory up to date.
    Fallback,
    /// Report that the staging directory could not be brought up to date,
    /// and go on listening.
    GiveUp,
    /// Nothing.
    Nothing,
}

/// What follows a step that was carried out, with or without success.
///
/// A skipped change is followed by nothing. A step that succeeded is
/// followed by one reload. A step that failed is followed by a full
/// resynchronization, unless it was one itself.
pub open spec fn followed(step: SyncStep, succeeded: bool) -> FollowUp {
    if step is Skip {
        FollowUp::Nothing
    } else if succeeded {
        FollowUp::Reload
    } else if step is Resync {
        FollowUp::GiveUp
    } else {
        FollowUp::Fallback
    }
}

/// What the synchronizer does on a message: it acts on changes to the
/// assets, stops on the shutdown message and ignores all others.
pub fn react(
    msg: Msg,
    src_root: &Utf8PathBuf,
    dest_root: &Utf8PathBuf,
    reserved: &Vec<Utf8PathBuf>,
) -> (r: SyncReaction)
    ensures
        match msg {
            Msg::AssetsChanged(watched) => match update_step(
                watched,
                *src_root,
                *dest_root,
                reserved@,
            ) {
                Ok(step) => r matches SyncReaction::Apply(action) && action@ == step,
                Err(kind) => r matches SyncReaction::Recover(error) && error.kind == kind
                    && error.base == *src_root && components(error.path) == misplaced(
                    watched,
                    *src_root,
                ),
            },
            Msg::ShutDown => r is Stop,
            _ => r is Ignore,
        },
{
    match msg {
        Msg::AssetsChanged(watched) => match update_asset(watched, src_root, dest_root, reserved) {
            Ok(action) => SyncReaction::Apply(action),
            Err(error) => SyncReaction::Recover(error),
        },
        Msg::ShutDown => SyncReaction::Stop,
        _ => SyncReaction::Ignore,
    }
}

/// What follows a step that was carried out, with or without success.
pub fn follow_up(action: &SyncAction, succeeded: bool) -> (r: FollowUp)
    ensures
        r == followed(action@, succeeded),
{
    match action {
        SyncAction::Skip(_) => FollowUp::Nothing,
        SyncAction::Resync => if succeeded {
            FollowUp::Reload
        } else {
            FollowUp::GiveUp
        },
        _ => if succeeded {
            FollowUp::Reload
        } else {
            FollowUp::Fallback
        },
    }
}

/// The message that makes browsers reload after the assets changed.
pub fn reload_message() -> (r: Msg)
    ensures
        r@ == Signal::Reload("reload"@),
{
    Msg::Reload(String::from_str("reload"))
}

/// A change that names a reserved path is left alone: it is skipped, and a
/// skipped change is followed by no file operation and no reload, however
/// the paths of the change lie otherwise.
pub proof fn lemma_reserved_is_left_alone(
    watched: Watched,
    src_root: Utf8PathBuf,
    dest_root: Utf8PathBuf,
    reserved: Seq<Utf8PathBuf>,
    succeeded: bool,
)
    requires
        reserved_hit(watched, reserved) is Some,
    ensures
        update_step(watched, src_root, dest_root, reserved) == Ok::<SyncStep, PathErrorKind>(
            SyncStep::Skip(components(reserved_hit(watched, reserved)->0)),
        ),
        listed(reserved, reserved_hit(watched, reserved)->0),
        followed(SyncStep::Skip(components(reserved_hit(watched, reserved)->0)), succeeded)
            == FollowUp::Nothing,
{
}

/// Every step that is carried out with success, a full resynchronization
/// too, is followed by exactly one reload, and no failure is.
pub proof fn lemma_success_reloads(step: SyncStep, succeeded: bool)
    requires
        !(step is Skip),
    ensures
        followed(step, succeeded) == FollowUp::Reload <==> succeeded,
        !succeeded && !(step is Resync) ==> followed(step, succeeded) == FollowUp::Fallback,
{
}

} // verus!
