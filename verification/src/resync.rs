//! Full resynchronization of the staging directory with the assets
//! directory, planned from the listings of the two, and what it leaves
//! behind.
//!
//! An entry named `index.html` or `pkg` is reserved: the entry page and the
//! compiled bundle live there, and the synchronizer neither removes nor
//! writes them.

use crate::path::{components, join, joined, parsed, path_from};
use crate::text::same_text;
use camino::Utf8PathBuf;
use vstd::prelude::*;

verus! {

/// One entry of a directory listing.
#[derive(Clone, Debug, PartialEq, Eq)]
pub struct Entry {
    /// The file name of the entry.
    pub name: String,
    /// Whether the entry is a directory.
    pub is_dir: bool,
}

/// An entry of the staging directory that is to be removed, a directory with
/// all that is in it.
#[derive(Clone, Debug, PartialEq, Eq)]
pub struct Removal {
    pub name: String,
    pub path: Utf8PathBuf,
    pub is_dir: bool,
}

/// An entry of the assets directory that is to be copied into the staging
/// directory, a directory with all that is in it.
#[derive(Clone, Debug, PartialEq, Eq)]
pub struct CopyStep {
    pub name: String,
    pub from: Utf8PathBuf,
    pub to: Utf8PathBuf,
    pub is_dir: bool,
}

/// The file operations of one full resynchronization: first the removals,
/// then the copies.
#[derive(Clone, Debug, PartialEq, Eq)]
pub struct ResyncPlan {
    pub removals: Vec<Removal>,
    pub copies: Vec<CopyStep>,
}

/// The name of an entry that the synchronizer leaves alone.
pub open spec fn reserved_name(name: Seq<char>) -> bool {
    name == "index.html"@ || name == "pkg"@
}

/// The entries whose names are not reserved, in the order of the listing.
pub open spec fn unreserved(entries: Seq<Entry>) -> Seq<Entry>
    decreases entries.len(),
{
    if entries.len() == 0 {
        Seq::empty()
    } else if reserved_name(entries.last().name@) {
        unreserved(entries.drop_last())
    } else {
        unreserved(entries.drop_last()).push(entries.last())
    }
}

/// The removal of `entry` from the directory `root`.
pub open spec fn removes(step: Removal, entry: Entry, root: Utf8PathBuf) -> bool {
    &&& step.name@ == entry.name@
    &&& step.is_dir == entry.is_dir
    &&& components(step.path) == joined(components(root), parsed(entry.name@))
}

/// The copy of `entry` from the directory `src_root` to the directory
/// `dest_root`.
pub open spec fn copies(
    step: CopyStep,
    entry: Entry,
    src_root: Utf8PathBuf,
    dest_root: Utf8PathBuf,
) -> bool {
    &&& step.name@ == entry.name@
    &&& step.is_dir == entry.is_dir
    &&& components(step.from) == joined(components(src_root), parsed(entry.name@))
    &&& components(step.to) == joined(components(dest_root), parsed(entry.name@))
}

/// The removals are those of the unreserved entries, one for one.
pub open spec fn clears(plan: Seq<Removal>, entries: Seq<Entry>, root: Utf8PathBuf) -> bool {
    &&& plan.len() == unreserved(entries).len()
    &&& forall|i: int|
        0 <= i < plan.len() ==> removes(#[trigger] plan[i], unreserved(entries)[i], root)
}

/// The copies are those of the unreserved entries, one for one.
pub open spec fn mirrors(
    plan: Seq<CopyStep>,
    entries: Seq<Entry>,
    src_root: Utf8PathBuf,
    dest_root: Utf8PathBuf,
) -> bool {
    &&& plan.len() == unreserved(entries).len()
    &&& forall|i: int|
        0 <= i < plan.len() ==> copies(
            #[trigger] plan[i],
            unreserved(entries)[i],
            src_root,
            dest_root,
        )
}

/// Whether the synchronizer leaves an entry of this name alone.
pub fn is_reserved_name(name: &str) -> (r: bool)
    ensures
        r == reserved_name(name@),
{
    same_text(name, "index.html") || same_text(name, "pkg")
}

/// The removals that empty the staging directory of all but the reserved
/// entries, given its listing.
pub fn clean_dest(dest_root: &Utf8PathBuf, entries: &Vec<Entry>) -> (plan: Vec<Removal>)
    ensures
        clears(plan@, entries@, *dest_root),
{
    let mut plan: Vec<Removal> = Vec::new();
    let mut i: usize = 0;
    while i < entries.len()
        invariant
            0 <= i <= entries.len(),
            clears(plan@, entries@.take(i as int), *dest_root),
        decreases entries.len() - i,
    {
        let entry = &entries[i];
        proof {
            assert(entries@.take(i + 1).drop_last() == entries@.take(i as int));
            assert(entries@.take(i + 1).last() == entries@[i as int]);
        }
        if !is_reserved_name(entry.name.as_str()) {
            let path = join(dest_root, &path_from(entry.name.as_str()));
            plan.push(Removal { name: entry.name.clone(), path, is_dir: entry.is_dir });
        }
        i += 1;
    }
    proof {
        assert(entries@.take(entries.len() as int) == entries@);
    }
    plan
}

/// The copies that bring every unreserved entry of the assets directory into
/// the staging directory, given the listing of the assets directory.
pub fn mirror(src_root: &Utf8PathBuf, dest_root: &Utf8PathBuf, entries: &Vec<Entry>) -> (plan: Vec<
    CopyStep,
>)
    ensures
        mirrors(plan@, entries@, *src_root, *dest_root),
{
    let mut plan: Vec<CopyStep> = Vec::new();
    let mut i: usize = 0;
    while i < entries.len()
        invariant
            0 <= i <= entries.len(),
            mirrors(plan@, entries@.take(i as int), *src_root, *dest_root),
        decreases entries.len() - i,
    {
        let entry = &entries[i];
        proof {
            assert(entries@.take(i + 1).drop_last() == entries@.take(i as int));
            assert(entries@.take(i + 1).last() == entries@[i as int]);
        }
        if !is_reserved_name(entry.name.as_str()) {
            let name = path_from(entry.name.as_str());
            let from = join(src_root, &name);
            let to = join(dest_root, &name);
            plan.push(CopyStep { name: entry.name.clone(), from, to, is_dir: entry.is_dir });
        }
        i += 1;
    }
    proof {
        assert(entries@.take(entries.len() as int) == entries@);
    }
    plan
}

/// The file operations that bring the staging directory in line with the
/// assets directory, given the listings of both: every unreserved entry of
/// the staging directory is removed, then every unreserved entry of the
/// assets directory is copied.
pub fn resync(
    src_root: &Utf8PathBuf,
    dest_root: &Utf8PathBuf,
    src_entries: &Vec<Entry>,
    dest_entries: &Vec<Entry>,
) -> (plan: ResyncPlan)
    ensures
        clears(plan.removals@, dest_entries@, *dest_root),
        mirrors(plan.copies@, src_entries@, *src_root, *dest_root),
{
    let removals = clean_dest(dest_root, dest_entries);
    let copies = mirror(src_root, dest_root, src_entries);
    ResyncPlan { removals, copies }
}

/// The names of the entries of a listing.
pub open spec fn entry_names(entries: Seq<Entry>) -> Set<Seq<char>> {
    Set::new(
        |n: Seq<char>| exists|i: int| 0 <= i < entries.len() && (#[trigger] entries[i]).name@ == n,
    )
}

/// The names that the removals remove.
pub open spec fn removed_names(plan: Seq<Removal>) -> Set<Seq<char>> {
    Set::new(|n: Seq<char>| exists|i: int| 0 <= i < plan.len() && (#[trigger] plan[i]).name@ == n)
}

/// The names that the copies write.
pub open spec fn copied_names(plan: Seq<CopyStep>) -> Set<Seq<char>> {
    Set::new(|n: Seq<char>| exists|i: int| 0 <= i < plan.len() && (#[trigger] plan[i]).name@ == n)
}

/// The reserved names.
pub open spec fn reserved_names() -> Set<Seq<char>> {
    Set::new(|n: Seq<char>| reserved_name(n))
}

/// A directory, seen as what it holds under each name, after the removals.
pub open spec fn after_removals<T>(dir: Map<Seq<char>, T>, plan: Seq<Removal>) -> Map<
    Seq<char>,
    T,
> {
    dir.remove_keys(removed_names(plan))
}

/// The directory `dir` after the copies from the directory `src`: each name
/// copied holds what it holds in `src`.
pub open spec fn after_copies<T>(
    src: Map<Seq<char>, T>,
    dir: Map<Seq<char>, T>,
    plan: Seq<CopyStep>,
) -> Map<Seq<char>, T> {
    dir.union_prefer_right(src.restrict(copied_names(plan)))
}

/// The staging directory `dest` after the removals and then the copies of a
/// plan have been carried out.
pub open spec fn carried_out<T>(
    src: Map<Seq<char>, T>,
    dest: Map<Seq<char>, T>,
    plan: ResyncPlan,
) -> Map<Seq<char>, T> {
    after_copies(src, after_removals(dest, plan.removals@), plan.copies@)
}

/// The staging directory in line with the assets directory `src`: under a
/// reserved name what `dest` held there, under any other name what `src`
/// holds there.
pub open spec fn resynced<T>(src: Map<Seq<char>, T>, dest: Map<Seq<char>, T>) -> Map<Seq<char>, T> {
    dest.restrict(reserved_names()).union_prefer_right(src.remove_keys(reserved_names()))
}

/// The unreserved entries of a listing are those of its entries whose names
/// are not reserved.
pub proof fn lemma_unreserved_names(entries: Seq<Entry>, name: Seq<char>)
    ensures
        entry_names(unreserved(entries)).contains(name) == (entry_names(entries).contains(name)
            && !reserved_name(name)),
    decreases entries.len(),
{
    if entries.len() > 0 {
        let front = entries.drop_last();
        let last = entries.last();
        lemma_unreserved_names(front, name);
        let kept = unreserved(entries);
        if entry_names(kept).contains(name) {
            let i = choose|i: int| 0 <= i < kept.len() && (#[trigger] kept[i]).name@ == name;
            if reserved_name(last.name@) || i < kept.len() - 1 {
                assert(unreserved(front)[i].name@ == name);
                assert(entry_names(unreserved(front)).contains(name));
                let j = choose|j: int| 0 <= j < front.len() && (#[trigger] front[j]).name@ == name;
                assert(entries[j].name@ == name);
            } else {
                assert(entries[entries.len() - 1].name@ == name);
            }
        }
        if entry_names(entries).contains(name) && !reserved_name(name) {
            let j = choose|j: int| 0 <= j < entries.len() && (#[trigger] entries[j]).name@ == name;
            if j < front.len() {
                assert(front[j].name@ == name);
                assert(entry_names(front).contains(name));
                let i = choose|i: int|
                    0 <= i < unreserved(front).len() && (#[trigger] unreserved(front)[i]).name@
                        == name;
                assert(kept[i].name@ == name);
            } else {
                assert(kept[kept.len() - 1].name@ == name);
            }
        }
    }
}

/// Carrying out the plan made from exact listings of the two directories
/// leaves the staging directory in line with the assets directory.
pub proof fn lemma_plan_resyncs<T>(
    src: Map<Seq<char>, T>,
    dest: Map<Seq<char>, T>,
    src_entries: Seq<Entry>,
    dest_entries: Seq<Entry>,
    src_root: Utf8PathBuf,
    dest_root: Utf8PathBuf,
    plan: ResyncPlan,
)
    requires
        entry_names(src_entries) == src.dom(),
        entry_names(dest_entries) == dest.dom(),
        clears(plan.removals@, dest_entries, dest_root),
        mirrors(plan.copies@, src_entries, src_root, dest_root),
    ensures
        carried_out(src, dest, plan) == resynced(src, dest),
{
    let removals = plan.removals@;
    let copied = plan.copies@;
    assert forall|n: Seq<char>| removed_names(removals).contains(n) == (dest.dom().contains(n)
        && !reserved_name(n)) by {
        lemma_unreserved_names(dest_entries, n);
        let kept = unreserved(dest_entries);
        if removed_names(removals).contains(n) {
            let i = choose|i: int| 0 <= i < removals.len() && (#[trigger] removals[i]).name@ == n;
            assert(kept[i].name@ == n);
        }
        if entry_names(kept).contains(n) {
            let i = choose|i: int| 0 <= i < kept.len() && (#[trigger] kept[i]).name@ == n;
            assert(removals[i].name@ == n);
        }
    }
    assert forall|n: Seq<char>| copied_names(copied).contains(n) == (src.dom().contains(n)
        && !reserved_name(n)) by {
        lemma_unreserved_names(src_entries, n);
        let kept = unreserved(src_entries);
        if copied_names(copied).contains(n) {
            let i = choose|i: int| 0 <= i < copied.len() && (#[trigger] copied[i]).name@ == n;
            assert(kept[i].name@ == n);
        }
        if entry_names(kept).contains(n) {
            let i = choose|i: int| 0 <= i < kept.len() && (#[trigger] kept[i]).name@ == n;
            assert(copied[i].name@ == n);
        }
    }
    assert(carried_out(src, dest, plan) =~= resynced(src, dest));
}

/// A second resynchronization changes nothing: with the assets directory as
/// it was, the staging directory is left exactly as the first one left it.
pub proof fn lemma_resync_idempotent<T>(src: Map<Seq<char>, T>, dest: Map<Seq<char>, T>)
    ensures
        resynced(src, resynced(src, dest)) == resynced(src, dest),
{
    assert(resynced(src, resynced(src, dest)) =~= resynced(src, dest));
}

/// A resynchronization leaves what is under a reserved name as it was:
/// there before and after, with the same content, or absent before and
/// after.
pub proof fn lemma_resync_spares_reserved<T>(
    src: Map<Seq<char>, T>,
    dest: Map<Seq<char>, T>,
    name: Seq<char>,
)
    requires
        reserved_name(name),
    ensures
        resynced(src, dest).contains_key(name) == dest.contains_key(name),
        dest.contains_key(name) ==> resynced(src, dest)[name] == dest[name],
{
}

/// After a resynchronization, what is under an unreserved name is what the
/// assets directory holds there, and nothing where it holds nothing.
pub proof fn lemma_resync_follows_assets<T>(
    src: Map<Seq<char>, T>,
    dest: Map<Seq<char>, T>,
    name: Seq<char>,
)
    requires
        !reserved_name(name),
    ensures
        resynced(src, dest).contains_key(name) == src.contains_key(name),
        src.contains_key(name) ==> resynced(src, dest)[name] == src[name],
{
}

/// No removal and no copy of a plan names a reserved entry.
pub proof fn lemma_plan_spares_reserved(
    src_entries: Seq<Entry>,
    dest_entries: Seq<Entry>,
    src_root: Utf8PathBuf,
    dest_root: Utf8PathBuf,
    plan: ResyncPlan,
)
    requires
        clears(plan.removals@, dest_entries, dest_root),
        mirrors(plan.copies@, src_entries, src_root, dest_root),
    ensures
        forall|i: int|
            0 <= i < plan.removals@.len() ==> !reserved_name((#[trigger] plan.removals@[i]).name@),
        forall|i: int|
            0 <= i < plan.copies@.len() ==> !reserved_name((#[trigger] plan.copies@[i]).name@),
{
    assert forall|i: int| 0 <= i < plan.removals@.len() implies !reserved_name(
        (#[trigger] plan.removals@[i]).name@,
    ) by {
        let n = plan.removals@[i].name@;
        assert(unreserved(dest_entries)[i].name@ == n);
        assert(entry_names(unreserved(dest_entries)).contains(n));
        lemma_unreserved_names(dest_entries, n);
    }
    assert forall|i: int| 0 <= i < plan.copies@.len() implies !reserved_name(
        (#[trigger] plan.copies@[i]).name@,
    ) by {
        let n = plan.copies@[i].name@;
        assert(unreserved(src_entries)[i].name@ == n);
        assert(entry_names(unreserved(src_entries)).contains(n));
        lemma_unreserved_names(src_entries, n);
    }
}

} // verus!
