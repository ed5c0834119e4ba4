//! The layout of the archive that holds a finished distribution.

use super::errors::FileAlreadyExistError;
use vstd::prelude::*;
use vstd::string::*;

verus! {

/// One entry met on the walk through the staging tree: its path relative to
/// the staging root, which is empty for the root itself, and whether it is a
/// file.
pub struct TreeEntry {
    pub name: String,
    pub is_file: bool,
}

/// One entry of the archive, keyed by its path relative to the staging root.
#[derive(Debug, PartialEq, Eq)]
pub struct ArchiveEntry {
    pub name: String,
    pub is_dir: bool,
}

/// An entry of the tree that gets an entry in the archive: every file, and
/// every directory but the staging root.
pub open spec fn is_archived(entry: TreeEntry) -> bool {
    entry.is_file || entry.name@.len() > 0
}

/// `out` is the archive entry of the tree entry `entry`.
pub open spec fn is_entry_of(out: ArchiveEntry, entry: TreeEntry) -> bool {
    out.name@ == entry.name@ && out.is_dir == !entry.is_file
}

/// The tree entries that get an entry in the archive, in the order of the
/// walk.
pub open spec fn archived(entries: Seq<TreeEntry>) -> Seq<TreeEntry>
    decreases entries.len(),
{
    if entries.len() == 0 {
        Seq::empty()
    } else if is_archived(entries.last()) {
        archived(entries.drop_last()).push(entries.last())
    } else {
        archived(entries.drop_last())
    }
}

/// Every entry of the archive stands for an entry of the tree that is a file
/// or has a name; the staging root is never among them.
pub proof fn lemma_archived_leaves_out_root(entries: Seq<TreeEntry>)
    ensures
        archived(entries).len() <= entries.len(),
        forall|i: int|
            0 <= i < archived(entries).len() ==> is_archived(#[trigger] archived(entries)[i]),
    decreases entries.len(),
{
    if entries.len() > 0 {
        lemma_archived_leaves_out_root(entries.drop_last());
    }
}

/// A tree without its root loses nothing: every entry is archived, in order.
pub proof fn lemma_archived_keeps_all_below_root(entries: Seq<TreeEntry>)
    requires
        forall|i: int| 0 <= i < entries.len() ==> is_archived(#[trigger] entries[i]),
    ensures
        archived(entries) == entries,
    decreases entries.len(),
{
    if entries.len() > 0 {
        let front = entries.drop_last();
        assert forall|i: int| 0 <= i < front.len() implies is_archived(#[trigger] front[i]) by {
            assert(front[i] == entries[i]);
        }
        lemma_archived_keeps_all_below_root(front);
        assert(front.push(entries.last()) =~= entries);
    } else {
        assert(entries =~= Seq::<TreeEntry>::empty());
    }
}

/// The archive entry of one tree entry, if it gets one.
pub fn archive_entry(entry: &TreeEntry) -> (r: Option<ArchiveEntry>)
    ensures
        match r {
            Some(out) => is_archived(*entry) && is_entry_of(out, *entry),
            None => !is_archived(*entry),
        },
{
    if entry.is_file {
        Some(ArchiveEntry { name: String::from_str(entry.name.as_str()), is_dir: false })
    } else if entry.name.as_str().unicode_len() > 0 {
        Some(ArchiveEntry { name: String::from_str(entry.name.as_str()), is_dir: true })
    } else {
        None
    }
}

/// The entries of the archive for a walk through the staging tree: one for
/// each file and each directory below the root, in the order of the walk.
pub fn zip_dir(entries: &Vec<TreeEntry>) -> (out: Vec<ArchiveEntry>)
    ensures
        out@.len() == archived(entries@).len(),
        forall|i: int|
            0 <= i < out@.len() ==> is_entry_of(#[trigger] out@[i], archived(entries@)[i]),
{
    let n: usize = entries.len();
    let mut out: Vec<ArchiveEntry> = Vec::new();
    let mut i: usize = 0;
    assert(entries@.subrange(0, 0) =~= Seq::<TreeEntry>::empty());
    while i < n
        invariant
            n == entries@.len(),
            i <= n,
            out@.len() == archived(entries@.subrange(0, i as int)).len(),
            forall|j: int|
                0 <= j < out@.len() ==> is_entry_of(
                    #[trigger] out@[j],
                    archived(entries@.subrange(0, i as int))[j],
                ),
        decreases n - i,
    {
        assert(entries@.subrange(0, i + 1).drop_last() =~= entries@.subrange(0, i as int));
        assert(entries@.subrange(0, i + 1).last() == entries@[i as int]);
        match archive_entry(&entries[i]) {
            Some(entry) => {
                out.push(entry);
            },
            None => {},
        }
        i += 1;
    }
    assert(entries@.subrange(0, n as int) =~= entries@);
    out
}

/// Refuses to write the archive where something already stands at its path.
pub fn check_output(exists: bool) -> (r: Result<(), FileAlreadyExistError>)
    ensures
        r is Err <==> exists,
{
    if exists {
        Err(FileAlreadyExistError)
    } else {
        Ok(())
    }
}

} // verus!
