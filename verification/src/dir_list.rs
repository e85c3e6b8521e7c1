//! An immutable, ordered listing of one directory's immediate children,
//! partitioned by kind. Dotfile entries sit in parallel partitions and do
//! not take part in selection.
//!
//! The logical index space of a listing is the concatenation
//! folders ++ files ++ symlinks, in that fixed kind-priority order, each
//! partition keeping filesystem enumeration order.

use vstd::prelude::*;
use crate::entry::{EntryKind, EntryView, File, FileSystemItem, Folder, ItemView, RawEntry,
    RawView, Symlink, is_dot_name, name_is_dot};
use crate::errors::NavError;

verus! {

/// The abstract value of a listing: six ordered partitions.
#[verifier::ext_equal]
pub ghost struct DirListView {
    pub folders: Seq<EntryView>,
    pub files: Seq<EntryView>,
    pub symlinks: Seq<EntryView>,
    pub dotfile_folders: Seq<EntryView>,
    pub dotfile_files: Seq<EntryView>,
    pub dotfile_symlinks: Seq<EntryView>,
}

/// A snapshot of one directory's children at the time it was read.
pub struct DirList {
    folders: Vec<Folder>,
    files: Vec<File>,
    symlinks: Vec<Symlink>,
    dotfile_folders: Vec<Folder>,
    dotfile_files: Vec<File>,
    dotfile_symlinks: Vec<Symlink>,
}

impl View for DirList {
    type V = DirListView;

    closed spec fn view(&self) -> DirListView {
        DirListView {
            folders: self.folders.deep_view(),
            files: self.files.deep_view(),
            symlinks: self.symlinks.deep_view(),
            dotfile_folders: self.dotfile_folders.deep_view(),
            dotfile_files: self.dotfile_files.deep_view(),
            dotfile_symlinks: self.dotfile_symlinks.deep_view(),
        }
    }
}

/// The entry value derived from a raw entry's path: the path itself and the
/// final component as display name.
pub open spec fn entry_of(path: Seq<Seq<char>>) -> EntryView {
    EntryView { path: path, name: path.last() }
}

/// The empty listing value.
pub open spec fn empty_view() -> DirListView {
    DirListView {
        folders: Seq::empty(),
        files: Seq::empty(),
        symlinks: Seq::empty(),
        dotfile_folders: Seq::empty(),
        dotfile_files: Seq::empty(),
        dotfile_symlinks: Seq::empty(),
    }
}

/// How a sequence of raw entries is partitioned into a listing: each entry
/// joins the partition of its kind, dotfiles apart, in enumeration order;
/// entries of no listed kind are skipped.
pub open spec fn build_view(s: Seq<RawView>) -> DirListView
    decreases s.len(),
{
    if s.len() == 0 {
        empty_view()
    } else {
        let prev = build_view(s.drop_last());
        let e = s.last();
        if e.path.len() == 0 {
            prev
        } else {
            let ev = entry_of(e.path);
            match e.kind {
                EntryKind::Folder => if is_dot_name(ev.name) {
                    DirListView { dotfile_folders: prev.dotfile_folders.push(ev), ..prev }
                } else {
                    DirListView { folders: prev.folders.push(ev), ..prev }
                },
                EntryKind::File => if is_dot_name(ev.name) {
                    DirListView { dotfile_files: prev.dotfile_files.push(ev), ..prev }
                } else {
                    DirListView { files: prev.files.push(ev), ..prev }
                },
                EntryKind::Symlink => if is_dot_name(ev.name) {
                    DirListView { dotfile_symlinks: prev.dotfile_symlinks.push(ev), ..prev }
                } else {
                    DirListView { symlinks: prev.symlinks.push(ev), ..prev }
                },
                EntryKind::Other => prev,
            }
        }
    }
}

/// Whether every raw entry of a listed kind has a name, that is, a final
/// path component. Building a listing succeeds exactly on such sequences.
pub open spec fn all_entries_named(s: Seq<RawView>) -> bool {
    forall|j: int| 0 <= j < s.len() ==> (s[j].kind != EntryKind::Other ==> s[j].path.len() > 0)
}

/// How many selectable items a listing value has: dotfile partitions do not
/// take part.
pub open spec fn total_len(v: DirListView) -> int {
    v.folders.len() + v.files.len() + v.symlinks.len() as int
}

/// A listing value a machine can hold.
pub open spec fn view_wf(v: DirListView) -> bool {
    total_len(v) <= usize::MAX
}

/// The listing's selectable items as one ordered sequence: folders first,
/// then files, then symlinks.
pub open spec fn combined_view(v: DirListView) -> Seq<ItemView> {
    v.folders.map_values(|e: EntryView| ItemView::Folder(e))
        + v.files.map_values(|e: EntryView| ItemView::File(e))
        + v.symlinks.map_values(|e: EntryView| ItemView::Symlink(e))
}

/// What looking up a logical index in a listing value yields: the index
/// resolves to the folder partition first, then files, then symlinks, and to
/// nothing when it lies beyond the listing.
pub open spec fn item_at_view(v: DirListView, i: int) -> Option<ItemView> {
    if 0 <= i < v.folders.len() {
        Some(ItemView::Folder(v.folders[i]))
    } else if 0 <= i - v.folders.len() < v.files.len() {
        Some(ItemView::File(v.files[i - v.folders.len()]))
    } else if 0 <= i - v.folders.len() - v.files.len() < v.symlinks.len() {
        Some(ItemView::Symlink(v.symlinks[i - v.folders.len() - v.files.len()]))
    } else {
        None
    }
}

/// Ordering law: the logical index space of a listing enumerates the folder
/// partition first, then files, then symlinks, with no gaps or repeats — the
/// lookup at index `i` yields exactly position `i` of the one concatenated
/// sequence — and yields nothing at or beyond the listing's length.
pub proof fn lemma_ordering_invariant(v: DirListView)
    ensures
        combined_view(v).len() == total_len(v),
        forall|i: int| 0 <= i < total_len(v) ==> item_at_view(v, i) == Some(combined_view(v)[i]),
        forall|i: int| !(0 <= i < total_len(v)) ==> item_at_view(v, i) is None,
{
    assert forall|i: int| 0 <= i < total_len(v) implies item_at_view(v, i) == Some(
        combined_view(v)[i],
    ) by {
        let c = combined_view(v);
        let nf = v.folders.len() as int;
        let nfi = v.files.len() as int;
        if i < nf {
            assert(c[i] == ItemView::Folder(v.folders[i]));
        } else if i < nf + nfi {
            assert(c[i] == ItemView::File(v.files[i - nf]));
        } else {
            assert(c[i] == ItemView::Symlink(v.symlinks[i - nf - nfi]));
        }
    }
}

impl DirList {
    /// A listing with the given raw entries, which the filesystem enumerated
    /// in this order. Fails, returning no partial listing, when an entry of
    /// a listed kind has no displayable name.
    pub fn new(entries: Vec<RawEntry>) -> (r: Result<DirList, NavError>)
        ensures
            match r {
                Ok(dl) => all_entries_named(entries.deep_view()) && dl@ == build_view(
                    entries.deep_view(),
                ) && dl.wf(),
                Err(e) => !all_entries_named(entries.deep_view()) && e == NavError::IoError,
            },
    {
        let mut folders: Vec<Folder> = Vec::new();
        let mut files: Vec<File> = Vec::new();
        let mut symlinks: Vec<Symlink> = Vec::new();
        let mut dotfile_folders: Vec<Folder> = Vec::new();
        let mut dotfile_files: Vec<File> = Vec::new();
        let mut dotfile_symlinks: Vec<Symlink> = Vec::new();
        let n: usize = entries.len();
        for i in 0..n
            invariant
                n == entries.len(),
                folders.len() + files.len() + symlinks.len() <= i,
                forall|j: int| 0 <= j < i ==> (entries.deep_view()[j].kind != EntryKind::Other
                    ==> entries.deep_view()[j].path.len() > 0),
                ({
                    let b = build_view(entries.deep_view().take(i as int));
                    &&& folders.deep_view() =~= b.folders
                    &&& files.deep_view() =~= b.files
                    &&& symlinks.deep_view() =~= b.symlinks
                    &&& dotfile_folders.deep_view() =~= b.dotfile_folders
                    &&& dotfile_files.deep_view() =~= b.dotfile_files
                    &&& dotfile_symlinks.deep_view() =~= b.dotfile_symlinks
                }),
        {
            proof {
                assert(entries.deep_view().take(i + 1).drop_last() =~= entries.deep_view().take(
                    i as int,
                ));
                assert(entries.deep_view().take(i + 1).last() == entries.deep_view()[i as int]);
            }
            let e = &entries[i];
            match e.kind {
                EntryKind::Other => {},
                EntryKind::Folder => {
                    match Folder::new(e.path.duplicate()) {
                        Err(er) => {
                            proof {
                                assert(entries.deep_view()[i as int].kind != EntryKind::Other
                                    && entries.deep_view()[i as int].path.len() == 0);
                                assert(!all_entries_named(entries.deep_view()));
                            }
                            return Err(er);
                        },
                        Ok(f) => {
                            if name_is_dot(&f.name) {
                                dotfile_folders.push(f);
                                proof {
                                    assert(dotfile_folders.deep_view() =~= build_view(
                                        entries.deep_view().take(i + 1),
                                    ).dotfile_folders);
                                }
                            } else {
                                folders.push(f);
                                proof {
                                    assert(folders.deep_view() =~= build_view(
                                        entries.deep_view().take(i + 1),
                                    ).folders);
                                }
                            }
                        },
                    }
                },
                EntryKind::File => {
                    match File::new(e.path.duplicate()) {
                        Err(er) => {
                            proof {
                                assert(entries.deep_view()[i as int].kind != EntryKind::Other
                                    && entries.deep_view()[i as int].path.len() == 0);
                                assert(!all_entries_named(entries.deep_view()));
                            }
                            return Err(er);
                        },
                        Ok(f) => {
                            if name_is_dot(&f.name) {
                                dotfile_files.push(f);
                                proof {
                                    assert(dotfile_files.deep_view() =~= build_view(
                                        entries.deep_view().take(i + 1),
                                    ).dotfile_files);
                                }
                            } else {
                                files.push(f);
                                proof {
                                    assert(files.deep_view() =~= build_view(
                                        entries.deep_view().take(i + 1),
                                    ).files);
                                }
                            }
                        },
                    }
                },
                EntryKind::Symlink => {
                    match Symlink::new(e.path.duplicate()) {
                        Err(er) => {
                            proof {
                                assert(entries.deep_view()[i as int].kind != EntryKind::Other
                                    && entries.deep_view()[i as int].path.len() == 0);
                                assert(!all_entries_named(entries.deep_view()));
                            }
                            return Err(er);
                        },
                        Ok(f) => {
                            if name_is_dot(&f.name) {
                                dotfile_symlinks.push(f);
                                proof {
                                    assert(dotfile_symlinks.deep_view() =~= build_view(
                                        entries.deep_view().take(i + 1),
                                    ).dotfile_symlinks);
                                }
                            } else {
                                symlinks.push(f);
                                proof {
                                    assert(symlinks.deep_view() =~= build_view(
                                        entries.deep_view().take(i + 1),
                                    ).symlinks);
                                }
                            }
                        },
                    }
                },
            }
        }
        proof {
            assert(entries.deep_view().take(n as int) =~= entries.deep_view());
        }
        let dl = DirList { folders, files, symlinks, dotfile_folders, dotfile_files,
            dotfile_symlinks };
        proof {
            assert(dl@ =~= build_view(entries.deep_view()));
        }
        Ok(dl)
    }

    /// A listing a machine can hold: its selectable items are countable in a
    /// `usize`. Every listing the engine builds satisfies this.
    pub open spec fn wf(&self) -> bool {
        view_wf(self@)
    }

    /// The non-dotfile folder partition, in enumeration order.
    pub fn folders(&self) -> (r: &Vec<Folder>)
        ensures
            r.deep_view() == self@.folders,
    {
        &self.folders
    }

    /// The non-dotfile file partition, in enumeration order.
    pub fn files(&self) -> (r: &Vec<File>)
        ensures
            r.deep_view() == self@.files,
    {
        &self.files
    }

    /// The non-dotfile symlink partition, in enumeration order.
    pub fn symlinks(&self) -> (r: &Vec<Symlink>)
        ensures
            r.deep_view() == self@.symlinks,
    {
        &self.symlinks
    }

    /// The dotfile folder partition, in enumeration order.
    pub fn dotfile_folders(&self) -> (r: &Vec<Folder>)
        ensures
            r.deep_view() == self@.dotfile_folders,
    {
        &self.dotfile_folders
    }

    /// The dotfile file partition, in enumeration order.
    pub fn dotfile_files(&self) -> (r: &Vec<File>)
        ensures
            r.deep_view() == self@.dotfile_files,
    {
        &self.dotfile_files
    }

    /// The dotfile symlink partition, in enumeration order.
    pub fn dotfile_symlinks(&self) -> (r: &Vec<Symlink>)
        ensures
            r.deep_view() == self@.dotfile_symlinks,
    {
        &self.dotfile_symlinks
    }

    /// How many selectable items the listing has.
    pub fn len(&self) -> (r: usize)
        requires
            self.wf(),
        ensures
            r == total_len(self@),
    {
        self.folders.len() + self.files.len() + self.symlinks.len()
    }

    /// The item at a logical index: folders first, then files, then
    /// symlinks. An index at or beyond the listing's length resolves to
    /// nothing; that is the normal way to see an empty listing or an
    /// out-of-range selection, not an error.
    pub fn get(&self, index: usize) -> (r: Option<FileSystemItem>)
        ensures
            match r {
                Some(item) => item_at_view(self@, index as int) == Some(item@),
                None => item_at_view(self@, index as int) is None,
            },
    {
        if index < self.folders.len() {
            Some(FileSystemItem::Folder(self.folders[index].duplicate()))
        } else {
            let rest: usize = index - self.folders.len();
            if rest < self.files.len() {
                Some(FileSystemItem::File(self.files[rest].duplicate()))
            } else {
                let rest2: usize = rest - self.files.len();
                if rest2 < self.symlinks.len() {
                    Some(FileSystemItem::Symlink(self.symlinks[rest2].duplicate()))
                } else {
                    None
                }
            }
        }
    }

    /// An owned copy of the listing with the same view.
    pub fn duplicate(&self) -> (r: DirList)
        ensures
            r@ == self@,
    {
        let r = DirList {
            folders: copy_folders(&self.folders),
            files: copy_files(&self.files),
            symlinks: copy_symlinks(&self.symlinks),
            dotfile_folders: copy_folders(&self.dotfile_folders),
            dotfile_files: copy_files(&self.dotfile_files),
            dotfile_symlinks: copy_symlinks(&self.dotfile_symlinks),
        };
        proof {
            assert(r@ =~= self@);
        }
        r
    }
}

/// An owned copy of a folder partition with the same view.
fn copy_folders(v: &Vec<Folder>) -> (r: Vec<Folder>)
    ensures
        r.deep_view() == v.deep_view(),
{
    let mut r: Vec<Folder> = Vec::new();
    let n: usize = v.len();
    for i in 0..n
        invariant
            n == v.len(),
            r@.len() == i,
            forall|j: int| 0 <= j < i ==> r@[j]@ == v@[j]@,
    {
        r.push(v[i].duplicate());
    }
    proof {
        assert forall|j: int| 0 <= j < v.deep_view().len() implies r.deep_view()[j]
            == v.deep_view()[j] by {
            assert(r.deep_view()[j] == r@[j].deep_view());
            assert(v.deep_view()[j] == v@[j].deep_view());
            assert(r@[j]@ == v@[j]@);
        }
        assert(r.deep_view() =~= v.deep_view());
    }
    r
}

/// An owned copy of a file partition with the same view.
fn copy_files(v: &Vec<File>) -> (r: Vec<File>)
    ensures
        r.deep_view() == v.deep_view(),
{
    let mut r: Vec<File> = Vec::new();
    let n: usize = v.len();
    for i in 0..n
        invariant
            n == v.len(),
            r@.len() == i,
            forall|j: int| 0 <= j < i ==> r@[j]@ == v@[j]@,
    {
        r.push(v[i].duplicate());
    }
    proof {
        assert forall|j: int| 0 <= j < v.deep_view().len() implies r.deep_view()[j]
            == v.deep_view()[j] by {
            assert(r.deep_view()[j] == r@[j].deep_view());
            assert(v.deep_view()[j] == v@[j].deep_view());
            assert(r@[j]@ == v@[j]@);
        }
        assert(r.deep_view() =~= v.deep_view());
    }
    r
}

/// An owned copy of a symlink partition with the same view.
fn copy_symlinks(v: &Vec<Symlink>) -> (r: Vec<Symlink>)
    ensures
        r.deep_view() == v.deep_view(),
{
    let mut r: Vec<Symlink> = Vec::new();
    let n: usize = v.len();
    for i in 0..n
        invariant
            n == v.len(),
            r@.len() == i,
            forall|j: int| 0 <= j < i ==> r@[j]@ == v@[j]@,
    {
        r.push(v[i].duplicate());
    }
    proof {
        assert forall|j: int| 0 <= j < v.deep_view().len() implies r.deep_view()[j]
            == v.deep_view()[j] by {
            assert(r.deep_view()[j] == r@[j].deep_view());
            assert(v.deep_view()[j] == v@[j].deep_view());
            assert(r@[j]@ == v@[j]@);
        }
        assert(r.deep_view() =~= v.deep_view());
    }
    r
}

} // verus!
