//! Directory entries: the three entry kinds, their display names, and the
//! raw form in which one level of a directory is handed to the engine.

use vstd::prelude::*;
use vstd::string::StrSliceExecFns;
use crate::errors::NavError;
use crate::fs_path::AbsPath;

verus! {

/// The kind of a directory entry.
///
/// `Other` covers entries that are neither folders, files nor symlinks
/// (sockets, device nodes); the engine skips them.
#[derive(Clone, Copy, Debug, PartialEq, Eq, Structural)]
pub enum EntryKind {
    Folder,
    File,
    Symlink,
    Other,
}

/// The abstract value of one entry: its absolute path and its display name.
#[verifier::ext_equal]
pub ghost struct EntryView {
    pub path: Seq<Seq<char>>,
    pub name: Seq<char>,
}

/// The abstract value of one raw entry.
#[verifier::ext_equal]
pub ghost struct RawView {
    pub kind: EntryKind,
    pub path: Seq<Seq<char>>,
}

/// One raw entry of a directory listing, as the filesystem enumerates it:
/// a kind and an absolute path. Display names are derived from the path.
pub struct RawEntry {
    pub kind: EntryKind,
    pub path: AbsPath,
}

impl DeepView for RawEntry {
    type V = RawView;

    open spec fn deep_view(&self) -> RawView {
        RawView { kind: self.kind, path: self.path@ }
    }
}

/// Whether a display name marks a dotfile entry.
pub open spec fn is_dot_name(name: Seq<char>) -> bool {
    name.len() > 0 && name[0] == '.'
}

/// Whether this display name begins with a dot.
pub fn name_is_dot(name: &String) -> (r: bool)
    ensures
        r == is_dot_name(name@),
{
    let s: &str = name.as_str();
    if s.unicode_len() == 0 {
        false
    } else {
        s.get_char(0) == '.'
    }
}

/// A folder entry.
#[derive(Debug)]
pub struct Folder {
    pub path: AbsPath,
    pub name: String,
}

impl View for Folder {
    type V = EntryView;

    open spec fn view(&self) -> EntryView {
        EntryView { path: self.path@, name: self.name@ }
    }
}

impl DeepView for Folder {
    type V = EntryView;

    open spec fn deep_view(&self) -> EntryView {
        self.view()
    }
}

impl Folder {
    /// A folder entry at the given path; its display name is the final path
    /// component. A path without components has no displayable name.
    pub fn new(path: AbsPath) -> (r: Result<Folder, NavError>)
        ensures
            match r {
                Ok(f) => path@.len() > 0 && f@ == (EntryView { path: path@, name: path@.last() }),
                Err(e) => path@.len() == 0 && e == NavError::IoError,
            },
    {
        match path.last_component() {
            Some(name) => Ok(Folder { path, name }),
            None => Err(NavError::IoError),
        }
    }

    /// The entry's display name.
    pub fn display_name(&self) -> (r: String)
        ensures
            r@ == self@.name,
    {
        self.name.clone()
    }

    /// An owned copy of the entry with the same view.
    pub fn duplicate(&self) -> (r: Folder)
        ensures
            r@ == self@,
    {
        Folder { path: self.path.duplicate(), name: self.name.clone() }
    }
}

/// A regular-file entry.
#[derive(Debug)]
pub struct File {
    pub path: AbsPath,
    pub name: String,
}

impl View for File {
    type V = EntryView;

    open spec fn view(&self) -> EntryView {
        EntryView { path: self.path@, name: self.name@ }
    }
}

impl DeepView for File {
    type V = EntryView;

    open spec fn deep_view(&self) -> EntryView {
        self.view()
    }
}

impl File {
    /// A file entry at the given path; its display name is the final path
    /// component. A path without components has no displayable name.
    pub fn new(path: AbsPath) -> (r: Result<File, NavError>)
        ensures
            match r {
                Ok(f) => path@.len() > 0 && f@ == (EntryView { path: path@, name: path@.last() }),
                Err(e) => path@.len() == 0 && e == NavError::IoError,
            },
    {
        match path.last_component() {
            Some(name) => Ok(File { path, name }),
            None => Err(NavError::IoError),
        }
    }

    /// The entry's display name.
    pub fn display_name(&self) -> (r: String)
        ensures
            r@ == self@.name,
    {
        self.name.clone()
    }

    /// An owned copy of the entry with the same view.
    pub fn duplicate(&self) -> (r: File)
        ensures
            r@ == self@,
    {
        File { path: self.path.duplicate(), name: self.name.clone() }
    }
}

/// A symbolic-link entry.
#[derive(Debug)]
pub struct Symlink {
    pub path: AbsPath,
    pub name: String,
}

impl View for Symlink {
    type V = EntryView;

    open spec fn view(&self) -> EntryView {
        EntryView { path: self.path@, name: self.name@ }
    }
}

impl DeepView for Symlink {
    type V = EntryView;

    open spec fn deep_view(&self) -> EntryView {
        self.view()
    }
}

impl Symlink {
    /// A symlink entry at the given path; its display name is the final path
    /// component. A path without components has no displayable name.
    pub fn new(path: AbsPath) -> (r: Result<Symlink, NavError>)
        ensures
            match r {
                Ok(f) => path@.len() > 0 && f@ == (EntryView { path: path@, name: path@.last() }),
                Err(e) => path@.len() == 0 && e == NavError::IoError,
            },
    {
        match path.last_component() {
            Some(name) => Ok(Symlink { path, name }),
            None => Err(NavError::IoError),
        }
    }

    /// The entry's display name.
    pub fn display_name(&self) -> (r: String)
        ensures
            r@ == self@.name,
    {
        self.name.clone()
    }

    /// An owned copy of the entry with the same view.
    pub fn duplicate(&self) -> (r: Symlink)
        ensures
            r@ == self@,
    {
        Symlink { path: self.path.duplicate(), name: self.name.clone() }
    }
}

/// One resolved item of a listing, tagged with its kind.
pub enum FileSystemItem {
    Folder(Folder),
    File(File),
    Symlink(Symlink),
}

/// The abstract value of a resolved item.
#[verifier::ext_equal]
pub ghost enum ItemView {
    Folder(EntryView),
    File(EntryView),
    Symlink(EntryView),
}

impl View for FileSystemItem {
    type V = ItemView;

    open spec fn view(&self) -> ItemView {
        match self {
            FileSystemItem::Folder(f) => ItemView::Folder(f@),
            FileSystemItem::File(f) => ItemView::File(f@),
            FileSystemItem::Symlink(f) => ItemView::Symlink(f@),
        }
    }
}

impl FileSystemItem {
    /// The item's display name.
    pub fn display_name(&self) -> (r: String)
        ensures
            r@ == self.spec_name(),
    {
        match self {
            FileSystemItem::Folder(f) => f.display_name(),
            FileSystemItem::File(f) => f.display_name(),
            FileSystemItem::Symlink(f) => f.display_name(),
        }
    }

    /// The display name of the item's view.
    pub open spec fn spec_name(&self) -> Seq<char> {
        match self@ {
            ItemView::Folder(e) => e.name,
            ItemView::File(e) => e.name,
            ItemView::Symlink(e) => e.name,
        }
    }
}

} // verus!
