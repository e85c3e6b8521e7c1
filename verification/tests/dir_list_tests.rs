use fsnav::dir_list::DirList;
use fsnav::entry::{EntryKind, FileSystemItem, RawEntry};
use fsnav::errors::NavError;
use fsnav::fs_path::AbsPath;

fn path(components: &[&str]) -> AbsPath {
    AbsPath::from_components(components.iter().map(|c| c.to_string()).collect())
}

fn raw(kind: EntryKind, components: &[&str]) -> RawEntry {
    RawEntry { kind, path: path(components) }
}

fn name_at(dl: &DirList, index: usize) -> Option<String> {
    dl.get(index).map(|item| item.display_name())
}

#[test]
fn ordering_folders_then_files_then_symlinks() {
    let dl = DirList::new(vec![
        raw(EntryKind::File, &["d", "n.txt"]),
        raw(EntryKind::Folder, &["d", "sub"]),
        raw(EntryKind::Symlink, &["d", "link"]),
        raw(EntryKind::File, &["d", "m.txt"]),
        raw(EntryKind::Folder, &["d", "aaa"]),
    ])
    .unwrap();
    assert_eq!(dl.len(), 5);
    // Folders first, then files, then symlinks, each in enumeration order.
    assert_eq!(name_at(&dl, 0).unwrap(), "sub");
    assert_eq!(name_at(&dl, 1).unwrap(), "aaa");
    assert_eq!(name_at(&dl, 2).unwrap(), "n.txt");
    assert_eq!(name_at(&dl, 3).unwrap(), "m.txt");
    assert_eq!(name_at(&dl, 4).unwrap(), "link");
    // No item at or past the length.
    assert!(dl.get(5).is_none());
    assert!(dl.get(100).is_none());
}

#[test]
fn ordering_kinds_are_tagged() {
    let dl = DirList::new(vec![
        raw(EntryKind::File, &["d", "n.txt"]),
        raw(EntryKind::Folder, &["d", "sub"]),
        raw(EntryKind::Symlink, &["d", "link"]),
    ])
    .unwrap();
    assert!(matches!(dl.get(0), Some(FileSystemItem::Folder(_))));
    assert!(matches!(dl.get(1), Some(FileSystemItem::File(_))));
    assert!(matches!(dl.get(2), Some(FileSystemItem::Symlink(_))));
}

#[test]
fn middle_pane_ordering_preserves_read_order() {
    // Enumeration order: folders "b", "a", then file "z.txt".
    let dl = DirList::new(vec![
        raw(EntryKind::Folder, &["top", "b"]),
        raw(EntryKind::Folder, &["top", "a"]),
        raw(EntryKind::File, &["top", "z.txt"]),
    ])
    .unwrap();
    // Folders-then-files, preserving read order within each kind - not
    // alphabetical.
    let names: Vec<String> = (0..dl.len()).map(|i| name_at(&dl, i).unwrap()).collect();
    assert_eq!(names, vec!["b", "a", "z.txt"]);
}

#[test]
fn dotfiles_sit_in_parallel_partitions() {
    let dl = DirList::new(vec![
        raw(EntryKind::Folder, &["d", ".git"]),
        raw(EntryKind::Folder, &["d", "src"]),
        raw(EntryKind::File, &["d", ".hidden"]),
        raw(EntryKind::File, &["d", "seen.txt"]),
    ])
    .unwrap();
    // Dotfile entries take no part in selection.
    assert_eq!(dl.len(), 2);
    assert_eq!(name_at(&dl, 0).unwrap(), "src");
    assert_eq!(name_at(&dl, 1).unwrap(), "seen.txt");
    assert_eq!(dl.dotfile_folders().len(), 1);
    assert_eq!(dl.dotfile_folders()[0].display_name(), ".git");
    assert_eq!(dl.dotfile_files().len(), 1);
    assert_eq!(dl.dotfile_files()[0].display_name(), ".hidden");
    assert_eq!(dl.dotfile_symlinks().len(), 0);
}

#[test]
fn unnamed_entry_aborts_the_whole_listing() {
    // An entry whose path has no final component has no displayable name.
    let r = DirList::new(vec![
        raw(EntryKind::Folder, &["d", "fine"]),
        raw(EntryKind::File, &[]),
    ]);
    assert_eq!(r.err().unwrap(), NavError::IoError);
}

#[test]
fn other_kind_entries_are_skipped() {
    let dl = DirList::new(vec![
        raw(EntryKind::Other, &["d", "socket"]),
        raw(EntryKind::File, &["d", "a.txt"]),
        // A nameless entry of no listed kind is skipped, not an error.
        raw(EntryKind::Other, &[]),
    ])
    .unwrap();
    assert_eq!(dl.len(), 1);
    assert_eq!(name_at(&dl, 0).unwrap(), "a.txt");
}

#[test]
fn empty_listing_has_no_items() {
    let dl = DirList::new(Vec::new()).unwrap();
    assert_eq!(dl.len(), 0);
    assert!(dl.get(0).is_none());
}

#[test]
fn duplicate_preserves_contents() {
    let dl = DirList::new(vec![
        raw(EntryKind::Folder, &["d", "sub"]),
        raw(EntryKind::File, &["d", "f.txt"]),
    ])
    .unwrap();
    let copy = dl.duplicate();
    assert_eq!(copy.len(), dl.len());
    assert_eq!(name_at(&copy, 0).unwrap(), "sub");
    assert_eq!(name_at(&copy, 1).unwrap(), "f.txt");
}

#[test]
fn entry_names_come_from_the_final_component() {
    let f = fsnav::entry::Folder::new(path(&["home", "user", "docs"])).unwrap();
    assert_eq!(f.display_name(), "docs");
    let err = fsnav::entry::Folder::new(path(&[])).unwrap_err();
    assert_eq!(err, NavError::IoError);
    let err = fsnav::entry::File::new(path(&[])).unwrap_err();
    assert_eq!(err, NavError::IoError);
    let err = fsnav::entry::Symlink::new(path(&[])).unwrap_err();
    assert_eq!(err, NavError::IoError);
}
