use fsnav::backend::{AppBackend, PreviewPlan};
use fsnav::dir_list::DirList;
use fsnav::entry::{EntryKind, RawEntry};
use fsnav::errors::NavError;
use fsnav::fs_path::AbsPath;
use fsnav::panes::RightPane;
use fsnav::tab::{Tab, Tabs};

fn path(components: &[&str]) -> AbsPath {
    AbsPath::from_components(components.iter().map(|c| c.to_string()).collect())
}

fn listing(entries: &[(EntryKind, &[&str])]) -> DirList {
    let raws: Vec<RawEntry> = entries
        .iter()
        .map(|(kind, components)| RawEntry { kind: *kind, path: path(components) })
        .collect();
    DirList::new(raws).unwrap()
}

fn wd_components(b: &AppBackend) -> Vec<String> {
    b.tabs.selected_tab_ref().working_directory.components().clone()
}

fn middle_names(b: &AppBackend) -> Vec<String> {
    let mp = b.tabs.selected_tab_ref().ui.mid_pane.as_ref().unwrap();
    (0..mp.items.len()).map(|i| mp.items.get(i).unwrap().display_name()).collect()
}

fn middle_state(b: &AppBackend) -> Option<usize> {
    b.tabs.selected_tab_ref().ui.mid_pane.as_ref().unwrap().state
}

#[test]
fn empty_tab_collection_is_refused() {
    let r = Tabs::new(Vec::new());
    assert_eq!(r.err().unwrap(), NavError::InvalidConfiguration);
}

#[test]
fn one_tab_is_enough() {
    let tab = Tab::new(path(&["home"]), listing(&[(EntryKind::File, &["home", "a.txt"])]));
    let tabs = Tabs::new(vec![tab]).unwrap();
    assert_eq!(tabs.selected_tab_ref().working_directory.depth(), 1);
}

#[test]
fn left_from_root_is_a_no_op() {
    // The working directory is the filesystem root: no parent exists.
    let mut b = AppBackend::new(path(&[]), listing(&[(EntryKind::Folder, &["etc"])])).unwrap();
    assert!(b.parent_path().is_none());
    b.select_left(Ok(listing(&[])));
    assert_eq!(wd_components(&b), Vec::<String>::new());
    assert_eq!(middle_names(&b), vec!["etc"]);
}

#[test]
fn left_steps_out_to_the_parent() {
    let mut b = AppBackend::new(
        path(&["home", "user"]),
        listing(&[(EntryKind::File, &["home", "user", "a.txt"])]),
    )
    .unwrap();
    let parent = b.parent_path().unwrap();
    assert_eq!(parent.components(), &vec!["home".to_string()]);
    let parent_listing = listing(&[(EntryKind::Folder, &["home", "user"])]);
    let fetched = b.get_dirlist(&parent, Ok(parent_listing));
    b.select_left(fetched);
    assert_eq!(wd_components(&b), vec!["home"]);
    assert_eq!(middle_names(&b), vec!["user"]);
    assert_eq!(middle_state(&b), Some(0));
}

#[test]
fn failed_left_fetch_keeps_the_state() {
    let mut b = AppBackend::new(
        path(&["home", "user"]),
        listing(&[(EntryKind::File, &["home", "user", "a.txt"])]),
    )
    .unwrap();
    b.select_left(Err(NavError::IoError));
    // The entry attempt aborted; the tab keeps its last-known-good state.
    assert_eq!(wd_components(&b), vec!["home", "user"]);
    assert_eq!(middle_names(&b), vec!["a.txt"]);
}

#[test]
fn right_descends_into_the_selected_folder() {
    let mut b = AppBackend::new(
        path(&["top"]),
        listing(&[
            (EntryKind::Folder, &["top", "sub"]),
            (EntryKind::File, &["top", "f.txt"]),
        ]),
    )
    .unwrap();
    let target = b.descend_target().unwrap();
    assert_eq!(target.components(), &vec!["top".to_string(), "sub".to_string()]);
    let child = listing(&[(EntryKind::File, &["top", "sub", "inner.txt"])]);
    let fetched = b.get_dirlist(&target, Ok(child));
    b.select_right(fetched);
    assert_eq!(wd_components(&b), vec!["top", "sub"]);
    assert_eq!(middle_names(&b), vec!["inner.txt"]);
    assert_eq!(middle_state(&b), Some(0));
}

#[test]
fn right_on_a_file_selection_is_a_no_op() {
    let mut b = AppBackend::new(
        path(&["top"]),
        listing(&[(EntryKind::File, &["top", "f.txt"])]),
    )
    .unwrap();
    assert!(b.descend_target().is_none());
    b.select_right(Ok(listing(&[])));
    assert_eq!(wd_components(&b), vec!["top"]);
    assert_eq!(middle_names(&b), vec!["f.txt"]);
}

#[test]
fn failed_right_fetch_keeps_the_state() {
    let mut b = AppBackend::new(
        path(&["top"]),
        listing(&[(EntryKind::Folder, &["top", "locked"])]),
    )
    .unwrap();
    b.select_right(Err(NavError::IoError));
    assert_eq!(wd_components(&b), vec!["top"]);
    assert_eq!(middle_names(&b), vec!["locked"]);
}

#[test]
fn entering_resets_the_cursor() {
    let mut b = AppBackend::new(
        path(&["top"]),
        listing(&[
            (EntryKind::File, &["top", "a.txt"]),
            (EntryKind::Folder, &["top", "sub"]),
        ]),
    )
    .unwrap();
    // Move the cursor off the first item (onto the file, index 1).
    b.select_next();
    assert_eq!(middle_state(&b), Some(1));
    let child = listing(&[
        (EntryKind::File, &["top", "sub", "x.txt"]),
        (EntryKind::File, &["top", "sub", "y.txt"]),
    ]);
    // The selection at index 0 is the folder "sub".
    b.select_previous();
    let target = b.descend_target().unwrap();
    let fetched = b.get_dirlist(&target, Ok(child));
    b.select_right(fetched);
    assert_eq!(middle_state(&b), Some(0));
}

#[test]
fn denied_folder_shows_the_permission_marker() {
    let b = AppBackend::new(
        path(&["top"]),
        listing(&[(EntryKind::Folder, &["top", "locked"])]),
    )
    .unwrap();
    // The read-permission oracle refuses the selected folder.
    let plan = b.preview_plan(false);
    assert!(matches!(plan, PreviewPlan::Denied));
    // The denied plan hands out no path, so nothing is read; the view model
    // carries the marker.
    let state = b.get_new_state(None, plan, None);
    assert!(matches!(state.right_pane(), RightPane::PermissionDenied));
}

#[test]
fn permitted_folder_previews_its_listing() {
    let mut b = AppBackend::new(
        path(&["top"]),
        listing(&[(EntryKind::Folder, &["top", "sub"])]),
    )
    .unwrap();
    let plan = b.preview_plan(true);
    let target = match &plan {
        PreviewPlan::Fetch(p) => p.duplicate(),
        _ => panic!("a permitted folder selection plans a fetch"),
    };
    let child = listing(&[(EntryKind::File, &["top", "sub", "inner.txt"])]);
    let fetched = b.get_dirlist(&target, Ok(child)).ok();
    let state = b.get_new_state(None, plan, fetched);
    match state.right_pane() {
        RightPane::DirList(Some(dl)) => {
            assert_eq!(dl.get(0).unwrap().display_name(), "inner.txt");
        },
        _ => panic!("a permitted folder selection previews its listing"),
    }
}

#[test]
fn file_selection_previews_nothing() {
    let b = AppBackend::new(
        path(&["top"]),
        listing(&[(EntryKind::File, &["top", "f.txt"])]),
    )
    .unwrap();
    let plan = b.preview_plan(true);
    assert!(matches!(plan, PreviewPlan::NoPreview));
    let state = b.get_new_state(None, plan, None);
    assert!(matches!(state.right_pane(), RightPane::DirList(None)));
}

#[test]
fn end_to_end_scenario() {
    // A directory holding folders "b", "a" and file "z.txt", enumerated in
    // that order.
    let start = listing(&[
        (EntryKind::Folder, &["top", "b"]),
        (EntryKind::Folder, &["top", "a"]),
        (EntryKind::File, &["top", "z.txt"]),
    ]);
    let mut b = AppBackend::new(path(&["top"]), start).unwrap();
    // The built middle-pane ordering is folders-then-files, preserving read
    // order within each kind - not alphabetical.
    assert_eq!(middle_names(&b), vec!["b", "a", "z.txt"]);
    assert_eq!(middle_state(&b), Some(0));
    // Walk the cursor across all three items and back around.
    b.select_next();
    assert_eq!(middle_state(&b), Some(1));
    b.select_next();
    assert_eq!(middle_state(&b), Some(2));
    b.select_next();
    assert_eq!(middle_state(&b), Some(0));
    // Descend into "b", then step back out; the cursor is reset to 0.
    let target = b.descend_target().unwrap();
    let child = listing(&[(EntryKind::File, &["top", "b", "inside.txt"])]);
    let fetched = b.get_dirlist(&target, Ok(child));
    b.select_right(fetched);
    assert_eq!(wd_components(&b), vec!["top", "b"]);
    assert_eq!(middle_names(&b), vec!["inside.txt"]);
    let parent = b.parent_path().unwrap();
    // Stepping back out finds the parent listing already cached? No: only
    // "top/b" was cached; "top" needs a read, handed in here.
    let fetched = b.get_dirlist(
        &parent,
        Ok(listing(&[
            (EntryKind::Folder, &["top", "b"]),
            (EntryKind::Folder, &["top", "a"]),
            (EntryKind::File, &["top", "z.txt"]),
        ])),
    );
    b.select_left(fetched);
    assert_eq!(wd_components(&b), vec!["top"]);
    assert_eq!(middle_names(&b), vec!["b", "a", "z.txt"]);
    assert_eq!(middle_state(&b), Some(0));
}
