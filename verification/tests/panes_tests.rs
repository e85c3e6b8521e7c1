use fsnav::dir_list::DirList;
use fsnav::entry::{EntryKind, RawEntry};
use fsnav::errors::NavError;
use fsnav::fs_path::AbsPath;
use fsnav::panes::{DirListUI, RightPane, ThreePaneLayout, ThreePaneLayoutState};

fn path(components: &[&str]) -> AbsPath {
    AbsPath::from_components(components.iter().map(|c| c.to_string()).collect())
}

fn listing(entries: &[(EntryKind, &[&str])]) -> DirList {
    let raws: Vec<RawEntry> = entries
        .iter()
        .map(|(kind, components)| RawEntry { kind: *kind, path: path(components) })
        .collect();
    DirList::new(raws).unwrap()
}

#[test]
fn flat_name_list_keeps_kind_priority_order() {
    let dl = listing(&[
        (EntryKind::Symlink, &["d", "ln"]),
        (EntryKind::File, &["d", "f.txt"]),
        (EntryKind::Folder, &["d", "sub"]),
    ]);
    let ui = DirListUI::from(dl.folders(), dl.files(), dl.symlinks());
    assert_eq!(ui.items, vec!["sub", "f.txt", "ln"]);
}

#[test]
fn layout_starts_on_the_first_item() {
    let layout = ThreePaneLayout::new(listing(&[(EntryKind::File, &["d", "a.txt"])]));
    assert_eq!(layout.mid_pane.as_ref().unwrap().state, Some(0));
    assert!(layout.dot_files_enabled);
}

#[test]
fn default_layout_shows_nothing() {
    let layout = ThreePaneLayout::default();
    assert!(layout.mid_pane.is_none());
    // Cursor moves on an absent middle pane change nothing.
    let mut layout = layout;
    layout.select_next();
    layout.select_previous();
    assert!(layout.mid_pane.is_none());
}

#[test]
fn layout_moves_its_cursor() {
    let mut layout = ThreePaneLayout::new(listing(&[
        (EntryKind::File, &["d", "a.txt"]),
        (EntryKind::File, &["d", "b.txt"]),
    ]));
    layout.select_next();
    assert_eq!(layout.mid_pane.as_ref().unwrap().state, Some(1));
    layout.select_next();
    assert_eq!(layout.mid_pane.as_ref().unwrap().state, Some(0));
    layout.select_previous();
    assert_eq!(layout.mid_pane.as_ref().unwrap().state, Some(1));
}

#[test]
fn layout_state_carries_its_panes() {
    let left = listing(&[(EntryKind::Folder, &["d"])]);
    let state = ThreePaneLayoutState::new(Some(left), RightPane::PermissionDenied);
    assert!(state.left_pane().is_some());
    assert!(matches!(state.right_pane(), RightPane::PermissionDenied));

    let state = ThreePaneLayoutState::new(None, RightPane::DirList(None));
    assert!(state.left_pane().is_none());
    assert!(matches!(state.right_pane(), RightPane::DirList(None)));
}

#[test]
fn error_messages_name_their_cause() {
    assert!(NavError::IoError.message().contains("directory"));
    assert!(NavError::InvalidConfiguration.message().contains("tab"));
    assert!(NavError::ChannelDisconnected.message().contains("listener"));
}
