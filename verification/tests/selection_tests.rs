use fsnav::dir_list::DirList;
use fsnav::entry::{EntryKind, RawEntry};
use fsnav::fs_path::AbsPath;
use fsnav::selection::DirSelectionList;

fn path(components: &[&str]) -> AbsPath {
    AbsPath::from_components(components.iter().map(|c| c.to_string()).collect())
}

fn listing(file_names: &[&str]) -> DirList {
    let entries: Vec<RawEntry> = file_names
        .iter()
        .map(|n| RawEntry { kind: EntryKind::File, path: path(&["d", n]) })
        .collect();
    DirList::new(entries).unwrap()
}

#[test]
fn wraps_forward_after_n_steps() {
    // N forward steps from index 0 return to index 0.
    let mut sel = DirSelectionList::from(listing(&["a", "b", "c", "d"]));
    assert_eq!(sel.state, Some(0));
    for step in 1..4usize {
        sel.select_next();
        assert_eq!(sel.state, Some(step));
    }
    sel.select_next();
    assert_eq!(sel.state, Some(0));
}

#[test]
fn wraps_backward_from_first_to_last() {
    // One backward step from index 0 yields index N-1.
    let mut sel = DirSelectionList::from(listing(&["a", "b", "c", "d"]));
    sel.select_previous();
    assert_eq!(sel.state, Some(3));
    sel.select_previous();
    assert_eq!(sel.state, Some(2));
}

#[test]
fn single_item_always_wraps_to_itself() {
    let mut sel = DirSelectionList::from(listing(&["only"]));
    sel.select_next();
    assert_eq!(sel.state, Some(0));
    sel.select_previous();
    assert_eq!(sel.state, Some(0));
}

#[test]
fn empty_listing_keeps_no_selection() {
    let mut sel = DirSelectionList::from(listing(&[]));
    assert_eq!(sel.state, None);
    sel.select_next();
    assert_eq!(sel.state, None);
    sel.select_previous();
    assert_eq!(sel.state, None);
}

#[test]
fn select_places_the_cursor() {
    let mut sel = DirSelectionList::from(listing(&["a", "b", "c"]));
    sel.select(2);
    assert_eq!(sel.state, Some(2));
}
