//! The three-pane view model: the middle pane's listing-with-cursor, the
//! left (parent) and right (child or preview) panes, and the flat list of
//! display names a presentation layer paints.

use vstd::prelude::*;
use crate::dir_list::{DirList, DirListView, total_len};
use crate::entry::{EntryView, File, Folder, Symlink};
use crate::selection::{DirSelectionList, initial_state, next_state, prev_state};

verus! {

/// The abstract value of a right pane.
#[verifier::ext_equal]
pub ghost enum RightPaneView {
    Listing(Option<DirListView>),
    PermissionDenied,
}

/// What the right pane shows: a child listing (or nothing, when the
/// selection is no folder or there is no selection), or the permission
/// marker for a selected folder the process may not read. The marker is a
/// modeled state, not an error: browsing past it stays possible.
pub enum RightPane {
    DirList(Option<DirList>),
    PermissionDenied,
}

impl View for RightPane {
    type V = RightPaneView;

    open spec fn view(&self) -> RightPaneView {
        match self {
            RightPane::DirList(Some(dl)) => RightPaneView::Listing(Some(dl@)),
            RightPane::DirList(None) => RightPaneView::Listing(None),
            RightPane::PermissionDenied => RightPaneView::PermissionDenied,
        }
    }
}

/// The middle pane of one tab: the current listing with its cursor, and the
/// presentation-side dotfile toggle. The toggle is not part of the cache
/// key: flipping it does not re-partition listings already cached.
pub struct ThreePaneLayout {
    pub mid_pane: Option<DirSelectionList>,
    pub dot_files_enabled: bool,
}

impl ThreePaneLayout {
    /// A present middle pane carries a well-formed cursor.
    pub open spec fn wf(&self) -> bool {
        match self.mid_pane {
            Some(mp) => mp.wf(),
            None => true,
        }
    }

    /// A layout showing the given listing, cursor freshly placed.
    pub fn new(dir_list: DirList) -> (r: ThreePaneLayout)
        requires
            dir_list.wf(),
        ensures
            r.wf(),
            r.mid_pane matches Some(mp) && mp.items == dir_list && mp.state == initial_state(
                total_len(dir_list@),
            ),
            r.dot_files_enabled,
    {
        ThreePaneLayout { mid_pane: Some(DirSelectionList::from(dir_list)), dot_files_enabled: true }
    }

    /// A layout with nothing to show yet.
    pub fn default() -> (r: ThreePaneLayout)
        ensures
            r.wf(),
            r.mid_pane is None,
            r.dot_files_enabled,
    {
        ThreePaneLayout { mid_pane: None, dot_files_enabled: true }
    }

    /// One forward cursor step in the middle pane, if there is one.
    pub fn select_next(&mut self)
        requires
            old(self).wf(),
        ensures
            final(self).wf(),
            final(self).dot_files_enabled == old(self).dot_files_enabled,
            match old(self).mid_pane {
                None => final(self).mid_pane is None,
                Some(mp) => final(self).mid_pane matches Some(mp2) && mp2.items == mp.items
                    && mp2.state == next_state(mp.state, total_len(mp.items@)),
            },
    {
        match &mut self.mid_pane {
            Some(mp) => mp.select_next(),
            None => {},
        }
    }

    /// One backward cursor step in the middle pane, if there is one.
    pub fn select_previous(&mut self)
        requires
            old(self).wf(),
        ensures
            final(self).wf(),
            final(self).dot_files_enabled == old(self).dot_files_enabled,
            match old(self).mid_pane {
                None => final(self).mid_pane is None,
                Some(mp) => final(self).mid_pane matches Some(mp2) && mp2.items == mp.items
                    && mp2.state == prev_state(mp.state, total_len(mp.items@)),
            },
    {
        match &mut self.mid_pane {
            Some(mp) => mp.select_previous(),
            None => {},
        }
    }
}

/// The ephemeral remainder of the view model, rebuilt on every state change
/// and consumed at once by the presentation layer: the parent listing on the
/// left (nothing at the filesystem root) and the right pane.
pub struct ThreePaneLayoutState {
    left_pane: Option<DirList>,
    right_pane: RightPane,
}

impl ThreePaneLayoutState {
    pub fn new(left_pane: Option<DirList>, right_pane: RightPane) -> (r: ThreePaneLayoutState)
        ensures
            r.spec_left() == left_pane,
            r.spec_right() == right_pane,
    {
        ThreePaneLayoutState { left_pane, right_pane }
    }

    pub closed spec fn spec_left(&self) -> Option<DirList> {
        self.left_pane
    }

    pub closed spec fn spec_right(&self) -> RightPane {
        self.right_pane
    }

    /// The parent listing, or nothing at the filesystem root.
    pub fn left_pane(&self) -> (r: &Option<DirList>)
        ensures
            r == self.spec_left(),
    {
        &self.left_pane
    }

    /// The right pane.
    pub fn right_pane(&self) -> (r: &RightPane)
        ensures
            r == self.spec_right(),
    {
        &self.right_pane
    }
}

/// The display names of a partition, in order.
pub open spec fn names_of(s: Seq<EntryView>) -> Seq<Seq<char>> {
    s.map_values(|e: EntryView| e.name)
}

/// The flat, render-ready list of display names of one listing: folders
/// first, then files, then symlinks.
pub struct DirListUI {
    pub items: Vec<String>,
}

impl DirListUI {
    /// The names of the given partitions, concatenated in kind-priority
    /// order.
    pub fn from(folders: &Vec<Folder>, files: &Vec<File>, symlinks: &Vec<Symlink>) -> (r: DirListUI)
        ensures
            r.items.deep_view() == names_of(folders.deep_view()) + names_of(files.deep_view())
                + names_of(symlinks.deep_view()),
    {
        let mut items: Vec<String> = Vec::new();
        let nf: usize = folders.len();
        let nfi: usize = files.len();
        let ns: usize = symlinks.len();
        for i in 0..nf
            invariant
                nf == folders.len(),
                items@.len() == i,
                forall|j: int| 0 <= j < i ==> items@[j]@ == folders@[j]@.name,
        {
            items.push(folders[i].display_name());
        }
        for i in 0..nfi
            invariant
                nf == folders.len(),
                nfi == files.len(),
                items@.len() == nf + i,
                forall|j: int| 0 <= j < nf ==> items@[j]@ == folders@[j]@.name,
                forall|j: int| 0 <= j < i ==> items@[nf + j]@ == files@[j]@.name,
        {
            items.push(files[i].display_name());
        }
        for i in 0..ns
            invariant
                nf == folders.len(),
                nfi == files.len(),
                ns == symlinks.len(),
                items@.len() == nf + nfi + i,
                forall|j: int| 0 <= j < nf ==> items@[j]@ == folders@[j]@.name,
                forall|j: int| 0 <= j < nfi ==> items@[nf + j]@ == files@[j]@.name,
                forall|j: int| 0 <= j < i ==> items@[nf + nfi + j]@ == symlinks@[j]@.name,
        {
            items.push(symlinks[i].display_name());
        }
        let r = DirListUI { items };
        proof {
            let full = names_of(folders.deep_view()) + names_of(files.deep_view()) + names_of(
                symlinks.deep_view(),
            );
            assert forall|j: int| 0 <= j < full.len() implies r.items.deep_view()[j] == full[j] by {
                assert(r.items.deep_view()[j] == r.items@[j]@);
                if j < nf {
                    assert(folders.deep_view()[j] == folders@[j]@);
                } else if j < nf + nfi {
                    assert(files.deep_view()[j - nf] == files@[j - nf]@);
                } else {
                    assert(symlinks.deep_view()[j - nf - nfi] == symlinks@[j - nf - nfi]@);
                }
            }
            assert(r.items.deep_view() =~= full);
        }
        r
    }
}

} // verus!
