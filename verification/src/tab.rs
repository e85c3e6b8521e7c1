//! One browsing context — a working directory with its listing and cursor —
//! and the never-empty collection of such contexts with one active tab.

use vstd::prelude::*;
use crate::dir_list::{DirList, item_at_view, total_len};
use crate::entry::{FileSystemItem, ItemView};
use crate::errors::NavError;
use crate::fs_path::AbsPath;
use crate::panes::ThreePaneLayout;
use crate::selection::{DirSelectionList, initial_state};

verus! {

/// One browsing context: the working directory and the layout showing its
/// listing. The layout's middle pane is the listing of `working_directory`,
/// kept in lockstep by every mutating operation.
pub struct Tab {
    pub working_directory: AbsPath,
    pub ui: ThreePaneLayout,
}

impl Tab {
    pub open spec fn wf(&self) -> bool {
        self.ui.wf()
    }

    /// The item under the tab's cursor, if any.
    pub open spec fn selected_item_view(&self) -> Option<ItemView> {
        match self.ui.mid_pane {
            Some(mp) => match mp.state {
                Some(i) => item_at_view(mp.items@, i as int),
                None => None,
            },
            None => None,
        }
    }

    /// A tab showing the given directory and its listing, cursor freshly
    /// placed.
    pub fn new(working_directory: AbsPath, dir_list: DirList) -> (r: Tab)
        requires
            dir_list.wf(),
        ensures
            r.wf(),
            r.working_directory == working_directory,
            r.ui.mid_pane matches Some(mp) && mp.items == dir_list && mp.state == initial_state(
                total_len(dir_list@),
            ),
            r.ui.dot_files_enabled,
    {
        let ui = ThreePaneLayout::new(dir_list);
        Tab { working_directory, ui }
    }

    /// The item under the cursor: nothing when the middle pane is absent,
    /// the listing is empty, or the cursor is out of range.
    pub fn selected_item(&self) -> (r: Option<FileSystemItem>)
        ensures
            match r {
                Some(item) => self.selected_item_view() == Some(item@),
                None => self.selected_item_view() is None,
            },
    {
        match &self.ui.mid_pane {
            Some(mid_pane) => match mid_pane.state {
                Some(index) => mid_pane.items.get(index),
                None => None,
            },
            None => None,
        }
    }

    /// Enter a directory: replace the working directory and its listing
    /// together, the cursor reset to the first item of the new listing (or
    /// to nowhere when it is empty). An unconditional replace: the cursor's
    /// prior position is not preserved.
    pub fn select(&mut self, new_path: AbsPath, new_dir_list: DirList)
        requires
            new_dir_list.wf(),
        ensures
            final(self).wf(),
            final(self).working_directory == new_path,
            final(self).ui.mid_pane matches Some(mp) && mp.items == new_dir_list && mp.state
                == initial_state(total_len(new_dir_list@)),
            final(self).ui.dot_files_enabled == old(self).ui.dot_files_enabled,
    {
        self.working_directory = new_path;
        self.ui.mid_pane = Some(DirSelectionList::from(new_dir_list));
    }
}

/// Empty listing law, at the tab level: over an empty listing a well-formed
/// tab has no selected item.
pub proof fn lemma_empty_tab_selection(t: Tab)
    requires
        t.wf(),
        t.ui.mid_pane matches Some(mp) && total_len(mp.items@) == 0,
    ensures
        t.selected_item_view() is None,
{
}

/// The ordered, never-empty collection of tabs with one active tab.
pub struct Tabs {
    tabs_vec: Vec<Tab>,
    selected_index: usize,
}

impl Tabs {
    /// The tabs, in order.
    pub closed spec fn spec_tabs(&self) -> Seq<Tab> {
        self.tabs_vec@
    }

    /// Which tab is active.
    pub closed spec fn spec_selected_index(&self) -> int {
        self.selected_index as int
    }

    /// There is at least one tab, the active index is in range, and every
    /// tab is well-formed.
    pub open spec fn wf(&self) -> bool {
        &&& 0 < self.spec_tabs().len()
        &&& 0 <= self.spec_selected_index() < self.spec_tabs().len()
        &&& forall|i: int| 0 <= i < self.spec_tabs().len() ==> (#[trigger] self.spec_tabs()[i]).wf()
    }

    /// The active tab.
    pub open spec fn spec_selected_tab(&self) -> Tab {
        self.spec_tabs()[self.spec_selected_index()]
    }

    /// A collection of the given tabs, the first one active. An empty
    /// collection is refused at construction; no later operation can empty
    /// one.
    pub fn new(tabs_vec: Vec<Tab>) -> (r: Result<Tabs, NavError>)
        requires
            forall|i: int| 0 <= i < tabs_vec@.len() ==> (#[trigger] tabs_vec@[i]).wf(),
        ensures
            match r {
                Ok(t) => tabs_vec@.len() > 0 && t.wf() && t.spec_tabs() == tabs_vec@
                    && t.spec_selected_index() == 0,
                Err(e) => tabs_vec@.len() == 0 && e == NavError::InvalidConfiguration,
            },
    {
        if tabs_vec.is_empty() {
            Err(NavError::InvalidConfiguration)
        } else {
            Ok(Tabs { tabs_vec, selected_index: 0 })
        }
    }

    /// The active tab, read-only.
    pub fn selected_tab_ref(&self) -> (r: &Tab)
        requires
            self.wf(),
        ensures
            *r == self.spec_selected_tab(),
    {
        &self.tabs_vec[self.selected_index]
    }

    /// The active tab, for mutation in place. Whatever the caller makes of
    /// it becomes the active tab; the rest of the collection and the active
    /// index stay as they were.
    pub fn selected_tab_ref_mut(&mut self) -> (r: &mut Tab)
        requires
            old(self).wf(),
        ensures
            *r == old(self).spec_selected_tab(),
            final(self).spec_tabs() == old(self).spec_tabs().update(
                old(self).spec_selected_index(),
                *final(r),
            ),
            final(self).spec_selected_index() == old(self).spec_selected_index(),
    {
        &mut self.tabs_vec[self.selected_index]
    }
}

} // verus!
