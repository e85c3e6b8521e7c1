//! The navigation engine: tabs plus the directory cache, mutated only by
//! the single update loop. Directory listings are read outside this engine
//! and handed in as plain values; every decision about them is made, and
//! proved, here.

use vstd::prelude::*;
use crate::cache::{DirectoryCache, get_or_build_view};
use crate::dir_list::{DirList, DirListView, total_len};
use crate::entry::{FileSystemItem, ItemView};
use crate::errors::NavError;
use crate::fs_path::AbsPath;
use crate::panes::{RightPane, ThreePaneLayoutState};
use crate::selection::{initial_state, next_state, prev_state};
use crate::tab::{Tab, Tabs};

verus! {

/// What the right pane needs next, given the current selection and the
/// read-permission oracle's answer for it: no preview (the selection is no
/// folder, or there is none), the permission marker, or a fetch of the
/// selected folder's listing. Only the `Fetch` plan carries a path to read:
/// a denied folder is never read.
pub enum PreviewPlan {
    NoPreview,
    Denied,
    Fetch(AbsPath),
}

/// The abstract value of a preview plan.
#[verifier::ext_equal]
pub ghost enum PreviewPlanView {
    NoPreview,
    Denied,
    Fetch(Seq<Seq<char>>),
}

impl View for PreviewPlan {
    type V = PreviewPlanView;

    open spec fn view(&self) -> PreviewPlanView {
        match self {
            PreviewPlan::NoPreview => PreviewPlanView::NoPreview,
            PreviewPlan::Denied => PreviewPlanView::Denied,
            PreviewPlan::Fetch(p) => PreviewPlanView::Fetch(p@),
        }
    }
}

/// The plan for a given selection and permission answer: a selected folder
/// is fetched when permitted and marked denied when not; anything else needs
/// no preview.
pub open spec fn preview_plan_view(selected: Option<ItemView>, permitted: bool) -> PreviewPlanView {
    match selected {
        Some(ItemView::Folder(e)) => if permitted {
            PreviewPlanView::Fetch(e.path)
        } else {
            PreviewPlanView::Denied
        },
        _ => PreviewPlanView::NoPreview,
    }
}

/// Permission modeling law: for a selected folder the oracle refuses, the
/// plan is the permission marker, which carries no path — so no read of
/// that folder is ever owed — and a fetch is only ever planned with
/// permission.
pub proof fn lemma_permission_denied(selected: Option<ItemView>)
    requires
        selected matches Some(it) && it matches ItemView::Folder(_),
    ensures
        preview_plan_view(selected, false) == PreviewPlanView::Denied,
        preview_plan_view(selected, true) matches PreviewPlanView::Fetch(_),
{
}

/// The engine: the directory cache and the tab collection. The terminal,
/// the filesystem and the input listener live outside; they hand in events
/// and freshly read listings and take back view models.
pub struct AppBackend {
    pub dirlist_cache: DirectoryCache,
    pub tabs: Tabs,
}

impl AppBackend {
    pub open spec fn wf(&self) -> bool {
        &&& self.tabs.wf()
        &&& self.dirlist_cache.wf()
    }

    /// The tab that receives keystroke-driven mutation.
    pub open spec fn active_tab(&self) -> Tab {
        self.tabs.spec_selected_tab()
    }

    /// The cache's contents.
    pub open spec fn spec_cache(&self) -> Map<Seq<Seq<char>>, DirListView> {
        self.dirlist_cache@
    }

    /// The selected folder's path, when the active tab's selection is a
    /// folder.
    pub open spec fn descend_target_view(&self) -> Option<Seq<Seq<char>>> {
        match self.active_tab().selected_item_view() {
            Some(it) => match it {
                ItemView::Folder(e) => Some(e.path),
                _ => None,
            },
            None => None,
        }
    }

    /// An engine showing the given directory and its listing in one tab,
    /// with an empty cache.
    pub fn new(initial_path: AbsPath, initial_list: DirList) -> (r: Result<AppBackend, NavError>)
        requires
            initial_list.wf(),
        ensures
            match r {
                Ok(b) => {
                    &&& b.wf()
                    &&& b.tabs.spec_tabs().len() == 1
                    &&& b.tabs.spec_selected_index() == 0
                    &&& b.active_tab().working_directory == initial_path
                    &&& b.active_tab().ui.mid_pane matches Some(mp) && mp.items == initial_list
                        && mp.state == initial_state(total_len(initial_list@))
                    &&& b.spec_cache() == Map::<Seq<Seq<char>>, DirListView>::empty()
                },
                Err(_) => false,
            },
    {
        let dirlist_cache = DirectoryCache::new();
        let tab = Tab::new(initial_path, initial_list);
        let mut tabs_vec: Vec<Tab> = Vec::new();
        tabs_vec.push(tab);
        match Tabs::new(tabs_vec) {
            Ok(tabs) => Ok(AppBackend { dirlist_cache, tabs }),
            Err(e) => Err(e),
        }
    }

    /// One forward cursor step in the active tab; everything else, the cache
    /// included, stays as it was.
    pub fn select_next(&mut self)
        requires
            old(self).wf(),
        ensures
            final(self).wf(),
            final(self).spec_cache() == old(self).spec_cache(),
            final(self).tabs.spec_tabs().len() == old(self).tabs.spec_tabs().len(),
            final(self).tabs.spec_selected_index() == old(self).tabs.spec_selected_index(),
            forall|i: int| 0 <= i < old(self).tabs.spec_tabs().len() && i != old(
                self,
            ).tabs.spec_selected_index() ==> final(self).tabs.spec_tabs()[i] == old(
                self,
            ).tabs.spec_tabs()[i],
            ({
                let t0 = old(self).active_tab();
                let t1 = final(self).active_tab();
                &&& t1.working_directory == t0.working_directory
                &&& t1.ui.dot_files_enabled == t0.ui.dot_files_enabled
                &&& match t0.ui.mid_pane {
                    None => t1.ui.mid_pane is None,
                    Some(mp) => t1.ui.mid_pane matches Some(mp2) && mp2.items == mp.items
                        && mp2.state == next_state(mp.state, total_len(mp.items@)),
                }
            }),
    {
        let tab = self.tabs.selected_tab_ref_mut();
        tab.ui.select_next();
    }

    /// One backward cursor step in the active tab; everything else, the
    /// cache included, stays as it was.
    pub fn select_previous(&mut self)
        requires
            old(self).wf(),
        ensures
            final(self).wf(),
            final(self).spec_cache() == old(self).spec_cache(),
            final(self).tabs.spec_tabs().len() == old(self).tabs.spec_tabs().len(),
            final(self).tabs.spec_selected_index() == old(self).tabs.spec_selected_index(),
            forall|i: int| 0 <= i < old(self).tabs.spec_tabs().len() && i != old(
                self,
            ).tabs.spec_selected_index() ==> final(self).tabs.spec_tabs()[i] == old(
                self,
            ).tabs.spec_tabs()[i],
            ({
                let t0 = old(self).active_tab();
                let t1 = final(self).active_tab();
                &&& t1.working_directory == t0.working_directory
                &&& t1.ui.dot_files_enabled == t0.ui.dot_files_enabled
                &&& match t0.ui.mid_pane {
                    None => t1.ui.mid_pane is None,
                    Some(mp) => t1.ui.mid_pane matches Some(mp2) && mp2.items == mp.items
                        && mp2.state == prev_state(mp.state, total_len(mp.items@)),
                }
            }),
    {
        let tab = self.tabs.selected_tab_ref_mut();
        tab.ui.select_previous();
    }

    /// The parent of the active tab's working directory, or nothing at the
    /// filesystem root.
    pub fn parent_path(&self) -> (r: Option<AbsPath>)
        requires
            self.wf(),
        ensures
            match r {
                Some(p) => self.active_tab().working_directory@.len() > 0 && p@
                    == self.active_tab().working_directory@.drop_last(),
                None => self.active_tab().working_directory@.len() == 0,
            },
    {
        self.tabs.selected_tab_ref().working_directory.parent()
    }

    /// The selected folder's path, when the active tab's selection is a
    /// folder; nothing when there is no selection or it is a file or
    /// symlink.
    pub fn descend_target(&self) -> (r: Option<AbsPath>)
        requires
            self.wf(),
        ensures
            match r {
                Some(p) => self.descend_target_view() == Some(p@),
                None => self.descend_target_view() is None,
            },
    {
        let tab = self.tabs.selected_tab_ref();
        match tab.selected_item() {
            Some(FileSystemItem::Folder(folder)) => Some(folder.path),
            _ => None,
        }
    }

    /// The cached listing for a path, if one is stored; no read is owed on a
    /// hit.
    pub fn cached_dirlist(&self, path: &AbsPath) -> (r: Option<DirList>)
        requires
            self.wf(),
        ensures
            match r {
                Some(dl) => self.spec_cache().contains_key(path@)
                    && dl@ == self.spec_cache()[path@] && dl.wf(),
                None => !self.spec_cache().contains_key(path@),
            },
    {
        self.dirlist_cache.lookup(path)
    }

    /// The memoized fetch of a path's listing: the cached one when stored,
    /// else the freshly read one, which is stored first; a failed read is
    /// returned as the error, stores nothing, and leaves every tab as it
    /// was.
    pub fn get_dirlist(&mut self, path: &AbsPath, fresh: Result<DirList, NavError>) -> (r: Result<
        DirList,
        NavError,
    >)
        requires
            old(self).wf(),
            fresh matches Ok(dl) ==> dl.wf(),
        ensures
            final(self).wf(),
            final(self).tabs == old(self).tabs,
            match fresh {
                Ok(dl) => {
                    let step = get_or_build_view(old(self).spec_cache(), path@, dl@);
                    &&& final(self).spec_cache() == step.0
                    &&& r matches Ok(out) && out@ == step.1 && out.wf()
                },
                Err(e) => {
                    &&& final(self).spec_cache() == old(self).spec_cache()
                    &&& if old(self).spec_cache().contains_key(path@) {
                        r matches Ok(out) && out@ == old(self).spec_cache()[path@] && out.wf()
                    } else {
                        r == Err::<DirList, NavError>(e)
                    }
                },
            },
    {
        self.dirlist_cache.get_or_build(path, fresh)
    }

    /// Descend into the selected folder, its freshly fetched listing in
    /// hand. A selection that is no folder is a no-op, not an error; so is a
    /// fetch that failed — the tab keeps its last-known-good directory and
    /// listing. The cache is not touched either way.
    pub fn select_right(&mut self, fetched: Result<DirList, NavError>)
        requires
            old(self).wf(),
            fetched matches Ok(dl) ==> dl.wf(),
        ensures
            final(self).wf(),
            final(self).spec_cache() == old(self).spec_cache(),
            final(self).tabs.spec_tabs().len() == old(self).tabs.spec_tabs().len(),
            final(self).tabs.spec_selected_index() == old(self).tabs.spec_selected_index(),
            forall|i: int| 0 <= i < old(self).tabs.spec_tabs().len() && i != old(
                self,
            ).tabs.spec_selected_index() ==> final(self).tabs.spec_tabs()[i] == old(
                self,
            ).tabs.spec_tabs()[i],
            match old(self).descend_target_view() {
                None => *final(self) == *old(self),
                Some(target) => match fetched {
                    Ok(dl) => {
                        let t0 = old(self).active_tab();
                        let t1 = final(self).active_tab();
                        &&& t1.working_directory@ == target
                        &&& t1.ui.mid_pane matches Some(mp) && mp.items == dl && mp.state
                            == initial_state(total_len(dl@))
                        &&& t1.ui.dot_files_enabled == t0.ui.dot_files_enabled
                    },
                    Err(_) => *final(self) == *old(self),
                },
            },
    {
        let target = self.descend_target();
        match target {
            Some(path) => match fetched {
                Ok(dl) => {
                    let tab = self.tabs.selected_tab_ref_mut();
                    tab.select(path, dl);
                },
                Err(_) => {},
            },
            None => {},
        }
    }

    /// Step out to the parent directory, its freshly fetched listing in
    /// hand. At the filesystem root there is no parent and this is a no-op:
    /// the working directory is unchanged. A fetch that failed is a no-op
    /// too — the tab keeps its last-known-good directory and listing. The
    /// cursor is reset to the first item, not to the child stepped out of.
    pub fn select_left(&mut self, fetched: Result<DirList, NavError>)
        requires
            old(self).wf(),
            fetched matches Ok(dl) ==> dl.wf(),
        ensures
            final(self).wf(),
            final(self).spec_cache() == old(self).spec_cache(),
            final(self).tabs.spec_tabs().len() == old(self).tabs.spec_tabs().len(),
            final(self).tabs.spec_selected_index() == old(self).tabs.spec_selected_index(),
            forall|i: int| 0 <= i < old(self).tabs.spec_tabs().len() && i != old(
                self,
            ).tabs.spec_selected_index() ==> final(self).tabs.spec_tabs()[i] == old(
                self,
            ).tabs.spec_tabs()[i],
            old(self).active_tab().working_directory@.len() == 0 ==> *final(self) == *old(self),
            old(self).active_tab().working_directory@.len() > 0 ==> match fetched {
                Ok(dl) => {
                    let t0 = old(self).active_tab();
                    let t1 = final(self).active_tab();
                    &&& t1.working_directory@ == t0.working_directory@.drop_last()
                    &&& t1.ui.mid_pane matches Some(mp) && mp.items == dl && mp.state
                        == initial_state(total_len(dl@))
                    &&& t1.ui.dot_files_enabled == t0.ui.dot_files_enabled
                },
                Err(_) => *final(self) == *old(self),
            },
    {
        let parent = self.parent_path();
        match parent {
            Some(path) => match fetched {
                Ok(dl) => {
                    let tab = self.tabs.selected_tab_ref_mut();
                    tab.select(path, dl);
                },
                Err(_) => {},
            },
            None => {},
        }
    }

    /// The right-pane plan for the active tab, given the permission oracle's
    /// answer on the selected folder (the answer is ignored when the
    /// selection is no folder).
    pub fn preview_plan(&self, permitted: bool) -> (r: PreviewPlan)
        requires
            self.wf(),
        ensures
            r@ == preview_plan_view(self.active_tab().selected_item_view(), permitted),
    {
        let tab = self.tabs.selected_tab_ref();
        match tab.selected_item() {
            Some(FileSystemItem::Folder(folder)) => if permitted {
                PreviewPlan::Fetch(folder.path)
            } else {
                PreviewPlan::Denied
            },
            _ => PreviewPlan::NoPreview,
        }
    }

    /// Assemble the view model for the presentation layer: the parent
    /// listing on the left (nothing at the root), and on the right what the
    /// plan dictates — the fetched child listing, the permission marker, or
    /// nothing. With the permission marker no child listing is consulted.
    pub fn get_new_state(&self, left_pane: Option<DirList>, plan: PreviewPlan, child: Option<
        DirList,
    >) -> (s: ThreePaneLayoutState)
        ensures
            s.spec_left() == left_pane,
            match plan {
                PreviewPlan::NoPreview => s.spec_right() == RightPane::DirList(None::<DirList>),
                PreviewPlan::Denied => s.spec_right() == RightPane::PermissionDenied,
                PreviewPlan::Fetch(_) => s.spec_right() == RightPane::DirList(child),
            },
    {
        let right = match plan {
            PreviewPlan::NoPreview => RightPane::DirList(None),
            PreviewPlan::Denied => RightPane::PermissionDenied,
            PreviewPlan::Fetch(_) => RightPane::DirList(child),
        };
        ThreePaneLayoutState::new(left_pane, right)
    }
}

} // verus!
