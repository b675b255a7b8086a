//! What a session keeps of the session it came from.

use crate::index::{index_view, selectable_index};
use crate::items::{MessageText, SearchSettings};
use crate::page::Page;
use crate::session::{hover_in, selected_in, App};
use crate::states::{grid_fits, RowView, State};
use vstd::prelude::*;

verus! {

/// A session as it was before a page was opened from it: everything but
/// the configuration, the watch history and the stack itself.
#[derive(Clone, Debug, PartialEq, Eq)]
pub struct AppHistory {
    pub page: Page,
    pub state: State,
    pub selectable: Vec<Vec<(usize, usize)>>,
    pub hover: Option<(usize, usize)>,
    pub selected: Option<(usize, usize)>,
    pub message: MessageText,
    pub load: bool,
    pub render: bool,
    pub popup_focus: bool,
    pub search_text: String,
    pub search_settings: SearchSettings,
    pub search_index: usize,
    pub page_no: usize,
}

/// A kept session as a mathematical value.
#[verifier::ext_equal]
pub struct AppHistoryView {
    pub page: Page,
    pub state: Seq<RowView>,
    pub selectable: Seq<Seq<(usize, usize)>>,
    pub hover: Option<(usize, usize)>,
    pub selected: Option<(usize, usize)>,
    pub message: Option<Seq<char>>,
    pub load: bool,
    pub render: bool,
    pub popup_focus: bool,
    pub search_text: Seq<char>,
    pub search_settings: SearchSettings,
    pub search_index: usize,
    pub page_no: usize,
}

impl View for AppHistory {
    type V = AppHistoryView;

    open spec fn view(&self) -> AppHistoryView {
        AppHistoryView {
            page: self.page,
            state: self.state@,
            selectable: index_view(self.selectable),
            hover: self.hover,
            selected: self.selected,
            message: self.message@,
            load: self.load,
            render: self.render,
            popup_focus: self.popup_focus,
            search_text: self.search_text@,
            search_settings: self.search_settings,
            search_index: self.search_index,
            page_no: self.page_no,
        }
    }
}

impl AppHistoryView {
    /// The invariant of a kept session: the index is that of the grid, the
    /// cursor points into the index, and the selected widget is one that
    /// can take focus.
    pub open spec fn wf(self) -> bool {
        &&& grid_fits(self.state)
        &&& self.selectable == selectable_index(self.state)
        &&& hover_in(self.selectable, self.hover)
        &&& selected_in(self.state, self.selected)
    }
}

impl AppHistory {
    /// Keeps of `app` what a later return to it restores.
    pub fn from(app: App) -> (kept: AppHistory)
        ensures
            kept@ == app@.kept(),
    {
        Self {
            page: app.page,
            state: app.state,
            selectable: app.selectable,
            hover: app.hover,
            selected: app.selected,
            message: app.message,
            load: app.load,
            render: app.render,
            popup_focus: app.popup_focus,
            search_text: app.search_text,
            search_settings: app.search_settings,
            search_index: app.search_index,
            page_no: app.page_no,
        }
    }
}

} // verus!
