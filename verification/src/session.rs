//! The session: the open page with its grid, the cursor, and the stack of
//! the sessions that led here.

use crate::apphistory::{AppHistory, AppHistoryView};
use crate::config::{Config, LayoutConfig};
use crate::index::{index_view, selectable_index};
use crate::items::{MessageText, SearchSettings, WatchHistory};
use crate::page::Page;
use crate::states::{fresh_grid, grid_fits, in_grid, rows_view, RowView, State};
use vstd::prelude::*;

verus! {

/// A session.
#[derive(Clone, Debug, PartialEq, Eq)]
pub struct App {
    pub config: Config,
    pub page: Page,
    pub state: State,
    pub selectable: Vec<Vec<(usize, usize)>>,
    /// The cursor: column and row in `selectable`.
    pub hover: Option<(usize, usize)>,
    /// The widget that takes the keys: column and row in `state`.
    pub selected: Option<(usize, usize)>,
    pub message: MessageText,
    pub load: bool,
    pub render: bool,
    pub popup_focus: bool,
    pub history: Vec<AppHistory>,
    pub watch_history: WatchHistory,
    pub search_settings: SearchSettings,
    pub search_text: String,
    pub search_index: usize,
    pub page_no: usize,
    pub term_clear: bool,
}

/// A session without its grid, for a widget to read and change while the
/// grid is borrowed.
#[derive(Clone, Debug, PartialEq, Eq)]
pub struct AppNoState {
    pub config: Config,
    pub page: Page,
    pub selectable: Vec<Vec<(usize, usize)>>,
    pub hover: Option<(usize, usize)>,
    pub selected: Option<(usize, usize)>,
    pub message: MessageText,
    pub load: bool,
    pub render: bool,
    pub popup_focus: bool,
    pub history: Vec<AppHistory>,
    pub watch_history: WatchHistory,
    pub search_settings: SearchSettings,
    pub search_text: String,
    pub search_index: usize,
    pub page_no: usize,
    pub term_clear: bool,
}

/// A session as a mathematical value.
#[verifier::ext_equal]
pub struct AppView {
    pub config: Config,
    pub page: Page,
    pub state: Seq<RowView>,
    pub selectable: Seq<Seq<(usize, usize)>>,
    pub hover: Option<(usize, usize)>,
    pub selected: Option<(usize, usize)>,
    pub message: Option<Seq<char>>,
    pub load: bool,
    pub render: bool,
    pub popup_focus: bool,
    pub history: Seq<AppHistoryView>,
    pub watch_history: WatchHistory,
    pub search_settings: SearchSettings,
    pub search_text: Seq<char>,
    pub search_index: usize,
    pub page_no: usize,
    pub term_clear: bool,
}

/// A stack of kept sessions as a mathematical value.
pub open spec fn history_view(history: Seq<AppHistory>) -> Seq<AppHistoryView> {
    Seq::new(history.len(), |i: int| history[i]@)
}

impl View for App {
    type V = AppView;

    open spec fn view(&self) -> AppView {
        AppView {
            config: self.config,
            page: self.page,
            state: self.state@,
            selectable: index_view(self.selectable),
            hover: self.hover,
            selected: self.selected,
            message: self.message@,
            load: self.load,
            render: self.render,
            popup_focus: self.popup_focus,
            history: history_view(self.history@),
            watch_history: self.watch_history,
            search_settings: self.search_settings,
            search_text: self.search_text@,
            search_index: self.search_index,
            page_no: self.page_no,
            term_clear: self.term_clear,
        }
    }
}

/// Whether a cursor points into a selectable index.
pub open spec fn hover_in(index: Seq<Seq<(usize, usize)>>, hover: Option<(usize, usize)>) -> bool {
    hover matches Some((x, y)) ==> y < index.len() && x < index[y as int].len()
}

/// Whether the selected coordinate names a widget that can take focus.
pub open spec fn selected_in(grid: Seq<RowView>, selected: Option<(usize, usize)>) -> bool {
    selected matches Some((x, y)) ==> in_grid(grid, x as int, y as int) && grid[y as int].items[x
        as int].item.can_focus()
}

/// The message of a return that had nowhere to go.
pub open spec fn beginning() -> Seq<char> {
    "This is the beginning of history"@
}

impl AppView {
    /// The invariant of a session: the index is that of the grid, the cursor
    /// points into the index, the selected widget is one that can take
    /// focus, and the same holds of every session on the stack.
    pub open spec fn wf(self) -> bool {
        &&& grid_fits(self.state)
        &&& self.selectable == selectable_index(self.state)
        &&& hover_in(self.selectable, self.hover)
        &&& selected_in(self.state, self.selected)
        &&& forall|i: int| 0 <= i < self.history.len() ==> (#[trigger] self.history[i]).wf()
    }

    /// What the stack keeps of the session.
    pub open spec fn kept(self) -> AppHistoryView {
        AppHistoryView {
            page: self.page,
            state: self.state,
            selectable: self.selectable,
            hover: self.hover,
            selected: self.selected,
            message: self.message,
            load: self.load,
            render: self.render,
            popup_focus: self.popup_focus,
            search_text: self.search_text,
            search_settings: self.search_settings,
            search_index: self.search_index,
            page_no: self.page_no,
        }
    }

    /// A session on `page` that has loaded nothing yet: the page's grid
    /// from the configuration, no cursor, no message, to be loaded and
    /// drawn.
    pub open spec fn begun(
        config: Config,
        watch_history: WatchHistory,
        search_settings: SearchSettings,
        page: Page,
        history: Seq<AppHistoryView>,
        search_text: Seq<char>,
    ) -> AppView {
        let grid = fresh_grid(rows_view(config.of(page).rows@));
        AppView {
            config,
            page,
            state: grid,
            selectable: selectable_index(grid),
            hover: None,
            selected: None,
            message: None,
            load: true,
            render: true,
            popup_focus: false,
            history,
            watch_history,
            search_settings,
            search_text,
            search_index: 0,
            page_no: 1,
            term_clear: false,
        }
    }

    /// The session that a program starts with: the home page, an empty
    /// stack, the first search settings.
    pub open spec fn start(config: Config, watch_history: WatchHistory) -> AppView {
        AppView::begun(
            config,
            watch_history,
            SearchSettings::initial(),
            Page::home(),
            Seq::empty(),
            Seq::empty(),
        )
    }

    /// The session after `page` was opened from it: a session begun on
    /// `page`, with this one on top of the stack. The configuration, the
    /// watch history and the search settings go along; the search text goes
    /// along into the search page only.
    pub open spec fn opened(self, page: Page) -> AppView {
        AppView::begun(
            self.config,
            self.watch_history,
            self.search_settings,
            page,
            self.history.push(self.kept()),
            if page == Page::Search {
                self.search_text
            } else {
                Seq::empty()
            },
        )
    }

    /// The session after a return. With an empty stack only the message
    /// changes. Otherwise the top of the stack is taken off and restored;
    /// the configuration, the watch history and the search settings stay
    /// those of the session that is left.
    pub open spec fn popped(self) -> (AppView, bool) {
        if self.history.len() == 0 {
            (AppView { message: Some(beginning()), ..self }, false)
        } else {
            let kept = self.history.last();
            (
                AppView {
                    config: self.config,
                    page: kept.page,
                    state: kept.state,
                    selectable: kept.selectable,
                    hover: kept.hover,
                    selected: kept.selected,
                    message: kept.message,
                    load: kept.load,
                    render: kept.render,
                    popup_focus: kept.popup_focus,
                    history: self.history.drop_last(),
                    watch_history: self.watch_history,
                    search_settings: self.search_settings,
                    search_text: kept.search_text,
                    search_index: kept.search_index,
                    page_no: kept.page_no,
                    term_clear: false,
                },
                true,
            )
        }
    }
}

impl AppNoState {
    /// The session that `self` and `state` make together.
    pub open spec fn with(self, state: State) -> App {
        App {
            config: self.config,
            page: self.page,
            state,
            selectable: self.selectable,
            hover: self.hover,
            selected: self.selected,
            message: self.message,
            load: self.load,
            render: self.render,
            popup_focus: self.popup_focus,
            history: self.history,
            watch_history: self.watch_history,
            search_settings: self.search_settings,
            search_text: self.search_text,
            search_index: self.search_index,
            page_no: self.page_no,
            term_clear: self.term_clear,
        }
    }

    /// Takes the grid out of a session.
    pub fn split(app: App) -> (parts: (Self, State))
        ensures
            parts.0 == app.rest(),
            parts.1 == app.state,
            parts.0.with(parts.1) == app,
    {
        let out = Self {
            config: app.config,
            page: app.page,
            selectable: app.selectable,
            hover: app.hover,
            selected: app.selected,
            message: app.message,
            load: app.load,
            render: app.render,
            popup_focus: app.popup_focus,
            history: app.history,
            watch_history: app.watch_history,
            search_settings: app.search_settings,
            search_text: app.search_text,
            search_index: app.search_index,
            page_no: app.page_no,
            term_clear: app.term_clear,
        };
        (out, app.state)
    }

    /// Puts a grid back into a session.
    pub fn join(app: Self, state: State) -> (whole: App)
        ensures
            whole == app.with(state),
    {
        App {
            config: app.config,
            page: app.page,
            selectable: app.selectable,
            hover: app.hover,
            selected: app.selected,
            message: app.message,
            load: app.load,
            render: app.render,
            popup_focus: app.popup_focus,
            history: app.history,
            watch_history: app.watch_history,
            search_settings: app.search_settings,
            search_text: app.search_text,
            search_index: app.search_index,
            page_no: app.page_no,
            state,
            term_clear: app.term_clear,
        }
    }
}

impl App {
    /// The session without its grid.
    pub open spec fn rest(self) -> AppNoState {
        AppNoState {
            config: self.config,
            page: self.page,
            selectable: self.selectable,
            hover: self.hover,
            selected: self.selected,
            message: self.message,
            load: self.load,
            render: self.render,
            popup_focus: self.popup_focus,
            history: self.history,
            watch_history: self.watch_history,
            search_settings: self.search_settings,
            search_text: self.search_text,
            search_index: self.search_index,
            page_no: self.page_no,
            term_clear: self.term_clear,
        }
    }

    /// The invariant of a session, stated of its view.
    pub open spec fn wf(self) -> bool {
        self@.wf()
    }

    /// The session that a program starts with.
    pub fn new(config: Config, watch_history: WatchHistory) -> (app: App)
        ensures
            app@ == AppView::start(config, watch_history),
            app.wf(),
    {
        let page = Page::new();
        let state = State::fresh(&config.layout(&page).rows);
        proof {
            state.lemma_fits();
        }
        let selectable = App::selectable(&state);
        let history: Vec<AppHistory> = Vec::new();
        let app = App {
            page,
            state,
            selectable,
            selected: None,
            hover: None,
            message: MessageText::Empty,
            load: true,
            render: true,
            popup_focus: false,
            history,
            config,
            watch_history,
            search_settings: SearchSettings::new(),
            search_text: String::new(),
            search_index: 0,
            page_no: 1,
            term_clear: false,
        };
        assert(app@.history =~= Seq::empty());
        assert(app@.search_text =~= Seq::empty());
        app
    }

    /// Opens `page` from this session: keeps this session on the stack and
    /// begins a new one.
    pub fn open(self, page: Page) -> (next: App)
        requires
            self.wf(),
        ensures
            next@ == self@.opened(page),
            next.wf(),
    {
        let state = State::fresh(&self.config.layout(&page).rows);
        proof {
            state.lemma_fits();
        }
        let selectable = App::selectable(&state);
        let search_text = match page {
            Page::Search => self.search_text.clone(),
            _ => String::new(),
        };
        let ghost before = self@;
        let App {
            config,
            page: old_page,
            state: old_state,
            selectable: old_selectable,
            hover,
            selected,
            message,
            load,
            render,
            popup_focus,
            history,
            watch_history,
            search_settings,
            search_text: old_text,
            search_index,
            page_no,
            term_clear,
        } = self;
        let mut history = history;
        let kept = AppHistory {
            page: old_page,
            state: old_state,
            selectable: old_selectable,
            hover,
            selected,
            message,
            load,
            render,
            popup_focus,
            search_text: old_text,
            search_settings,
            search_index,
            page_no,
        };
        assert(kept@ == before.kept());
        history.push(kept);
        let next = App {
            config,
            page,
            state,
            selectable,
            hover: None,
            selected: None,
            message: MessageText::Empty,
            load: true,
            render: true,
            popup_focus: false,
            history,
            watch_history,
            search_settings,
            search_text,
            search_index: 0,
            page_no: 1,
            term_clear: false,
        };
        assert(next@.history =~= before.history.push(before.kept()));
        assert(next@.search_text =~= before.opened(page).search_text);
        next
    }

    /// Returns to the session that this one was opened from. The flag says
    /// whether there was one.
    pub fn pop(self) -> (back: (App, bool))
        requires
            self.wf(),
        ensures
            back.0@ == self@.popped().0,
            back.1 == self@.popped().1,
            back.0.wf(),
    {
        let mut app = self;
        if app.history.len() == 0 {
            app.message = MessageText::Text("This is the beginning of history".to_string());
            return (app, false);
        }
        let ghost before = app@;
        let kept = app.history.pop().unwrap();
        let next = App {
            state: kept.state,
            selectable: kept.selectable,
            selected: kept.selected,
            hover: kept.hover,
            message: kept.message,
            page: kept.page,
            load: kept.load,
            render: kept.render,
            history: app.history,
            config: app.config,
            watch_history: app.watch_history,
            search_settings: app.search_settings,
            popup_focus: kept.popup_focus,
            search_text: kept.search_text,
            search_index: kept.search_index,
            page_no: kept.page_no,
            term_clear: false,
        };
        assert(next@.history =~= before.history.drop_last());
        assert(kept@ == before.history.last());
        (next, true)
    }

    /// Starts over: the stack is dropped and the session is the one a
    /// program starts with, under the same configuration and watch history.
    pub fn home(&mut self)
        ensures
            final(self)@ == AppView::start(old(self).config, old(self).watch_history),
            final(self).wf(),
    {
        let page = Page::new();
        let state = State::fresh(&self.config.layout(&page).rows);
        proof {
            state.lemma_fits();
        }
        self.selectable = App::selectable(&state);
        self.state = state;
        self.page = page;
        self.hover = None;
        self.selected = None;
        self.message = MessageText::Empty;
        self.load = true;
        self.render = true;
        self.popup_focus = false;
        self.history = Vec::new();
        self.search_settings = SearchSettings::new();
        self.search_text = String::new();
        self.search_index = 0;
        self.page_no = 1;
        self.term_clear = false;
        assert(self@.history =~= Seq::empty());
        assert(self@.search_text =~= Seq::empty());
    }

    /// What is configured of the open page.
    pub fn page_layout(&self) -> (layout: &LayoutConfig)
        ensures
            *layout == self.config.of(self.page),
    {
        self.config.layout(&self.page)
    }

    /// Where the cursor is put when the open page opens, if anywhere.
    pub fn page_default(&self) -> (cursor: Option<(usize, usize)>)
        ensures
            cursor == self.config.of(self.page).def_selected,
    {
        self.config.layout(&self.page).def_selected
    }
}

/// A session that opens a page is well formed if the session it came from
/// is.
pub proof fn lemma_opened_wf(app: AppView, page: Page)
    requires
        app.wf(),
    ensures
        app.opened(page).wf(),
        app.opened(page).history.len() == app.history.len() + 1,
{
    let rows = app.config.of(page).rows;
    let grid = fresh_grid(rows_view(rows@));
    assert(rows@.len() == rows.len());
    assert forall|y: int| 0 <= y < grid.len() implies (#[trigger] grid[y]).items.len()
        <= usize::MAX by {
        assert(rows@[y].items@.len() == rows@[y].items.len());
    }
    let next = app.opened(page);
    assert forall|i: int| 0 <= i < next.history.len() implies (#[trigger] next.history[i]).wf() by {
        if i < app.history.len() {
            assert(next.history[i] == app.history[i]);
        }
    }
}

/// The session that a return gives is well formed if the returning session
/// is.
pub proof fn lemma_popped_wf(app: AppView)
    requires
        app.wf(),
    ensures
        app.popped().0.wf(),
{
    if app.history.len() > 0 {
        let next = app.popped().0;
        assert(app.history.last().wf());
        assert forall|i: int| 0 <= i < next.history.len() implies (
        #[trigger] next.history[i]).wf() by {
            assert(next.history[i] == app.history[i]);
        }
    }
}

/// A return after a page was opened gives back the session that the page
/// was opened from: every field that the stack keeps is as it was. The
/// configuration, the watch history and the search settings are those that
/// the returning session has; the flag that asks to clear the terminal is
/// off.
pub proof fn lemma_pop_restores(later: AppView, earlier: AppView)
    requires
        later.history == earlier.history.push(earlier.kept()),
    ensures
        later.popped().1,
        later.popped().0 == (AppView {
            config: later.config,
            watch_history: later.watch_history,
            search_settings: later.search_settings,
            term_clear: false,
            ..earlier
        }),
{
    assert(later.history.drop_last() =~= earlier.history);
}

/// Opening a page and returning at once changes nothing but the flag that
/// asks to clear the terminal, which is then off.
pub proof fn lemma_open_then_pop(app: AppView, page: Page)
    ensures
        app.opened(page).popped() == ((AppView { term_clear: false, ..app }), true),
{
    lemma_pop_restores(app.opened(page), app);
}

/// A return with an empty stack changes the message and nothing else, and
/// says that it went nowhere.
pub proof fn lemma_pop_at_beginning(app: AppView)
    requires
        app.history.len() == 0,
    ensures
        !app.popped().1,
        app.popped().0 == (AppView { message: Some(beginning()), ..app }),
        app.popped().0.history.len() == 0,
{
}

/// A return takes exactly one session off a stack that holds one.
pub proof fn lemma_pop_length(app: AppView)
    requires
        app.history.len() > 0,
    ensures
        app.popped().0.history.len() == app.history.len() - 1,
        app.popped().0.history == app.history.drop_last(),
{
}

} // verus!
