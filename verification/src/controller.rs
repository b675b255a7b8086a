//! The page controller: what a session asks of the content service while
//! it is to be loaded, and what the answers do to it.

use crate::index::lemma_index_kept;
use crate::items::{LoadError, MessageText};
use crate::loader::{refusal, Fetch, Fetched, Thumbnail};
use crate::session::{App, AppNoState, AppView};
use crate::states::{grid_with, in_grid, Item};
use vstd::prelude::*;

verus! {

/// What the widget in column `x` of row `y` asks of the content service.
#[derive(Clone, Debug, PartialEq, Eq)]
pub struct Request {
    pub x: usize,
    pub y: usize,
    pub fetch: Fetch,
}

impl App {
    /// What the widget in column `x` of row `y` asks of the content
    /// service.
    pub open spec fn request_at(self, x: int, y: int) -> Option<Fetch> {
        self.state@[y].items[x].item.request(
            self.page,
            self.search_text,
            self.search_settings,
            self.page_no,
        )
    }

    /// The requests of the first `n` widgets of row `y`, in column order.
    pub open spec fn row_requests(self, y: int, n: nat) -> Seq<Request>
        decreases n,
    {
        if n == 0 {
            Seq::empty()
        } else {
            let before = self.row_requests(y, (n - 1) as nat);
            match self.request_at(n - 1, y) {
                Some(fetch) => before.push(Request { x: (n - 1) as usize, y: y as usize, fetch }),
                None => before,
            }
        }
    }

    /// The requests of the widgets of the first `m` rows, in row order.
    pub open spec fn grid_requests(self, m: nat) -> Seq<Request>
        decreases m,
    {
        if m == 0 {
            Seq::empty()
        } else {
            self.grid_requests((m - 1) as nat) + self.row_requests(
                m - 1,
                self.state@[m - 1].items.len(),
            )
        }
    }

    /// What the session asks of the content service: while it is to be
    /// loaded, the requests of its widgets, row by row; otherwise nothing.
    pub open spec fn requests(self) -> Seq<Request> {
        if self.load {
            self.grid_requests(self.state@.len())
        } else {
            Seq::empty()
        }
    }

    /// Lists what the session asks of the content service.
    pub fn load_requests(&self) -> (list: Vec<Request>)
        ensures
            list@ == self.requests(),
    {
        let mut list: Vec<Request> = Vec::new();
        if !self.load {
            return list;
        }
        let mut y: usize = 0;
        while y < self.state.0.len()
            invariant
                y <= self.state.0@.len(),
                list@ == self.grid_requests(y as nat),
            decreases self.state.0.len() - y,
        {
            let ghost start = list@;
            let row = &self.state.0[y];
            let mut x: usize = 0;
            while x < row.items.len()
                invariant
                    y < self.state.0@.len(),
                    *row == self.state.0@[y as int],
                    x <= row.items@.len(),
                    list@ == start + self.row_requests(y as int, x as nat),
                decreases row.items.len() - x,
            {
                let fetch = row.items[x].item.load_request(
                    &self.page,
                    &self.search_text,
                    self.search_settings,
                    self.page_no,
                );
                if let Some(fetch) = fetch {
                    list.push(Request { x, y, fetch });
                }
                assert(list@ =~= start + self.row_requests(y as int, (x + 1) as nat));
                x = x + 1;
            }
            y = y + 1;
        }
        list
    }
}

impl AppView {
    /// The session after the widget in column `x` of row `y` took an
    /// answer and became `item`.
    pub open spec fn answered(self, x: int, y: int, item: Item) -> AppView {
        AppView { state: grid_with(self.state, x, y, item), ..self }
    }

    /// The session after an answer was refused with `error`: the message
    /// says why.
    pub open spec fn refused(self, error: LoadError) -> AppView {
        AppView { message: Some(error.text()), ..self }
    }

    /// The session after loading: no longer to be loaded, and to be drawn.
    pub open spec fn settled(self) -> AppView {
        AppView { load: false, render: true, ..self }
    }
}

impl App {
    /// Hands the answer of the content service to the widget in column `x`
    /// of row `y`. Where there is no such widget, nothing happens. A
    /// refused answer leaves the widget as it was and puts the error in the
    /// message. Otherwise the widget shows the answer, and the thumbnails
    /// that are to be fetched for it are returned.
    pub fn receive(self, x: usize, y: usize, response: Result<Fetched, String>) -> (done: (
        App,
        Vec<Thumbnail>,
    ))
        requires
            self.wf(),
        ensures
            done.0.wf(),
            !in_grid(self@.state, x as int, y as int) ==> done.0@ == self@ && done.1@.len() == 0,
            in_grid(self@.state, x as int, y as int) ==> match refusal(
                self.request_at(x as int, y as int),
                response,
            ) {
                Some(error) => done.0@ == self@.refused(error) && done.1@.len() == 0,
                None => ({
                    let item = done.0@.state[y as int].items[x as int].item;
                    &&& done.0@ == self@.answered(x as int, y as int, item)
                    &&& match self.request_at(x as int, y as int) {
                        Some(_) => item.shows(response.unwrap()) && done.1@ == item.pictures(
                            self.config.main,
                        ),
                        None => item == self@.state[y as int].items[x as int].item && done.1@.len()
                            == 0,
                    }
                }),
            },
    {
        if y >= self.state.0.len() {
            return (self, Vec::new());
        }
        if x >= self.state.0[y].items.len() {
            return (self, Vec::new());
        }
        let ghost before = self@;
        let ghost old_item = before.state[y as int].items[x as int].item;
        let (rest, mut state) = AppNoState::split(self);
        let outcome = state.0[y].items[x].item.load_item(&rest, response);
        let mut app = AppNoState::join(rest, state);
        proof {
            let item = app@.state[y as int].items[x as int].item;
            lemma_index_kept(before.state, x as int, y as int, item);
            app.state.lemma_fits();
            assert(app@.state[y as int].items =~= grid_with(
                before.state,
                x as int,
                y as int,
                item,
            )[y as int].items);
            assert(app@.state =~= grid_with(before.state, x as int, y as int, item));
        }
        match outcome {
            Ok(thumbnails) => (app, thumbnails),
            Err(error) => {
                proof {
                    assert(app@.state[y as int].items =~= before.state[y as int].items);
                    assert(app@.state =~= before.state);
                }
                app.message = MessageText::Text(error.message());
                (app, Vec::new())
            },
        }
    }

    /// Ends the loading of the session.
    pub fn loaded(&mut self)
        ensures
            final(self)@ == old(self)@.settled(),
            old(self).wf() ==> final(self).wf(),
    {
        self.load = false;
        self.render = true;
    }
}

} // verus!
