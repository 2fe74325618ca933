//! The decisions of the main loop: what each consumed event does to the
//! application state, and what the loop must do next.
use vstd::prelude::*;
use crate::table::{rows_spec, rows_view, table_rows, Rect};
use crate::ticker::{filter_spec, filter_tickers, SymbolFilter, Ticker};

verus! {

/// A key read from the terminal.
#[derive(Clone, Copy, Debug, PartialEq, Eq, Structural)]
pub enum Key {
    Char(char),
    Other,
}

/// The key that ends the program.
pub const QUIT_CHAR: char = 'q';

/// Whether `key` is the quit key.
pub open spec fn is_quit_spec(key: Key) -> bool {
    key == Key::Char(QUIT_CHAR)
}

/// Whether `key` is the quit key; the keyboard reader stops after sending it.
pub fn is_quit(key: Key) -> (r: bool)
    ensures
        r == is_quit_spec(key),
{
    match key {
        Key::Char(c) => c == QUIT_CHAR,
        Key::Other => false,
    }
}

/// An event that the loop consumes: a key press or a timer tick.
#[derive(Clone, Copy, Debug, PartialEq, Eq, Structural)]
pub enum Event {
    Input(Key),
    Tick,
}

/// Whether the loop still runs.
#[derive(Clone, Copy, Debug, PartialEq, Eq, Structural)]
pub enum Phase {
    Running,
    Terminated,
}

/// What the loop does after consuming an event.
#[derive(Clone, Copy, Debug, PartialEq, Eq, Structural)]
pub enum Action {
    /// Restore the terminal and leave, without drawing again.
    Quit,
    /// Fetch a fresh batch, hand it to `App::apply_fetch`, then draw.
    Fetch,
    /// Draw the table.
    Render,
}

/// Why a fetch brought no batch.
#[derive(Clone, Copy, Debug, PartialEq, Eq, Structural)]
pub enum FetchError {
    /// The request failed: name resolution, connection or timeout.
    Network,
    /// The body was not an array of complete records.
    Decode,
}

/// The phase after consuming `e` in phase `p`.
pub open spec fn next_phase(p: Phase, e: Event) -> Phase {
    match (p, e) {
        (Phase::Running, Event::Input(k)) => if is_quit_spec(k) { Phase::Terminated } else { Phase::Running },
        (Phase::Running, Event::Tick) => Phase::Running,
        (Phase::Terminated, _) => Phase::Terminated,
    }
}

/// The action after consuming `e` in phase `p`.
pub open spec fn next_action(p: Phase, e: Event) -> Action {
    match (p, e) {
        (Phase::Running, Event::Input(k)) => if is_quit_spec(k) { Action::Quit } else { Action::Render },
        (Phase::Running, Event::Tick) => Action::Fetch,
        (Phase::Terminated, _) => Action::Quit,
    }
}

/// The actions taken while consuming `events` in order, from phase `p`.
pub open spec fn actions_of(p: Phase, events: Seq<Event>) -> Seq<Action>
    decreases events.len(),
{
    if events.len() == 0 {
        Seq::empty()
    } else {
        seq![next_action(p, events[0])] + actions_of(next_phase(p, events[0]), events.drop_first())
    }
}

/// The state owned by the main loop.
pub struct App {
    pub size: Rect,
    pub tickers: Vec<Ticker>,
    pub phase: Phase,
}

/// What is drawn: the area of the table and its rows.
pub struct TableView {
    pub area: Rect,
    pub rows: Vec<Vec<String>>,
}

/// The table drawn for the state `app`: its area and the texts of its rows.
pub open spec fn table_spec(app: App) -> (Rect, Seq<Seq<Seq<char>>>) {
    (app.size, rows_spec(app.tickers@))
}

impl App {
    /// A running loop with no records and an empty area.
    pub fn new() -> (r: App)
        ensures
            r.tickers@.len() == 0,
            r.size == (Rect { x: 0, y: 0, width: 0, height: 0 }),
            r.phase == Phase::Running,
    {
        App { size: Rect::zero(), tickers: Vec::new(), phase: Phase::Running }
    }

    /// Takes the terminal size measured before waiting for the next event;
    /// returns whether it changed, so that the drawing surface is resized.
    pub fn resize(&mut self, size: Rect) -> (changed: bool)
        ensures
            changed == (old(self).size != size),
            final(self).size == size,
            final(self).tickers@ == old(self).tickers@,
            final(self).phase == old(self).phase,
    {
        let changed = self.size != size;
        self.size = size;
        changed
    }

    /// Consumes one event: the quit key ends the loop, a tick asks for a
    /// fetch, any other key asks for a draw. Once ended, every event says quit.
    pub fn on_event(&mut self, e: Event) -> (a: Action)
        ensures
            a == next_action(old(self).phase, e),
            final(self).phase == next_phase(old(self).phase, e),
            final(self).size == old(self).size,
            final(self).tickers@ == old(self).tickers@,
    {
        match self.phase {
            Phase::Terminated => Action::Quit,
            Phase::Running => match e {
                Event::Input(k) => {
                    if is_quit(k) {
                        self.phase = Phase::Terminated;
                        Action::Quit
                    } else {
                        Action::Render
                    }
                },
                Event::Tick => Action::Fetch,
            },
        }
    }

    /// Takes the outcome of a fetch: a batch replaces the records wholesale,
    /// filtered and in its own order; on an error the records shown stay as
    /// they were. Either way the table is drawn next.
    pub fn apply_fetch(&mut self, result: Result<Vec<Ticker>, FetchError>, filter: &SymbolFilter) -> (a: Action)
        ensures
            a == Action::Render,
            final(self).size == old(self).size,
            final(self).phase == old(self).phase,
            match result {
                Ok(batch) => final(self).tickers@ == filter_spec(batch@, filter@),
                Err(_) => final(self).tickers@ == old(self).tickers@,
            },
    {
        match result {
            Ok(batch) => {
                self.tickers = filter_tickers(batch, filter);
            },
            Err(_) => {},
        }
        Action::Render
    }

    /// The table to draw for this state.
    pub fn table(&self) -> (r: TableView)
        ensures
            (r.area, rows_view(r.rows@)) == table_spec(*self),
    {
        TableView { area: self.size, rows: table_rows(&self.tickers) }
    }
}

proof fn lemma_actions_len(p: Phase, events: Seq<Event>)
    ensures
        actions_of(p, events).len() == events.len(),
    decreases events.len(),
{
    if events.len() > 0 {
        lemma_actions_len(next_phase(p, events[0]), events.drop_first());
    }
}

proof fn lemma_terminated_only_quits(events: Seq<Event>)
    ensures
        forall|i: int| 0 <= i < events.len() ==> #[trigger] actions_of(Phase::Terminated, events)[i] == Action::Quit,
    decreases events.len(),
{
    lemma_actions_len(Phase::Terminated, events);
    if events.len() > 0 {
        let rest = events.drop_first();
        lemma_terminated_only_quits(rest);
        lemma_actions_len(Phase::Terminated, rest);
        assert forall|i: int| 0 <= i < events.len() implies #[trigger] actions_of(Phase::Terminated, events)[i]
            == Action::Quit by {
            if i > 0 {
                assert(actions_of(Phase::Terminated, events)[i] == actions_of(Phase::Terminated, rest)[i - 1]);
            }
        }
    }
}

/// Once the quit key is consumed the loop is ended, and no later event, a tick
/// included, leads to a fetch.
pub proof fn lemma_quit_stops_fetching(p: Phase, events: Seq<Event>)
    requires
        events.len() > 0,
        events[0] == Event::Input(Key::Char(QUIT_CHAR)),
    ensures
        next_phase(p, events[0]) == Phase::Terminated,
        actions_of(p, events)[0] == Action::Quit,
        forall|i: int| 0 <= i < events.len() ==> #[trigger] actions_of(p, events)[i] != Action::Fetch,
{
    lemma_terminated_only_quits(events.drop_first());
    lemma_actions_len(Phase::Terminated, events.drop_first());
    let rest = actions_of(Phase::Terminated, events.drop_first());
    assert forall|i: int| 0 <= i < events.len() implies #[trigger] actions_of(p, events)[i] != Action::Fetch by {
        if i > 0 {
            assert(actions_of(p, events)[i] == rest[i - 1]);
        }
    }
}

/// The table drawn depends on the area and the records alone, not on the
/// phase or on earlier draws: drawing twice from an unchanged state draws the
/// same table.
pub proof fn lemma_table_is_a_function_of_state(a: App, b: App)
    requires
        a.size == b.size,
        a.tickers@ == b.tickers@,
    ensures
        table_spec(a) == table_spec(b),
{
}

} // verus!
