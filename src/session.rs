use std::ops::ControlFlow;

use vstd::prelude::*;

use crate::cursor::{cut, next_word_index, prev_word_index, Cursor, WordJumpMode};
use crate::settings::{initial_filter_mode, next_filter_mode, ExitMode, FilterMode, Settings};
use crate::text::{chars_of_str, same_chars};

verus! {

/// The outside type of a release version, carried opaquely as a pending
/// update notice.
#[verifier::external_type_specification]
#[verifier::external_body]
pub struct ExVersion(semver::Version);

/// The most records one query may return.
pub const RESULT_LIMIT: usize = 200;

/// One record of shell history.
#[derive(Clone, Debug)]
pub struct History {
    pub id: String,
    pub command: String,
}

/// Which row of the result list is selected, and how many rows fit on screen.
#[derive(Clone, Copy, Debug, PartialEq, Eq, Structural)]
pub struct ListState {
    pub selected: usize,
    pub max_entries: usize,
}

impl ListState {
    /// No rows yet, the first one selected.
    pub fn new() -> (r: ListState)
        ensures
            r.selected == 0,
            r.max_entries == 0,
    {
        ListState { selected: 0, max_entries: 0 }
    }

    pub fn selected(&self) -> (r: usize)
        ensures
            r == self.selected,
    {
        self.selected
    }

    pub fn select(&mut self, i: usize)
        ensures
            *final(self) == (ListState { selected: i, ..*old(self) }),
    {
        self.selected = i;
    }

    pub fn max_entries(&self) -> (r: usize)
        ensures
            r == self.max_entries,
    {
        self.max_entries
    }

    /// Records how many rows the last render could show.
    pub fn set_max_entries(&mut self, n: usize)
        ensures
            *final(self) == (ListState { max_entries: n, ..*old(self) }),
    {
        self.max_entries = n;
    }
}

#[derive(Clone, Copy, Debug, PartialEq, Eq, Structural)]
pub enum Line {
    Up,
    Down,
}

#[derive(Clone, Copy, Debug, PartialEq, Eq, Structural)]
pub enum For {
    Page,
    SingleLine,
}

#[derive(Clone, Copy, Debug, PartialEq, Eq, Structural)]
pub enum Towards {
    Left,
    Right,
}

#[derive(Clone, Copy, Debug, PartialEq, Eq, Structural)]
pub enum To {
    Word,
    Char,
    Edge,
}

/// A semantic action of the search session.
pub enum Event {
    Input(char),
    Selection(Line, For),
    Cursor(Towards, To),
    Delete(Towards, To),
    Clear,
    Exit,
    UpdateNeeded(semver::Version),
    Cancel,
    SelectN(u32),
    CycleFilterMode,
}

/// The selection after a move, kept on the list: the last row where the list
/// is non-empty, row 0 where it is empty.
pub open spec fn clamp_index(i: int, len: int) -> int {
    if len == 0 {
        0
    } else if i < len - 1 {
        i
    } else {
        len - 1
    }
}

/// `a - b`, or 0 where `b` exceeds `a`.
pub open spec fn sat_sub(a: int, b: int) -> int {
    if a > b {
        a - b
    } else {
        0
    }
}

/// Query text and caret after an editing event.
pub open spec fn edited(t: Seq<char>, p: int, e: Event, w: Seq<char>, m: WordJumpMode) -> (Seq<char>, int) {
    match e {
        Event::Input(c) => (t.insert(p, c), p + 1),
        Event::Cursor(Towards::Left, To::Char) => (t, sat_sub(p, 1)),
        Event::Cursor(Towards::Right, To::Char) => (t, if p < t.len() { p + 1 } else { p }),
        Event::Cursor(Towards::Left, To::Word) => (t, prev_word_index(t, p, w, m)),
        Event::Cursor(Towards::Right, To::Word) => (t, next_word_index(t, p, w, m)),
        Event::Cursor(Towards::Left, To::Edge) => (t, 0),
        Event::Cursor(Towards::Right, To::Edge) => (t, t.len() as int),
        Event::Delete(Towards::Left, To::Word) => {
            let q = prev_word_index(t, p, w, m);
            (cut(t, q, p), q)
        },
        Event::Delete(Towards::Left, To::Char) => if p > 0 {
            (t.remove(p - 1), p - 1)
        } else {
            (t, p)
        },
        Event::Delete(Towards::Left, To::Edge) => (t.subrange(p, t.len() as int), 0),
        Event::Delete(Towards::Right, To::Word) => (cut(t, p, next_word_index(t, p, w, m)), p),
        Event::Delete(Towards::Right, To::Char) => if p < t.len() {
            (t.remove(p), p)
        } else {
            (t, p)
        },
        Event::Delete(Towards::Right, To::Edge) => (t.subrange(0, p), p),
        Event::Clear => (Seq::empty(), 0),
        _ => (t, p),
    }
}

/// The selection after a selection event that does not end the session;
/// other events keep it.
pub open spec fn selection_after(sel: int, len: int, page: int, e: Event) -> int {
    match e {
        Event::Selection(Line::Up, For::SingleLine) => clamp_index(sel + 1, len),
        Event::Selection(Line::Down, For::SingleLine) => sel - 1,
        Event::Selection(Line::Down, For::Page) => sat_sub(sel, page),
        Event::Selection(Line::Up, For::Page) => clamp_index(sel + page, len),
        _ => sel,
    }
}

/// What `SelectN` resolves to: the query text while the offset row lies on
/// the list, the record at that row otherwise.
#[derive(Clone, Copy, Debug, PartialEq, Eq, Structural)]
pub enum SelectOutcome {
    UseQueryText,
    UseRecord(usize),
}

pub open spec fn select_outcome(sel: int, n: int, len: int) -> SelectOutcome {
    if sel + n < len {
        SelectOutcome::UseQueryText
    } else {
        SelectOutcome::UseRecord(if sel + n <= usize::MAX { (sel + n) as usize } else { usize::MAX })
    }
}

/// Decides what `SelectN(n)` with row `selected` selected and `len` rows
/// listed resolves to.
pub fn select_n_outcome(selected: usize, n: u32, len: usize) -> (r: SelectOutcome)
    ensures
        r == select_outcome(selected as int, n as int, len as int),
{
    let i = selected.saturating_add(n as usize);
    if i < len {
        SelectOutcome::UseQueryText
    } else {
        SelectOutcome::UseRecord(i)
    }
}

/// The command of the record at `i`, or nothing where `i` lies past the list.
pub open spec fn command_at(h: Seq<History>, i: int) -> Seq<char> {
    if 0 <= i < h.len() {
        h[i].command@
    } else {
        Seq::empty()
    }
}

/// The string that ends the session on event `e`, if `e` ends it.
pub open spec fn outcome(s: State, e: Event) -> Option<Seq<char>> {
    match e {
        Event::Cancel => Some(Seq::empty()),
        Event::Exit => Some(
            match s.settings.exit_mode {
                ExitMode::ReturnOriginal => Seq::empty(),
                ExitMode::ReturnQuery => s.input.text(),
            },
        ),
        Event::Selection(Line::Down, For::SingleLine) => if s.results_state.selected == 0 {
            Some(Seq::empty())
        } else {
            None
        },
        Event::SelectN(n) => Some(
            match select_outcome(s.results_state.selected as int, n as int, s.history@.len() as int) {
                SelectOutcome::UseQueryText => s.input.text(),
                SelectOutcome::UseRecord(i) => command_at(s.history@, i as int),
            },
        ),
        _ => None,
    }
}

/// The rows one page move skips: the visible rows less the overlap kept.
pub open spec fn page_size(s: State) -> int {
    sat_sub(s.results_state.max_entries as int, s.settings.scroll_context_lines as int)
}

/// The session state after an event that does not end the session.
pub open spec fn next_state(s: State, t: State, e: Event) -> bool {
    let (text, pos) = edited(s.input.text(), s.input.pos(), e, s.settings.word_chars@, s.settings.word_jump_mode);
    &&& t.input.text() == text
    &&& t.input.pos() == pos
    &&& t.results_state.selected == selection_after(
        s.results_state.selected as int,
        s.history@.len() as int,
        page_size(s),
        e,
    )
    &&& t.results_state.max_entries == s.results_state.max_entries
    &&& t.filter_mode == (if e is CycleFilterMode { next_filter_mode(s.filter_mode) } else { s.filter_mode })
    &&& t.update_needed == (match e {
        Event::UpdateNeeded(v) => Some(v),
        _ => s.update_needed,
    })
    &&& t.history == s.history
    &&& t.history_count == s.history_count
    &&& t.settings == s.settings
}

/// The state of one interactive search.
pub struct State {
    pub filter_mode: FilterMode,
    pub results_state: ListState,
    pub input: Cursor,
    pub history: Vec<History>,
    pub history_count: i64,
    pub settings: Settings,
    pub update_needed: Option<semver::Version>,
}

impl State {
    /// The caret lies within the query, the list holds at most
    /// `RESULT_LIMIT` records, and the selection lies on the list (row 0
    /// where it is empty).
    pub open spec fn wf(&self) -> bool {
        &&& self.input.wf()
        &&& self.history@.len() <= RESULT_LIMIT
        &&& self.history@.len() == 0 ==> self.results_state.selected == 0
        &&& self.history@.len() > 0 ==> self.results_state.selected < self.history@.len()
    }

    /// Applies one event. A terminal event ends the session with its string;
    /// any other gives the next state. Moving down from the top row is
    /// terminal: it ends the session with an empty string.
    ///
    /// `SelectN` whose row lies past the list ends the session with an empty
    /// string, as no record stands there.
    pub fn handle(self, event: Event) -> (r: ControlFlow<String, State>)
        requires
            self.wf(),
        ensures
            match r {
                ControlFlow::Break(out) => outcome(self, event) == Some(out@),
                ControlFlow::Continue(t) => {
                    &&& outcome(self, event) is None
                    &&& next_state(self, t, event)
                    &&& t.wf()
                },
            },
    {
        let mut st = self;
        let len = st.history.len();
        match event {
            Event::Selection(Line::Up, For::SingleLine) => {
                let i = st.results_state.selected() + 1;
                st.results_state.select(if len == 0 { 0 } else if i < len - 1 { i } else { len - 1 });
            },
            Event::Selection(Line::Down, For::SingleLine) => {
                let sel = st.results_state.selected();
                if sel == 0 {
                    return ControlFlow::Break(String::new());
                }
                st.results_state.select(sel - 1);
            },
            Event::Selection(Line::Down, For::Page) => {
                let scroll_len = st.results_state.max_entries().saturating_sub(
                    st.settings.scroll_context_lines,
                );
                let i = st.results_state.selected().saturating_sub(scroll_len);
                st.results_state.select(i);
            },
            Event::Selection(Line::Up, For::Page) => {
                let scroll_len = st.results_state.max_entries().saturating_sub(
                    st.settings.scroll_context_lines,
                );
                let i = st.results_state.selected().saturating_add(scroll_len);
                st.results_state.select(if len == 0 { 0 } else if i < len - 1 { i } else { len - 1 });
            },
            Event::Cursor(Towards::Left, To::Char) => st.input.left(),
            Event::Cursor(Towards::Right, To::Char) => st.input.right(),
            Event::Cursor(Towards::Left, To::Word) => st.input.prev_word(
                &st.settings.word_chars,
                st.settings.word_jump_mode,
            ),
            Event::Cursor(Towards::Right, To::Word) => st.input.next_word(
                &st.settings.word_chars,
                st.settings.word_jump_mode,
            ),
            Event::Cursor(Towards::Left, To::Edge) => st.input.start(),
            Event::Cursor(Towards::Right, To::Edge) => st.input.end(),
            Event::Input(c) => st.input.insert(c),
            Event::Delete(Towards::Left, To::Word) => st.input.remove_prev_word(
                &st.settings.word_chars,
                st.settings.word_jump_mode,
            ),
            Event::Delete(Towards::Left, To::Char) => st.input.back(),
            Event::Delete(Towards::Left, To::Edge) => st.input.clear_from_start(),
            Event::Delete(Towards::Right, To::Word) => st.input.remove_next_word(
                &st.settings.word_chars,
                st.settings.word_jump_mode,
            ),
            Event::Delete(Towards::Right, To::Char) => st.input.remove(),
            Event::Delete(Towards::Right, To::Edge) => st.input.clear_to_end(),
            Event::Clear => st.input.clear(),
            Event::Cancel => {
                return ControlFlow::Break(String::new());
            },
            Event::Exit => {
                return ControlFlow::Break(
                    match st.settings.exit_mode {
                        ExitMode::ReturnOriginal => String::new(),
                        ExitMode::ReturnQuery => st.input.into_inner(),
                    },
                );
            },
            Event::SelectN(n) => {
                return ControlFlow::Break(
                    match select_n_outcome(st.results_state.selected(), n, len) {
                        SelectOutcome::UseQueryText => st.input.into_inner(),
                        SelectOutcome::UseRecord(i) => {
                            if i < len {
                                st.history.swap_remove(i).command
                            } else {
                                String::new()
                            }
                        },
                    },
                );
            },
            Event::UpdateNeeded(version) => {
                st.update_needed = Some(version);
            },
            Event::CycleFilterMode => {
                st.filter_mode = st.filter_mode.next();
            },
        }
        ControlFlow::Continue(st)
    }
}

/// The words of a query joined by single spaces.
pub open spec fn joined(q: Seq<Seq<char>>) -> Seq<char>
    decreases q.len(),
{
    if q.len() == 0 {
        Seq::empty()
    } else if q.len() == 1 {
        q[0]
    } else {
        joined(q.drop_last()) + seq![' '] + q.last()
    }
}

/// The views of a slice of strings.
pub open spec fn views(q: Seq<String>) -> Seq<Seq<char>> {
    q.map_values(|s: String| s@)
}

fn join_words(query: &[String]) -> (r: Vec<char>)
    ensures
        r@ == joined(views(query@)),
{
    let mut r: Vec<char> = Vec::new();
    let mut i: usize = 0;
    while i < query.len()
        invariant
            i <= query@.len(),
            r@ == joined(views(query@.subrange(0, i as int))),
        decreases query@.len() - i,
    {
        let w = chars_of_str(query[i].as_str());
        if i > 0 {
            r.push(' ');
        }
        let mut j: usize = 0;
        let ghost before = r@;
        while j < w.len()
            invariant
                j <= w@.len(),
                r@ == before + w@.subrange(0, j as int),
            decreases w@.len() - j,
        {
            r.push(w[j]);
            assert((before + w@.subrange(0, j as int)).push(w@[j as int]) =~= before
                + w@.subrange(0, j + 1));
            j = j + 1;
        }
        proof {
            let a = views(query@.subrange(0, i as int));
            let b = views(query@.subrange(0, i + 1));
            assert(b.drop_last() =~= a);
            assert(b.last() == query@[i as int]@);
            assert(w@.subrange(0, j as int) =~= w@);
            if i == 0 {
                assert(b.len() == 1);
                assert(r@ =~= joined(b));
            } else {
                assert(r@ =~= joined(b));
            }
        }
        i = i + 1;
    }
    assert(query@.subrange(0, query@.len() as int) =~= query@);
    r
}

/// The request a refresh makes of the store: the most recent records under
/// the filter mode where the query is empty, a search for the query text
/// otherwise; never more than `RESULT_LIMIT` records.
#[derive(Clone, Debug)]
pub enum Query {
    List { filter_mode: FilterMode, limit: usize },
    Search { search_mode: crate::settings::SearchMode, filter_mode: FilterMode, text: String, limit: usize },
}

impl State {
    /// A session seeded with the words of `query` joined by spaces, the caret
    /// at its end, no records yet and the first row selected. Its records
    /// come from a first `refresh_query`.
    pub fn new(query: &[String], settings: Settings, history_count: i64) -> (r: State)
        ensures
            r.wf(),
            r.input.text() == joined(views(query@)),
            r.input.pos() == r.input.text().len(),
            r.filter_mode == initial_filter_mode(settings),
            r.history@.len() == 0,
            r.results_state.selected == 0,
            r.history_count == history_count,
            r.update_needed is None,
            r.settings == settings,
    {
        let text = join_words(query);
        let mut input = Cursor::from(crate::text::string_of_chars(&text));
        input.end();
        let filter_mode = settings.initial_filter_mode();
        State {
            filter_mode,
            results_state: ListState::new(),
            input,
            history: Vec::new(),
            history_count,
            settings,
            update_needed: None,
        }
    }

    /// What a refresh asks of the store for the current query and filter.
    pub fn query(&self) -> (r: Query)
        ensures
            match r {
                Query::List { filter_mode, limit } => {
                    &&& self.input.text().len() == 0
                    &&& filter_mode == self.filter_mode
                    &&& limit == RESULT_LIMIT
                },
                Query::Search { search_mode, filter_mode, text, limit } => {
                    &&& self.input.text().len() > 0
                    &&& search_mode == self.settings.search_mode
                    &&& filter_mode == self.filter_mode
                    &&& text@ == self.input.text()
                    &&& limit == RESULT_LIMIT
                },
            },
    {
        let text = self.input.as_string();
        if self.input.chars().len() == 0 {
            Query::List { filter_mode: self.filter_mode, limit: RESULT_LIMIT }
        } else {
            Query::Search {
                search_mode: self.settings.search_mode,
                filter_mode: self.filter_mode,
                text,
                limit: RESULT_LIMIT,
            }
        }
    }

    /// Takes the records the store returned for `query()`, at most
    /// `RESULT_LIMIT` of them in the order given, and selects the first row.
    pub fn refresh_query(&mut self, records: Vec<History>)
        requires
            old(self).wf(),
        ensures
            final(self).wf(),
            final(self).history@ == records@.subrange(
                0,
                if records@.len() <= RESULT_LIMIT { records@.len() as int } else { RESULT_LIMIT as int },
            ),
            final(self).history@.len() <= RESULT_LIMIT,
            final(self).results_state.selected == 0,
            final(self).results_state.max_entries == old(self).results_state.max_entries,
            final(self).input == old(self).input,
            final(self).filter_mode == old(self).filter_mode,
            final(self).settings == old(self).settings,
            final(self).history_count == old(self).history_count,
            final(self).update_needed == old(self).update_needed,
    {
        let mut records = records;
        if records.len() > RESULT_LIMIT {
            records.truncate(RESULT_LIMIT);
        }
        self.history = records;
        self.results_state.select(0);
    }
}

/// One redraw cycle's worth of events applied to a session, with the query
/// text and filter mode it started from.
pub struct Guard {
    initial_input: Vec<char>,
    initial_filter_mode: FilterMode,
    inner: State,
}

/// A refresh is owed where the query text or the filter mode moved away from
/// what the batch started from.
pub open spec fn needs_refresh(initial_input: Seq<char>, initial_filter_mode: FilterMode, s: State) -> bool {
    initial_input != s.input.text() || initial_filter_mode != s.filter_mode
}

/// A read-only projection of the session for drawing.
pub struct SessionView<'a> {
    pub history_count: i64,
    pub input: &'a Cursor,
    pub filter_mode: FilterMode,
    pub results_state: &'a ListState,
    pub update_needed: Option<&'a semver::Version>,
    pub history: &'a [History],
}

impl State {
    /// Opens a batch over the session, taking note of its query text and
    /// filter mode.
    pub fn start_batch(self) -> (r: Guard)
        ensures
            r.initial_input() == self.input.text(),
            r.initial_filter_mode() == self.filter_mode,
            r.inner() == self,
    {
        let initial_input = chars_of_input(&self.input);
        Guard { initial_input, initial_filter_mode: self.filter_mode, inner: self }
    }

    /// The fields a render reads.
    pub fn view(&self) -> (r: SessionView<'_>)
        ensures
            r.history_count == self.history_count,
            *r.input == self.input,
            r.filter_mode == self.filter_mode,
            *r.results_state == self.results_state,
            r.history@ == self.history@,
            r.update_needed is Some <==> self.update_needed is Some,
    {
        SessionView {
            history_count: self.history_count,
            input: &self.input,
            filter_mode: self.filter_mode,
            results_state: &self.results_state,
            update_needed: self.update_needed.as_ref(),
            history: self.history.as_slice(),
        }
    }
}

fn chars_of_input(c: &Cursor) -> (r: Vec<char>)
    ensures
        r@ == c.text(),
{
    let cs = c.chars();
    let mut r: Vec<char> = Vec::new();
    let mut i: usize = 0;
    while i < cs.len()
        invariant
            i <= cs@.len(),
            r@ == cs@.subrange(0, i as int),
        decreases cs@.len() - i,
    {
        r.push(cs[i]);
        assert(cs@.subrange(0, i as int).push(cs@[i as int]) =~= cs@.subrange(0, i + 1));
        i = i + 1;
    }
    assert(cs@.subrange(0, cs@.len() as int) =~= cs@);
    r
}

impl Guard {
    pub closed spec fn initial_input(&self) -> Seq<char> {
        self.initial_input@
    }

    pub closed spec fn initial_filter_mode(&self) -> FilterMode {
        self.initial_filter_mode
    }

    pub closed spec fn inner(&self) -> State {
        self.inner
    }

    /// Applies one event to the session in the batch; a terminal event ends
    /// the batch and the session with its string.
    pub fn handle(self, event: Event) -> (r: ControlFlow<String, Guard>)
        requires
            self.inner().wf(),
        ensures
            match r {
                ControlFlow::Break(out) => outcome(self.inner(), event) == Some(out@),
                ControlFlow::Continue(g) => {
                    &&& outcome(self.inner(), event) is None
                    &&& next_state(self.inner(), g.inner(), event)
                    &&& g.inner().wf()
                    &&& g.initial_input() == self.initial_input()
                    &&& g.initial_filter_mode() == self.initial_filter_mode()
                },
            },
    {
        let Guard { initial_input, initial_filter_mode, inner } = self;
        match inner.handle(event) {
            ControlFlow::Continue(inner) => ControlFlow::Continue(
                Guard { initial_input, initial_filter_mode, inner },
            ),
            ControlFlow::Break(result) => ControlFlow::Break(result),
        }
    }

    /// Closes the batch: hands the session back and says whether its results
    /// must be refreshed, which is so exactly where the query text or the
    /// filter mode changed during the batch.
    pub fn finish(self) -> (r: (State, bool))
        ensures
            r.0 == self.inner(),
            r.1 == needs_refresh(self.initial_input(), self.initial_filter_mode(), self.inner()),
    {
        let Guard { initial_input, initial_filter_mode, inner } = self;
        let same_text = same_chars(&initial_input, inner.input.chars());
        let should_update = !same_text || initial_filter_mode != inner.filter_mode;
        (inner, should_update)
    }
}

} // verus!
