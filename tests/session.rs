use std::ops::ControlFlow;

use atuin_search::cursor::{Cursor, WordJumpMode};
use atuin_search::session::{
    select_n_outcome, Event, For, History, Line, Query, SelectOutcome, State, To, Towards,
};
use atuin_search::settings::{ExitMode, FilterMode, SearchMode, Settings, Style};

fn settings() -> Settings {
    Settings {
        filter_mode: FilterMode::Global,
        filter_mode_shell_up_key_binding: None,
        shell_up_key_binding: false,
        search_mode: SearchMode::Fuzzy,
        exit_mode: ExitMode::ReturnOriginal,
        word_chars: "abcdefghijklmnopqrstuvwxyzABCDEFGHIJKLMNOPQRSTUVWXYZ0123456789_"
            .chars()
            .collect(),
        word_jump_mode: WordJumpMode::Emacs,
        scroll_context_lines: 1,
        show_preview: true,
        style: Style::Auto,
    }
}

fn records(n: usize) -> Vec<History> {
    (0..n)
        .map(|i| History { id: format!("id{i}"), command: format!("cmd {i}") })
        .collect()
}

fn state(query: &str, n: usize) -> State {
    let q: Vec<String> = if query.is_empty() { vec![] } else { vec![query.to_string()] };
    let mut s = State::new(&q, settings(), n as i64);
    s.refresh_query(records(n));
    s
}

fn cont(r: ControlFlow<String, State>) -> State {
    match r {
        ControlFlow::Continue(s) => s,
        ControlFlow::Break(out) => panic!("session ended with {out:?}"),
    }
}

fn brk(r: ControlFlow<String, State>) -> String {
    match r {
        ControlFlow::Break(out) => out,
        ControlFlow::Continue(_) => panic!("session went on"),
    }
}

#[test]
fn new_joins_query_words_and_puts_caret_at_end() {
    let q = vec!["git".to_string(), "commit".to_string()];
    let s = State::new(&q, settings(), 7);
    assert_eq!(s.input.as_string(), "git commit");
    assert_eq!(s.input.position(), 10);
    assert_eq!(s.history.len(), 0);
    assert_eq!(s.history_count, 7);
    assert_eq!(s.filter_mode, FilterMode::Global);
}

#[test]
fn new_uses_up_key_override_only_when_bound() {
    let mut st = settings();
    st.filter_mode_shell_up_key_binding = Some(FilterMode::Directory);
    assert_eq!(State::new(&[], st.clone(), 0).filter_mode, FilterMode::Global);
    st.shell_up_key_binding = true;
    assert_eq!(State::new(&[], st, 0).filter_mode, FilterMode::Directory);
}

#[test]
fn refresh_of_empty_query_lists_recent_records() {
    let mut s = state("", 0);
    match s.query() {
        Query::List { filter_mode, limit } => {
            assert_eq!(filter_mode, FilterMode::Global);
            assert_eq!(limit, 200);
        }
        Query::Search { .. } => panic!("expected a list request"),
    }
    s.results_state.select(0);
    s.refresh_query(records(5));
    assert_eq!(s.history.len(), 5);
    assert_eq!(s.history[0].command, "cmd 0");
    assert_eq!(s.history[4].command, "cmd 4");
    assert_eq!(s.results_state.selected(), 0);
}

#[test]
fn refresh_of_text_query_searches() {
    let s = state("git", 3);
    match s.query() {
        Query::Search { search_mode, filter_mode, text, limit } => {
            assert_eq!(search_mode, SearchMode::Fuzzy);
            assert_eq!(filter_mode, FilterMode::Global);
            assert_eq!(text, "git");
            assert_eq!(limit, 200);
        }
        Query::List { .. } => panic!("expected a search request"),
    }
}

#[test]
fn refresh_keeps_at_most_two_hundred_records() {
    let mut s = state("", 3);
    s = cont(s.handle(Event::Selection(Line::Up, For::SingleLine)));
    s.refresh_query(records(250));
    assert_eq!(s.history.len(), 200);
    assert_eq!(s.history[199].command, "cmd 199");
    assert_eq!(s.results_state.selected(), 0);
}

#[test]
fn selection_moves_stay_on_the_list() {
    let mut s = state("", 3);
    s.results_state.set_max_entries(10);
    s = cont(s.handle(Event::Selection(Line::Up, For::SingleLine)));
    assert_eq!(s.results_state.selected(), 1);
    s = cont(s.handle(Event::Selection(Line::Up, For::SingleLine)));
    s = cont(s.handle(Event::Selection(Line::Up, For::SingleLine)));
    assert_eq!(s.results_state.selected(), 2);
    s = cont(s.handle(Event::Selection(Line::Down, For::SingleLine)));
    assert_eq!(s.results_state.selected(), 1);
    s = cont(s.handle(Event::Selection(Line::Up, For::Page)));
    assert_eq!(s.results_state.selected(), 2);
    s = cont(s.handle(Event::Selection(Line::Down, For::Page)));
    assert_eq!(s.results_state.selected(), 0);
}

#[test]
fn page_moves_skip_visible_rows_less_context() {
    let mut s = state("", 50);
    s.results_state.set_max_entries(10);
    s = cont(s.handle(Event::Selection(Line::Up, For::Page)));
    assert_eq!(s.results_state.selected(), 9);
    s = cont(s.handle(Event::Selection(Line::Up, For::Page)));
    assert_eq!(s.results_state.selected(), 18);
    s = cont(s.handle(Event::Selection(Line::Down, For::Page)));
    assert_eq!(s.results_state.selected(), 9);
}

#[test]
fn down_at_top_row_ends_with_empty_result() {
    let s = state("ls", 4);
    assert_eq!(brk(s.handle(Event::Selection(Line::Down, For::SingleLine))), "");
}

#[test]
fn cancel_ends_with_empty_result() {
    let s = state("ls -la", 4);
    assert_eq!(brk(s.handle(Event::Cancel)), "");
    let s = cont(state("", 2).handle(Event::Selection(Line::Up, For::SingleLine)));
    assert_eq!(brk(s.handle(Event::Cancel)), "");
}

#[test]
fn exit_returns_query_or_nothing_by_exit_mode() {
    let mut s = state("ls -la", 4);
    s.settings.exit_mode = ExitMode::ReturnQuery;
    assert_eq!(brk(s.handle(Event::Exit)), "ls -la");
    let s = state("ls -la", 4);
    assert_eq!(brk(s.handle(Event::Exit)), "");
}

#[test]
fn select_n_on_the_list_returns_query_text() {
    let s = state("vim", 4);
    assert_eq!(brk(s.handle(Event::SelectN(0))), "vim");
    let s = state("vim", 4);
    assert_eq!(brk(s.handle(Event::SelectN(3))), "vim");
}

#[test]
fn select_n_past_the_list_returns_nothing() {
    let s = state("vim", 4);
    assert_eq!(brk(s.handle(Event::SelectN(4))), "");
    let s = state("", 0);
    assert_eq!(brk(s.handle(Event::SelectN(0))), "");
}

#[test]
fn select_n_outcome_decides_by_offset_row() {
    assert_eq!(select_n_outcome(1, 2, 4), SelectOutcome::UseQueryText);
    assert_eq!(select_n_outcome(1, 3, 4), SelectOutcome::UseRecord(4));
    assert_eq!(select_n_outcome(usize::MAX, 1, 4), SelectOutcome::UseRecord(usize::MAX));
}

#[test]
fn cycle_filter_mode_returns_after_four_steps() {
    let mut s = state("", 1);
    let mut seen = vec![s.filter_mode];
    for _ in 0..4 {
        s = cont(s.handle(Event::CycleFilterMode));
        seen.push(s.filter_mode);
    }
    assert_eq!(
        seen,
        vec![
            FilterMode::Global,
            FilterMode::Host,
            FilterMode::Session,
            FilterMode::Directory,
            FilterMode::Global
        ]
    );
}

#[test]
fn update_notice_is_stored() {
    let s = state("", 1);
    let s = cont(s.handle(Event::UpdateNeeded(semver::Version::new(18, 2, 0))));
    assert_eq!(s.update_needed, Some(semver::Version::new(18, 2, 0)));
    assert_eq!(s.input.as_string(), "");
}

#[test]
fn backspaces_then_typing_refresh_once_at_commit() {
    let s = state("git", 3);
    let mut g = s.start_batch();
    for e in [
        Event::Delete(Towards::Left, To::Char),
        Event::Delete(Towards::Left, To::Char),
        Event::Delete(Towards::Left, To::Char),
        Event::Input('x'),
    ] {
        g = match g.handle(e) {
            ControlFlow::Continue(g) => g,
            ControlFlow::Break(out) => panic!("ended with {out:?}"),
        };
    }
    let (s, refresh) = g.finish();
    assert!(refresh);
    assert_eq!(s.input.as_string(), "x");
}

#[test]
fn batch_without_net_change_does_not_refresh() {
    let s = state("git", 3);
    let mut g = s.start_batch();
    for e in [
        Event::Input('s'),
        Event::Delete(Towards::Left, To::Char),
        Event::Selection(Line::Up, For::SingleLine),
        Event::Cursor(Towards::Left, To::Edge),
    ] {
        g = match g.handle(e) {
            ControlFlow::Continue(g) => g,
            ControlFlow::Break(out) => panic!("ended with {out:?}"),
        };
    }
    let (s, refresh) = g.finish();
    assert!(!refresh);
    assert_eq!(s.results_state.selected(), 1);
}

#[test]
fn batch_filter_change_refreshes() {
    let g = state("git", 3).start_batch();
    let g = match g.handle(Event::CycleFilterMode) {
        ControlFlow::Continue(g) => g,
        ControlFlow::Break(_) => panic!("ended"),
    };
    let (s, refresh) = g.finish();
    assert!(refresh);
    assert_eq!(s.filter_mode, FilterMode::Host);
}

#[test]
fn batch_handle_passes_terminal_result_through() {
    let g = state("git", 3).start_batch();
    match g.handle(Event::Cancel) {
        ControlFlow::Break(out) => assert_eq!(out, ""),
        ControlFlow::Continue(_) => panic!("went on"),
    }
}

#[test]
fn editing_events_reach_the_cursor() {
    let mut s = state("git status", 1);
    s = cont(s.handle(Event::Cursor(Towards::Left, To::Word)));
    assert_eq!(s.input.position(), 4);
    s = cont(s.handle(Event::Delete(Towards::Left, To::Word)));
    assert_eq!(s.input.as_string(), "status");
    s = cont(s.handle(Event::Cursor(Towards::Right, To::Char)));
    s = cont(s.handle(Event::Delete(Towards::Right, To::Edge)));
    assert_eq!(s.input.as_string(), "s");
    s = cont(s.handle(Event::Clear));
    assert_eq!(s.input.as_string(), "");
}

#[test]
fn cursor_word_jumps() {
    let wc: Vec<char> = "abcdefghijklmnopqrstuvwxyz".chars().collect();
    let mut c = Cursor::from("ab  cd-ef".to_string());
    c.next_word(&wc, WordJumpMode::Emacs);
    assert_eq!(c.position(), 2);
    c.next_word(&wc, WordJumpMode::Emacs);
    assert_eq!(c.position(), 6);
    c.start();
    c.next_word(&wc, WordJumpMode::Subl);
    c.next_word(&wc, WordJumpMode::Subl);
    assert_eq!(c.position(), 6);
    c.next_word(&wc, WordJumpMode::Subl);
    assert_eq!(c.position(), 7);
    c.end();
    c.prev_word(&wc, WordJumpMode::Emacs);
    assert_eq!(c.position(), 7);
    c.remove_prev_word(&wc, WordJumpMode::Emacs);
    assert_eq!(c.as_string(), "ab  ef");
    c.start();
    c.remove_next_word(&wc, WordJumpMode::Emacs);
    assert_eq!(c.as_string(), "  ef");
}

#[test]
fn cursor_char_edits() {
    let mut c = Cursor::from("abc".to_string());
    c.back();
    assert_eq!(c.as_string(), "abc");
    c.right();
    c.insert('x');
    assert_eq!(c.as_string(), "axbc");
    c.back();
    c.remove();
    assert_eq!(c.as_string(), "ac");
    c.clear_from_start();
    assert_eq!(c.as_string(), "c");
    c.end();
    c.left();
    assert_eq!(c.substring(), "");
    c.clear_to_end();
    assert_eq!(c.into_inner(), "");
}
