use atuin_search::keys::{KeyCode, KeyInput, MouseKind, RawEvent, Skip};
use atuin_search::layout::{
    input_text, is_compact, longest_command, preview_height, title_text, wrap_text, Alignment,
    Emphasis, Rect, UILayout,
};
use atuin_search::session::{Event, For, History, Line, State, To, Towards};
use atuin_search::cursor::WordJumpMode;
use atuin_search::settings::{ExitMode, FilterMode, SearchMode, Settings, Style};
use atuin_search::text::int_text;

fn key(code: KeyCode, ctrl: bool, alt: bool) -> Result<Event, Skip> {
    Event::from_key(KeyInput { code, ctrl, alt })
}

fn settings() -> Settings {
    Settings {
        filter_mode: FilterMode::Host,
        filter_mode_shell_up_key_binding: None,
        shell_up_key_binding: false,
        search_mode: SearchMode::Prefix,
        exit_mode: ExitMode::ReturnOriginal,
        word_chars: vec!['a', 'b'],
        word_jump_mode: WordJumpMode::Emacs,
        scroll_context_lines: 1,
        show_preview: true,
        style: Style::Auto,
    }
}

#[test]
fn control_keys_cancel() {
    for c in ['c', 'd', 'g'] {
        assert!(matches!(key(KeyCode::Char(c), true, false), Ok(Event::Cancel)));
    }
    assert!(matches!(key(KeyCode::Char('c'), false, false), Ok(Event::Input('c'))));
}

#[test]
fn key_table_entries() {
    assert!(matches!(key(KeyCode::Esc, false, false), Ok(Event::Exit)));
    assert!(matches!(key(KeyCode::Enter, false, false), Ok(Event::SelectN(0))));
    assert!(matches!(key(KeyCode::Char('3'), false, true), Ok(Event::SelectN(3))));
    assert!(matches!(key(KeyCode::Char('0'), false, true), Ok(Event::Input('0'))));
    assert!(matches!(
        key(KeyCode::Left, true, false),
        Ok(Event::Cursor(Towards::Left, To::Word))
    ));
    assert!(matches!(
        key(KeyCode::Char('h'), true, false),
        Ok(Event::Cursor(Towards::Left, To::Char))
    ));
    assert!(matches!(
        key(KeyCode::Home, false, false),
        Ok(Event::Cursor(Towards::Left, To::Edge))
    ));
    assert!(matches!(
        key(KeyCode::Backspace, true, false),
        Ok(Event::Delete(Towards::Left, To::Word))
    ));
    assert!(matches!(
        key(KeyCode::Delete, false, false),
        Ok(Event::Delete(Towards::Right, To::Char))
    ));
    assert!(matches!(key(KeyCode::Char('u'), true, false), Ok(Event::Clear)));
    assert!(matches!(key(KeyCode::Char('r'), true, false), Ok(Event::CycleFilterMode)));
    assert!(matches!(
        key(KeyCode::Char('j'), true, false),
        Ok(Event::Selection(Line::Down, For::SingleLine))
    ));
    assert!(matches!(
        key(KeyCode::PageUp, false, false),
        Ok(Event::Selection(Line::Up, For::Page))
    ));
    assert!(matches!(key(KeyCode::Other, false, false), Err(Skip)));
}

#[test]
fn mouse_and_other_raw_inputs() {
    assert!(matches!(
        Event::from_raw(RawEvent::Mouse(MouseKind::ScrollUp)),
        Ok(Event::Selection(Line::Up, For::SingleLine))
    ));
    assert!(matches!(Event::from_mouse(MouseKind::Other), Err(Skip)));
    assert!(matches!(Event::from_raw(RawEvent::Resize), Err(Skip)));
    assert!(matches!(Event::from_raw(RawEvent::Paste), Err(Skip)));
    assert!(matches!(Event::from_raw(RawEvent::FocusLost), Err(Skip)));
}

#[test]
fn full_layout_of_a_large_terminal() {
    let l = UILayout::new(Rect { x: 0, y: 0, width: 80, height: 24 }, false, 3);
    assert_eq!(l.title, Rect { x: 1, y: 0, width: 26, height: 1 });
    assert_eq!(l.help, Rect { x: 27, y: 0, width: 26, height: 1 });
    assert_eq!(l.stats, Rect { x: 53, y: 0, width: 26, height: 1 });
    assert_eq!(l.list, Rect { x: 1, y: 1, width: 78, height: 18 });
    assert_eq!(l.input, Rect { x: 1, y: 19, width: 78, height: 2 });
    assert_eq!(l.preview, Rect { x: 1, y: 21, width: 78, height: 3 });
}

#[test]
fn compact_layout_of_one_row() {
    let l = UILayout::new(Rect { x: 0, y: 0, width: 10, height: 1 }, true, 0);
    assert_eq!(l.title.height, 0);
    assert_eq!(l.input, Rect { x: 1, y: 0, width: 8, height: 1 });
    assert_eq!(l.list.height, 0);
}

#[test]
fn stale_layout() {
    let size = Rect { x: 0, y: 0, width: 80, height: 24 };
    let l = UILayout::new(size, false, 3);
    assert!(!l.is_stale(size, true, 3));
    assert!(l.is_stale(size, true, 4));
    assert!(!l.is_stale(size, false, 4));
    assert!(l.is_stale(Rect { x: 0, y: 0, width: 81, height: 24 }, false, 3));
}

#[test]
fn compact_choice() {
    assert!(is_compact(Style::Auto, Some(13)));
    assert!(!is_compact(Style::Auto, Some(14)));
    assert!(is_compact(Style::Auto, None));
    assert!(is_compact(Style::Compact, Some(50)));
    assert!(!is_compact(Style::Full, Some(5)));
}

#[test]
fn preview_height_caps_at_four_lines() {
    assert_eq!(preview_height(true, false, 80, 0), 2);
    assert_eq!(preview_height(true, false, 80, 77), 3);
    assert_eq!(preview_height(true, false, 80, 78), 4);
    assert_eq!(preview_height(true, false, 80, 10_000), 6);
    assert_eq!(preview_height(true, true, 12, 25), 3);
    assert_eq!(preview_height(false, false, 80, 500), 1);
    assert_eq!(preview_height(false, true, 80, 500), 0);
}

#[test]
fn longest_command_in_characters() {
    let h = vec![
        History { id: "1".to_string(), command: "ls".to_string() },
        History { id: "2".to_string(), command: "git log".to_string() },
        History { id: "3".to_string(), command: "éé".to_string() },
    ];
    assert_eq!(longest_command(&h), 7);
    assert_eq!(longest_command(&[]), 0);
}

#[test]
fn input_line_centres_the_label() {
    assert_eq!(input_text("GLOBAL", "ls"), "[    GLOBAL    ] ls");
    assert_eq!(input_text("SESSION", ""), "[   SESSION    ] ");
    assert_eq!(input_text("DIRECTORY", "x"), "[  DIRECTORY   ] x");
    assert_eq!(input_text("ABCDEFGHIJKLMNOP", "x"), "[ABCDEFGHIJKLMNOP] x");
}

#[test]
fn title_text_with_and_without_update() {
    assert_eq!(title_text("15.0.0", None), " Atuin v15.0.0");
    assert_eq!(
        title_text("15.0.0", Some("16.1.0")),
        " Atuin v15.0.0 - UPDATE AVAILABLE 16.1.0"
    );
}

#[test]
fn wrap_text_cuts_at_width() {
    assert_eq!(wrap_text("abcdefg", 3), "abc\ndef\ng");
    assert_eq!(wrap_text("abcdef", 3), "abc\ndef");
    assert_eq!(wrap_text("ab", 3), "ab");
    assert_eq!(wrap_text("", 3), "");
    assert_eq!(wrap_text("abc", 0), "abc");
}

#[test]
fn decimal_text() {
    assert_eq!(int_text(0), "0");
    assert_eq!(int_text(1234), "1234");
    assert_eq!(int_text(-42), "-42");
    assert_eq!(int_text(i64::MIN), "-9223372036854775808");
}

#[test]
fn panels_from_a_session() {
    let q = vec!["héllo".to_string()];
    let mut s = State::new(&q, settings(), 12);
    s.refresh_query(vec![History { id: "1".to_string(), command: "abcdefghij".to_string() }]);
    let l = UILayout::new(Rect { x: 0, y: 0, width: 8, height: 24 }, false, 3);
    let v = s.view();
    let t = l.render_title(&v, "15.0.0");
    assert_eq!(t.text, " Atuin v15.0.0");
    assert_eq!(t.emphasis, Emphasis::Bold);
    assert_eq!(l.render_help().text, "Esc to exit");
    let st = l.render_stats(&v);
    assert_eq!(st.text, "history count: 12");
    assert_eq!(st.alignment, Alignment::Right);
    assert!(l.render_results_list(&v).bordered);
    assert_eq!(l.render_input(&v).text, "[     HOST     ] héllo");
    assert_eq!(l.render_preview(&v).text, "abcdef\nghij");
    assert_eq!(l.render_cursor(&v), (1 + 5 + 16 + 1 + 1, 20));
}

#[test]
fn title_panel_names_the_update() {
    let s = State::new(&[], settings(), 0);
    let s = match s.handle(Event::UpdateNeeded(semver::Version::parse("16.1.0-beta.1").unwrap())) {
        std::ops::ControlFlow::Continue(s) => s,
        std::ops::ControlFlow::Break(_) => panic!("ended"),
    };
    let l = UILayout::new(Rect { x: 0, y: 0, width: 80, height: 24 }, true, 0);
    let t = l.render_title(&s.view(), "15.0.0");
    assert_eq!(t.text, " Atuin v15.0.0 - UPDATE AVAILABLE 16.1.0-beta.1");
    assert_eq!(t.emphasis, Emphasis::Alert);
}

#[test]
fn cursor_position_counts_wide_characters() {
    let mut s = State::new(&["日本".to_string()], settings(), 0);
    s.input.left();
    let l = UILayout::new(Rect { x: 0, y: 0, width: 80, height: 24 }, true, 0);
    assert_eq!(l.render_cursor(&s.view()), (1 + 2 + 16 + 1, 23));
}
