use vstd::prelude::*;

use crate::cursor::WordJumpMode;

verus! {

/// Scope that restricts which history records a query may return.
#[derive(Clone, Copy, Debug, PartialEq, Eq, Structural)]
pub enum FilterMode {
    Global,
    Host,
    Session,
    Directory,
}

/// Position of a mode in the fixed cycle Global, Host, Session, Directory.
pub open spec fn filter_mode_index(m: FilterMode) -> nat {
    match m {
        FilterMode::Global => 0,
        FilterMode::Host => 1,
        FilterMode::Session => 2,
        FilterMode::Directory => 3,
    }
}

/// The mode that follows `m` in the cycle, wrapping after the last one.
pub open spec fn next_filter_mode(m: FilterMode) -> FilterMode {
    match m {
        FilterMode::Global => FilterMode::Host,
        FilterMode::Host => FilterMode::Session,
        FilterMode::Session => FilterMode::Directory,
        FilterMode::Directory => FilterMode::Global,
    }
}

impl FilterMode {
    /// The next mode in the cycle.
    pub fn next(self) -> (r: FilterMode)
        ensures
            r == next_filter_mode(self),
            filter_mode_index(r) == (filter_mode_index(self) + 1) % 4,
    {
        match self {
            FilterMode::Global => FilterMode::Host,
            FilterMode::Host => FilterMode::Session,
            FilterMode::Session => FilterMode::Directory,
            FilterMode::Directory => FilterMode::Global,
        }
    }
}

impl FilterMode {
    /// The label shown for the mode.
    pub fn as_str(self) -> (r: &'static str)
        ensures
            r@ == filter_mode_label(self),
    {
        match self {
            FilterMode::Global => "GLOBAL",
            FilterMode::Host => "HOST",
            FilterMode::Session => "SESSION",
            FilterMode::Directory => "DIRECTORY",
        }
    }
}

/// The label shown for a mode.
pub open spec fn filter_mode_label(m: FilterMode) -> Seq<char> {
    match m {
        FilterMode::Global => "GLOBAL"@,
        FilterMode::Host => "HOST"@,
        FilterMode::Session => "SESSION"@,
        FilterMode::Directory => "DIRECTORY"@,
    }
}

/// How the store matches the query text.
#[derive(Clone, Copy, Debug, PartialEq, Eq, Structural)]
pub enum SearchMode {
    Prefix,
    FullText,
    Fuzzy,
}

/// What leaving the search with Esc returns.
#[derive(Clone, Copy, Debug, PartialEq, Eq, Structural)]
pub enum ExitMode {
    /// Nothing: the shell keeps the line it had.
    ReturnOriginal,
    /// The query text as typed.
    ReturnQuery,
}

/// Whether the screen uses the compact layout.
#[derive(Clone, Copy, Debug, PartialEq, Eq, Structural)]
pub enum Style {
    /// Compact on short terminals, full otherwise.
    Auto,
    Compact,
    Full,
}

/// The options that the search session reads.
#[derive(Clone, Debug)]
pub struct Settings {
    pub filter_mode: FilterMode,
    pub filter_mode_shell_up_key_binding: Option<FilterMode>,
    pub shell_up_key_binding: bool,
    pub search_mode: SearchMode,
    pub exit_mode: ExitMode,
    pub word_chars: Vec<char>,
    pub word_jump_mode: WordJumpMode,
    pub scroll_context_lines: usize,
    pub show_preview: bool,
    pub style: Style,
}

/// The filter mode a session starts in.
pub open spec fn initial_filter_mode(s: Settings) -> FilterMode {
    if s.shell_up_key_binding && s.filter_mode_shell_up_key_binding is Some {
        s.filter_mode_shell_up_key_binding->Some_0
    } else {
        s.filter_mode
    }
}

impl Settings {
    /// The filter mode a session starts in: the override for the shell's up
    /// key where that binding is active and an override is set.
    pub fn initial_filter_mode(&self) -> (r: FilterMode)
        ensures
            r == initial_filter_mode(*self),
    {
        if self.shell_up_key_binding {
            match self.filter_mode_shell_up_key_binding {
                Some(m) => m,
                None => self.filter_mode,
            }
        } else {
            self.filter_mode
        }
    }
}

} // verus!
