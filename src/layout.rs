use vstd::prelude::*;

use crate::session::{History, SessionView};
use crate::settings::{filter_mode_label, Style};
use crate::text::{append_str, int_text, signed_decimal, string_of_chars};

verus! {

/// A rectangle of terminal cells.
#[derive(Clone, Copy, Debug, PartialEq, Eq, Structural)]
pub struct Rect {
    pub x: u16,
    pub y: u16,
    pub width: u16,
    pub height: u16,
}

impl Rect {
    /// The rectangle lies within the terminal's coordinates.
    pub open spec fn wf(&self) -> bool {
        self.x + self.width <= u16::MAX && self.y + self.height <= u16::MAX
    }
}

/// `min(a, b)`.
pub open spec fn min(a: int, b: int) -> int {
    if a < b {
        a
    } else {
        b
    }
}

/// The screen's regions: a header row split in three (title, help, stats),
/// the result list, the input line and the preview, stacked in that order
/// inside a margin of one column on each side.
#[derive(Clone, Copy, Debug, PartialEq, Eq, Structural)]
pub struct UILayout {
    pub compact: bool,
    pub size: Rect,
    pub title: Rect,
    pub help: Rect,
    pub stats: Rect,
    pub list: Rect,
    pub input: Rect,
    pub preview: Rect,
}

/// Heights of header, list, input and preview in an area `h` rows high:
/// header, input and preview take their rows in turn while rows are left,
/// and the list takes the rest.
pub open spec fn heights(h: int, compact: bool, preview_height: int) -> (int, int, int, int) {
    let want_header: int = if !compact || h > 1 { 1 } else { 0 };
    let want_input: int = if compact { 1 } else { 2 };
    let header = min(want_header, h);
    let input = min(want_input, h - header);
    let preview = min(preview_height, h - header - input);
    (header, h - header - input - preview, input, preview)
}

/// The layout `UILayout::new` computes.
pub open spec fn layout_of(size: Rect, compact: bool, preview_height: int) -> UILayout {
    let x = if size.width >= 2 { size.x + 1 } else { size.x as int };
    let w = if size.width >= 2 { size.width - 2 } else { 0 };
    let (hh, lh, ih, ph) = heights(size.height as int, compact, preview_height);
    let y = size.y as int;
    let third = w / 3;
    UILayout {
        compact,
        size,
        title: Rect { x: x as u16, y: y as u16, width: third as u16, height: hh as u16 },
        help: Rect { x: (x + third) as u16, y: y as u16, width: third as u16, height: hh as u16 },
        stats: Rect {
            x: (x + 2 * third) as u16,
            y: y as u16,
            width: (w - 2 * third) as u16,
            height: hh as u16,
        },
        list: Rect { x: x as u16, y: (y + hh) as u16, width: w as u16, height: lh as u16 },
        input: Rect { x: x as u16, y: (y + hh + lh) as u16, width: w as u16, height: ih as u16 },
        preview: Rect {
            x: x as u16,
            y: (y + hh + lh + ih) as u16,
            width: w as u16,
            height: ph as u16,
        },
    }
}

/// How a panel is drawn.
#[derive(Clone, Copy, Debug, PartialEq, Eq, Structural)]
pub enum Emphasis {
    Plain,
    Bold,
    /// Bold and red: an update is available.
    Alert,
    /// Dark grey.
    Dim,
}

/// Where a panel's text is aligned.
#[derive(Clone, Copy, Debug, PartialEq, Eq, Structural)]
pub enum Alignment {
    Left,
    Center,
    Right,
}

/// Text to draw in a region.
#[derive(Clone, Debug)]
pub struct Panel {
    pub area: Rect,
    pub text: String,
    pub emphasis: Emphasis,
    pub alignment: Alignment,
    /// Drawn inside a rounded border.
    pub bordered: bool,
}

/// Columns before the query text on the input line: the bracketed filter
/// mode label and a space.
pub const PREFIX_LENGTH: u16 = 16;

/// Width of the field the filter mode label is centred in.
pub const LABEL_WIDTH: usize = 14;

/// `n` copies of `c`.
pub open spec fn repeat(c: char, n: nat) -> Seq<char> {
    Seq::new(n, |_i: int| c)
}

/// `s` centred in a field of `w` columns; the odd column of padding goes
/// right. Text wider than the field is left as it is.
pub open spec fn centered(s: Seq<char>, w: nat) -> Seq<char> {
    if s.len() >= w {
        s
    } else {
        let pad = (w - s.len()) as nat;
        repeat(' ', pad / 2) + s + repeat(' ', (pad - pad / 2) as nat)
    }
}

/// The text of the input line.
pub open spec fn input_line(label: Seq<char>, query: Seq<char>) -> Seq<char> {
    seq!['['] + centered(label, LABEL_WIDTH as nat) + seq![']', ' '] + query
}

/// The title: the program and its version, and the newer version where one
/// is available.
pub open spec fn title_line(version: Seq<char>, update: Option<Seq<char>>) -> Seq<char> {
    match update {
        Some(u) => " Atuin v"@ + version + " - UPDATE AVAILABLE "@ + u,
        None => " Atuin v"@ + version,
    }
}

/// `s` cut into lines of `w` characters, joined by newlines; the last line
/// holds what is left. A width of 0 leaves `s` whole.
pub open spec fn wrapped(s: Seq<char>, w: nat) -> Seq<char>
    decreases s.len(),
{
    if w == 0 || s.len() <= w {
        s
    } else {
        s.subrange(0, w as int) + seq!['\n'] + wrapped(s.subrange(w as int, s.len() as int), w)
    }
}

/// The name for the displayed width of a text in terminal columns.
pub uninterp spec fn text_width(s: Seq<char>) -> nat;

/// The name for the text of a release version.
pub uninterp spec fn version_display(v: semver::Version) -> Seq<char>;

/// Relies on unicode-width's `UnicodeWidthStr::width`: the columns a text
/// takes, the sum of its characters' widths, so 0 for the empty text.
#[verifier::external_body]
fn display_width(s: &str) -> (r: usize)
    ensures
        r == text_width(s@),
        s@.len() == 0 ==> r == 0,
{
    unicode_width::UnicodeWidthStr::width(s)
}

/// Relies on semver's `Display` for `Version`: `major.minor.patch`, then
/// any pre-release and build parts, so at least five characters.
#[verifier::external_body]
fn version_text(v: &semver::Version) -> (r: String)
    ensures
        r@ == version_display(*v),
        r@.len() >= 5,
{
    v.to_string()
}

fn push_repeat(v: &mut Vec<char>, c: char, n: usize)
    ensures
        final(v)@ == old(v)@ + repeat(c, n as nat),
{
    let mut i: usize = 0;
    while i < n
        invariant
            i <= n,
            v@ == old(v)@ + repeat(c, i as nat),
        decreases n - i,
    {
        v.push(c);
        assert((old(v)@ + repeat(c, i as nat)).push(c) =~= old(v)@ + repeat(c, (i + 1) as nat));
        i = i + 1;
    }
}

fn push_chars(v: &mut Vec<char>, s: &Vec<char>)
    ensures
        final(v)@ == old(v)@ + s@,
{
    let mut i: usize = 0;
    while i < s.len()
        invariant
            i <= s@.len(),
            v@ == old(v)@ + s@.subrange(0, i as int),
        decreases s@.len() - i,
    {
        v.push(s[i]);
        assert((old(v)@ + s@.subrange(0, i as int)).push(s@[i as int]) =~= old(v)@
            + s@.subrange(0, i + 1));
        i = i + 1;
    }
    assert(s@.subrange(0, s@.len() as int) =~= s@);
}

/// The text of the input line for a filter mode label and a query.
pub fn input_text(label: &str, query: &str) -> (r: String)
    ensures
        r@ == input_line(label@, query@),
{
    let l = crate::text::chars_of_str(label);
    let mut v: Vec<char> = Vec::new();
    v.push('[');
    if l.len() >= LABEL_WIDTH {
        push_chars(&mut v, &l);
    } else {
        let pad = LABEL_WIDTH - l.len();
        push_repeat(&mut v, ' ', pad / 2);
        push_chars(&mut v, &l);
        push_repeat(&mut v, ' ', pad - pad / 2);
    }
    v.push(']');
    v.push(' ');
    append_str(&mut v, query);
    assert(v@ =~= input_line(label@, query@));
    string_of_chars(&v)
}

/// The title text for a program version and an optional newer version.
pub fn title_text(version: &str, update: Option<&str>) -> (r: String)
    ensures
        r@ == title_line(version@, match update { Some(u) => Some(u@), None => None }),
{
    let mut v: Vec<char> = Vec::new();
    append_str(&mut v, " Atuin v");
    append_str(&mut v, version);
    match update {
        Some(u) => {
            append_str(&mut v, " - UPDATE AVAILABLE ");
            append_str(&mut v, u);
        },
        None => {},
    }
    string_of_chars(&v)
}

/// `s` cut into lines of `width` characters joined by newlines.
pub fn wrap_text(s: &str, width: usize) -> (r: String)
    ensures
        r@ == wrapped(s@, width as nat),
{
    let cs = crate::text::chars_of_str(s);
    if width == 0 {
        return string_of_chars(&cs);
    }
    let mut v: Vec<char> = Vec::new();
    let mut start: usize = 0;
    assert(cs@.subrange(0, cs@.len() as int) =~= s@);
    assert(v@ + wrapped(s@, width as nat) =~= wrapped(s@, width as nat));
    while cs.len() - start > width
        invariant
            width > 0,
            start <= cs@.len(),
            cs@ == s@,
            v@ + wrapped(cs@.subrange(start as int, cs@.len() as int), width as nat) == wrapped(
                s@,
                width as nat,
            ),
        decreases cs@.len() - start,
    {
        let ghost rest = cs@.subrange(start as int, cs@.len() as int);
        let ghost before = v@;
        let mut i: usize = start;
        let end: usize = start + width;
        while i < end
            invariant
                end == start + width,
                start <= i <= start + width <= cs@.len(),
                v@ == before + cs@.subrange(start as int, i as int),
            decreases end - i,
        {
            v.push(cs[i]);
            assert((before + cs@.subrange(start as int, i as int)).push(cs@[i as int]) =~= before
                + cs@.subrange(start as int, i + 1));
            i = i + 1;
        }
        v.push('\n');
        proof {
            assert(rest.subrange(0, width as int) =~= cs@.subrange(start as int, start + width));
            assert(rest.subrange(width as int, rest.len() as int) =~= cs@.subrange(
                start + width,
                cs@.len() as int,
            ));
            assert(v@ + wrapped(cs@.subrange(start + width, cs@.len() as int), width as nat)
                =~= before + wrapped(rest, width as nat));
        }
        start = start + width;
    }
    let ghost before = v@;
    let mut i: usize = start;
    while i < cs.len()
        invariant
            start <= i <= cs@.len(),
            v@ == before + cs@.subrange(start as int, i as int),
        decreases cs@.len() - i,
    {
        v.push(cs[i]);
        assert((before + cs@.subrange(start as int, i as int)).push(cs@[i as int]) =~= before
            + cs@.subrange(start as int, i + 1));
        i = i + 1;
    }
    assert(v@ =~= wrapped(s@, width as nat));
    string_of_chars(&v)
}

/// The column and row of the caret: past the prefix and the columns the
/// text before the caret takes, inside the border where there is one.
pub open spec fn cursor_cell(input: Rect, compact: bool, width: int) -> (int, int) {
    let offset: int = if compact { 0 } else { 1 };
    (min(input.x + width + PREFIX_LENGTH + 1 + offset, u16::MAX as int), min(input.y + offset, u16::MAX as int))
}

/// Whether the compact layout is used: as configured, or on terminals less
/// than 14 rows high (or of unknown height) where the style is `Auto`.
pub open spec fn compact_for(style: Style, height: Option<u16>) -> bool {
    match style {
        Style::Auto => match height {
            Some(h) => h < 14,
            None => true,
        },
        Style::Compact => true,
        Style::Full => false,
    }
}

/// Decides the compact layout from the style and the terminal's height.
pub fn is_compact(style: Style, height: Option<u16>) -> (r: bool)
    ensures
        r == compact_for(style, height),
{
    match style {
        Style::Auto => match height {
            Some(h) => h < 14,
            None => true,
        },
        Style::Compact => true,
        Style::Full => false,
    }
}

/// Rows of the preview: the rows the longest command needs at the preview's
/// width, at most 4, plus the borders; only the border row where no preview
/// is shown.
pub open spec fn preview_rows(show_preview: bool, compact: bool, frame_width: int, longest: int) -> int {
    let border: int = if compact { 0 } else { 1 };
    if show_preview {
        let width = frame_width - 2 - border;
        min(4, (longest + width - 1) / width) + border * 2
    } else {
        border
    }
}

/// The preview's height for a frame `frame_width` columns wide and a longest
/// command of `longest` characters.
pub fn preview_height(show_preview: bool, compact: bool, frame_width: u16, longest: usize) -> (r: u16)
    requires
        frame_width >= 4,
    ensures
        r == preview_rows(show_preview, compact, frame_width as int, longest as int),
{
    let border: u16 = if compact { 0 } else { 1 };
    if show_preview {
        let width: u16 = frame_width - 2 - border;
        let w = width as usize;
        let rows: usize = if longest == 0 { 0 } else { (longest - 1) / w + 1 };
        proof {
            if longest > 0 {
                assert((longest + w - 1) / (w as int) == (longest - 1) / (w as int) + 1) by (nonlinear_arith)
                    requires w > 0, longest > 0;
            } else {
                assert((longest + w - 1) / (w as int) == 0) by (nonlinear_arith)
                    requires w > 0, longest == 0;
            }
        }
        let capped: u16 = if rows < 4 { rows as u16 } else { 4 };
        capped + border * 2
    } else {
        border
    }
}

/// The length in characters of the longest command listed.
pub open spec fn longest_in(h: Seq<History>) -> nat
    decreases h.len(),
{
    if h.len() == 0 {
        0
    } else {
        let rest = longest_in(h.drop_last());
        let last = h.last().command@.len();
        if last > rest { last } else { rest }
    }
}

/// The length in characters of the longest command listed, 0 for no records.
pub fn longest_command(history: &[History]) -> (r: usize)
    ensures
        r == longest_in(history@),
{
    let mut best: usize = 0;
    let mut i: usize = 0;
    while i < history.len()
        invariant
            i <= history@.len(),
            best == longest_in(history@.subrange(0, i as int)),
        decreases history@.len() - i,
    {
        let n = history[i].command.as_str().unicode_len();
        assert(history@.subrange(0, i + 1).drop_last() =~= history@.subrange(0, i as int));
        if n > best {
            best = n;
        }
        i = i + 1;
    }
    assert(history@.subrange(0, history@.len() as int) =~= history@);
    best
}

impl UILayout {
    /// Splits `size` into the screen's regions.
    pub fn new(size: Rect, compact: bool, preview_height: u16) -> (r: UILayout)
        requires
            size.wf(),
        ensures
            r == layout_of(size, compact, preview_height as int),
    {
        let x: u16 = if size.width >= 2 { size.x + 1 } else { size.x };
        let w: u16 = if size.width >= 2 { size.width - 2 } else { 0 };
        let h = size.height;
        let want_header: u16 = if !compact || h > 1 { 1 } else { 0 };
        let want_input: u16 = if compact { 1 } else { 2 };
        let header: u16 = if want_header < h { want_header } else { h };
        let input: u16 = if want_input < h - header { want_input } else { h - header };
        let preview: u16 = if preview_height < h - header - input { preview_height } else { h - header - input };
        let list: u16 = h - header - input - preview;
        let y = size.y;
        let third: u16 = w / 3;
        UILayout {
            compact,
            size,
            title: Rect { x, y, width: third, height: header },
            help: Rect { x: x + third, y, width: third, height: header },
            stats: Rect { x: x + 2 * third, y, width: w - 2 * third, height: header },
            list: Rect { x, y: y + header, width: w, height: list },
            input: Rect { x, y: y + header + list, width: w, height: input },
            preview: Rect { x, y: y + header + list + input, width: w, height: preview },
        }
    }

    /// Whether a layout cached for `size` must be computed anew: the frame
    /// changed size, or the preview is shown and its height changed.
    pub fn is_stale(&self, size: Rect, show_preview: bool, preview_height: u16) -> (r: bool)
        ensures
            r == (self.size != size || (show_preview && self.preview.height != preview_height)),
    {
        self.size != size || (show_preview && self.preview.height != preview_height)
    }

    /// The title: the program's `version`, and the newer version where the
    /// session holds an update notice, then drawn in bold red.
    pub fn render_title(&self, view: &SessionView<'_>, version: &str) -> (r: Panel)
        ensures
            r.area == self.title,
            r.alignment == Alignment::Left,
            !r.bordered,
            match view.update_needed {
                Some(v) => r.text@ == title_line(version@, Some(version_display(*v)))
                    && r.emphasis == Emphasis::Alert,
                None => r.text@ == title_line(version@, None) && r.emphasis == Emphasis::Bold,
            },
    {
        match view.update_needed {
            Some(v) => {
                let u = version_text(v);
                Panel {
                    area: self.title,
                    text: title_text(version, Some(u.as_str())),
                    emphasis: Emphasis::Alert,
                    alignment: Alignment::Left,
                    bordered: false,
                }
            },
            None => Panel {
                area: self.title,
                text: title_text(version, None),
                emphasis: Emphasis::Bold,
                alignment: Alignment::Left,
                bordered: false,
            },
        }
    }

    /// The key help, centred.
    pub fn render_help(&self) -> (r: Panel)
        ensures
            r.area == self.help,
            r.text@ == "Esc to exit"@,
            r.emphasis == Emphasis::Dim,
            r.alignment == Alignment::Center,
            !r.bordered,
    {
        let mut v: Vec<char> = Vec::new();
        append_str(&mut v, "Esc to exit");
        Panel {
            area: self.help,
            text: string_of_chars(&v),
            emphasis: Emphasis::Dim,
            alignment: Alignment::Center,
            bordered: false,
        }
    }

    /// The number of records in the store, right-aligned.
    pub fn render_stats(&self, view: &SessionView<'_>) -> (r: Panel)
        ensures
            r.area == self.stats,
            r.text@ == "history count: "@ + signed_decimal(view.history_count as int),
            r.emphasis == Emphasis::Dim,
            r.alignment == Alignment::Right,
            !r.bordered,
    {
        let mut v: Vec<char> = Vec::new();
        append_str(&mut v, "history count: ");
        let n = int_text(view.history_count);
        append_str(&mut v, n.as_str());
        Panel {
            area: self.stats,
            text: string_of_chars(&v),
            emphasis: Emphasis::Dim,
            alignment: Alignment::Right,
            bordered: false,
        }
    }

    /// The region of the result list, bordered on top and sides unless
    /// compact; the rows themselves come from the session's records.
    pub fn render_results_list(&self, view: &SessionView<'_>) -> (r: Panel)
        ensures
            r.area == self.list,
            r.text@ == Seq::<char>::empty(),
            r.emphasis == Emphasis::Plain,
            r.alignment == Alignment::Left,
            r.bordered == !self.compact,
    {
        Panel {
            area: self.list,
            text: String::new(),
            emphasis: Emphasis::Plain,
            alignment: Alignment::Left,
            bordered: !self.compact,
        }
    }

    /// The input line: the filter mode label centred in brackets, then the
    /// query.
    pub fn render_input(&self, view: &SessionView<'_>) -> (r: Panel)
        requires
            view.input.wf(),
        ensures
            r.area == self.input,
            r.text@ == input_line(filter_mode_label(view.filter_mode), view.input.text()),
            r.emphasis == Emphasis::Plain,
            r.alignment == Alignment::Left,
            r.bordered == !self.compact,
    {
        let query = view.input.as_string();
        Panel {
            area: self.input,
            text: input_text(view.filter_mode.as_str(), query.as_str()),
            emphasis: Emphasis::Plain,
            alignment: Alignment::Left,
            bordered: !self.compact,
        }
    }

    /// The selected record's command, cut into lines of the preview's width;
    /// empty where no record is selected.
    pub fn render_preview(&self, view: &SessionView<'_>) -> (r: Panel)
        ensures
            r.area == self.preview,
            view.results_state.selected < view.history@.len() ==> r.text@ == wrapped(
                view.history@[view.results_state.selected as int].command@,
                self.preview.width as nat,
            ),
            view.results_state.selected >= view.history@.len() ==> r.text@ == Seq::<char>::empty(),
            r.emphasis == (if self.compact { Emphasis::Dim } else { Emphasis::Plain }),
            r.alignment == Alignment::Left,
            r.bordered == !self.compact,
    {
        let sel = view.results_state.selected();
        let text = if sel < view.history.len() {
            wrap_text(view.history[sel].command.as_str(), self.preview.width as usize)
        } else {
            String::new()
        };
        Panel {
            area: self.preview,
            text,
            emphasis: if self.compact { Emphasis::Dim } else { Emphasis::Plain },
            alignment: Alignment::Left,
            bordered: !self.compact,
        }
    }

    /// Where the caret goes for text before it `width` columns wide.
    pub fn cursor_position(&self, width: usize) -> (r: (u16, u16))
        ensures
            (r.0 as int, r.1 as int) == cursor_cell(self.input, self.compact, width as int),
    {
        let offset: u16 = if self.compact { 0 } else { 1 };
        let fixed: u32 = self.input.x as u32 + PREFIX_LENGTH as u32 + 1 + offset as u32;
        let cx: u16 = if width >= 65535 || fixed + width as u32 >= 65535 {
            65535
        } else {
            (fixed + width as u32) as u16
        };
        let cy: u16 = if self.input.y as u32 + offset as u32 >= 65535 {
            65535
        } else {
            self.input.y + offset
        };
        (cx, cy)
    }

    /// Where the caret goes for the session's query.
    pub fn render_cursor(&self, view: &SessionView<'_>) -> (r: (u16, u16))
        requires
            view.input.wf(),
        ensures
            (r.0 as int, r.1 as int) == cursor_cell(
                self.input,
                self.compact,
                text_width(view.input.text().subrange(0, view.input.pos())) as int,
            ),
    {
        let before = view.input.substring();
        let width = display_width(before.as_str());
        self.cursor_position(width)
    }
}

} // verus!
