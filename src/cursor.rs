use vstd::prelude::*;

use crate::text::{chars_of_str, string_of_chars};

verus! {

/// How far a word jump goes.
#[derive(Clone, Copy, Debug, PartialEq, Eq, Structural)]
pub enum WordJumpMode {
    /// Skip separators, then the word that follows them.
    Emacs,
    /// Skip whitespace, then a run of word characters or a run of punctuation.
    Subl,
}

/// A class of characters that a word jump skips over.
#[derive(Clone, Copy, Debug, PartialEq, Eq, Structural)]
pub enum CharClass {
    Word,
    NotWord,
    Space,
    Punct,
}

pub open spec fn is_space(c: char) -> bool {
    c == ' ' || c == '\t' || c == '\n' || c == '\r'
}

pub open spec fn in_class(c: char, word_chars: Seq<char>, k: CharClass) -> bool {
    match k {
        CharClass::Word => word_chars.contains(c),
        CharClass::NotWord => !word_chars.contains(c),
        CharClass::Space => is_space(c),
        CharClass::Punct => !word_chars.contains(c) && !is_space(c),
    }
}

/// The end of the run of characters of class `k` that starts at `i`.
pub open spec fn run_end(s: Seq<char>, i: int, w: Seq<char>, k: CharClass) -> int
    decreases s.len() - i,
{
    if 0 <= i < s.len() && in_class(s[i], w, k) {
        run_end(s, i + 1, w, k)
    } else {
        i
    }
}

/// The start of the run of characters of class `k` that ends at `i`.
pub open spec fn run_start(s: Seq<char>, i: int, w: Seq<char>, k: CharClass) -> int
    decreases i,
{
    if 0 < i <= s.len() && in_class(s[i - 1], w, k) {
        run_start(s, i - 1, w, k)
    } else {
        i
    }
}

/// Where a jump to the next word from `i` lands.
pub open spec fn next_word_index(s: Seq<char>, i: int, w: Seq<char>, m: WordJumpMode) -> int {
    match m {
        WordJumpMode::Emacs => run_end(s, run_end(s, i, w, CharClass::NotWord), w, CharClass::Word),
        WordJumpMode::Subl => {
            let a = run_end(s, i, w, CharClass::Space);
            if a < s.len() && w.contains(s[a]) {
                run_end(s, a, w, CharClass::Word)
            } else {
                run_end(s, a, w, CharClass::Punct)
            }
        },
    }
}

/// Where a jump to the previous word from `i` lands.
pub open spec fn prev_word_index(s: Seq<char>, i: int, w: Seq<char>, m: WordJumpMode) -> int {
    match m {
        WordJumpMode::Emacs => run_start(
            s,
            run_start(s, i, w, CharClass::NotWord),
            w,
            CharClass::Word,
        ),
        WordJumpMode::Subl => {
            let a = run_start(s, i, w, CharClass::Space);
            if 0 < a && w.contains(s[a - 1]) {
                run_start(s, a, w, CharClass::Word)
            } else {
                run_start(s, a, w, CharClass::Punct)
            }
        },
    }
}

proof fn lemma_run_end_bounds(s: Seq<char>, i: int, w: Seq<char>, k: CharClass)
    requires
        0 <= i <= s.len(),
    ensures
        i <= run_end(s, i, w, k) <= s.len(),
    decreases s.len() - i,
{
    if i < s.len() && in_class(s[i], w, k) {
        lemma_run_end_bounds(s, i + 1, w, k);
    }
}

proof fn lemma_run_start_bounds(s: Seq<char>, i: int, w: Seq<char>, k: CharClass)
    requires
        0 <= i <= s.len(),
    ensures
        0 <= run_start(s, i, w, k) <= i,
    decreases i,
{
    if 0 < i && in_class(s[i - 1], w, k) {
        lemma_run_start_bounds(s, i - 1, w, k);
    }
}

fn contains_char(w: &Vec<char>, c: char) -> (r: bool)
    ensures
        r == w@.contains(c),
{
    let mut j: usize = 0;
    while j < w.len()
        invariant
            j <= w@.len(),
            forall|x: int| 0 <= x < j ==> w@[x] != c,
        decreases w@.len() - j,
    {
        if w[j] == c {
            assert(w@[j as int] == c);
            return true;
        }
        j = j + 1;
    }
    false
}

fn char_in_class(c: char, w: &Vec<char>, k: CharClass) -> (r: bool)
    ensures
        r == in_class(c, w@, k),
{
    match k {
        CharClass::Word => contains_char(w, c),
        CharClass::NotWord => !contains_char(w, c),
        CharClass::Space => c == ' ' || c == '\t' || c == '\n' || c == '\r',
        CharClass::Punct => !contains_char(w, c) && !(c == ' ' || c == '\t' || c == '\n' || c
            == '\r'),
    }
}

fn find_run_end(s: &Vec<char>, i: usize, w: &Vec<char>, k: CharClass) -> (r: usize)
    requires
        i <= s@.len(),
    ensures
        r == run_end(s@, i as int, w@, k),
        i <= r <= s@.len(),
{
    let mut j = i;
    proof {
        lemma_run_end_bounds(s@, i as int, w@, k);
    }
    while j < s.len() && char_in_class(s[j], w, k)
        invariant
            i <= j <= s@.len(),
            run_end(s@, i as int, w@, k) == run_end(s@, j as int, w@, k),
        decreases s@.len() - j,
    {
        j = j + 1;
    }
    j
}

fn find_run_start(s: &Vec<char>, i: usize, w: &Vec<char>, k: CharClass) -> (r: usize)
    requires
        i <= s@.len(),
    ensures
        r == run_start(s@, i as int, w@, k),
        r <= i,
{
    let mut j = i;
    while j > 0 && char_in_class(s[j - 1], w, k)
        invariant
            j <= i <= s@.len(),
            run_start(s@, i as int, w@, k) == run_start(s@, j as int, w@, k),
        decreases j,
    {
        j = j - 1;
    }
    j
}

fn find_next_word(s: &Vec<char>, i: usize, w: &Vec<char>, m: WordJumpMode) -> (r: usize)
    requires
        i <= s@.len(),
    ensures
        r == next_word_index(s@, i as int, w@, m),
        i <= r <= s@.len(),
{
    match m {
        WordJumpMode::Emacs => {
            let a = find_run_end(s, i, w, CharClass::NotWord);
            find_run_end(s, a, w, CharClass::Word)
        },
        WordJumpMode::Subl => {
            let a = find_run_end(s, i, w, CharClass::Space);
            if a < s.len() && contains_char(w, s[a]) {
                find_run_end(s, a, w, CharClass::Word)
            } else {
                find_run_end(s, a, w, CharClass::Punct)
            }
        },
    }
}

fn find_prev_word(s: &Vec<char>, i: usize, w: &Vec<char>, m: WordJumpMode) -> (r: usize)
    requires
        i <= s@.len(),
    ensures
        r == prev_word_index(s@, i as int, w@, m),
        r <= i,
{
    match m {
        WordJumpMode::Emacs => {
            let a = find_run_start(s, i, w, CharClass::NotWord);
            find_run_start(s, a, w, CharClass::Word)
        },
        WordJumpMode::Subl => {
            let a = find_run_start(s, i, w, CharClass::Space);
            if a > 0 && contains_char(w, s[a - 1]) {
                find_run_start(s, a, w, CharClass::Word)
            } else {
                find_run_start(s, a, w, CharClass::Punct)
            }
        },
    }
}

/// The query text being edited, with a caret position counted in characters.
pub struct Cursor {
    source: Vec<char>,
    index: usize,
}

/// The characters of `s` outside the range `[a, b)`.
pub open spec fn cut(s: Seq<char>, a: int, b: int) -> Seq<char> {
    s.subrange(0, a) + s.subrange(b, s.len() as int)
}

fn cut_range(s: &Vec<char>, a: usize, b: usize) -> (r: Vec<char>)
    requires
        a <= b <= s@.len(),
    ensures
        r@ == cut(s@, a as int, b as int),
{
    let mut r: Vec<char> = Vec::new();
    let mut i: usize = 0;
    while i < a
        invariant
            i <= a <= b <= s@.len(),
            r@ == s@.subrange(0, i as int),
        decreases a - i,
    {
        r.push(s[i]);
        assert(s@.subrange(0, i as int).push(s@[i as int]) =~= s@.subrange(0, i + 1));
        i = i + 1;
    }
    let mut j: usize = b;
    while j < s.len()
        invariant
            a <= b <= j <= s@.len(),
            r@ == s@.subrange(0, a as int) + s@.subrange(b as int, j as int),
        decreases s@.len() - j,
    {
        r.push(s[j]);
        assert((s@.subrange(0, a as int) + s@.subrange(b as int, j as int)).push(s@[j as int])
            =~= s@.subrange(0, a as int) + s@.subrange(b as int, j + 1));
        j = j + 1;
    }
    r
}

impl Cursor {
    /// The text.
    pub closed spec fn text(&self) -> Seq<char> {
        self.source@
    }

    /// The caret position.
    pub closed spec fn pos(&self) -> int {
        self.index as int
    }

    /// The caret stands within the text.
    pub open spec fn wf(&self) -> bool {
        0 <= self.pos() <= self.text().len()
    }

    /// A cursor over `s` with the caret at the start.
    pub fn from(s: String) -> (r: Cursor)
        ensures
            r.wf(),
            r.text() == s@,
            r.pos() == 0,
    {
        Cursor { source: chars_of_str(s.as_str()), index: 0 }
    }

    /// The text as a string.
    pub fn as_string(&self) -> (r: String)
        ensures
            r@ == self.text(),
    {
        string_of_chars(&self.source)
    }

    /// The text's characters.
    pub fn chars(&self) -> (r: &Vec<char>)
        ensures
            r@ == self.text(),
    {
        &self.source
    }

    /// Gives up the cursor and returns its text.
    pub fn into_inner(self) -> (r: String)
        ensures
            r@ == self.text(),
    {
        string_of_chars(&self.source)
    }

    /// The caret position.
    pub fn position(&self) -> (r: usize)
        requires
            self.wf(),
        ensures
            r == self.pos(),
    {
        self.index
    }

    /// The text before the caret.
    pub fn substring(&self) -> (r: String)
        requires
            self.wf(),
        ensures
            r@ == self.text().subrange(0, self.pos()),
    {
        let head = cut_range(&self.source, self.index, self.source.len());
        assert(cut(self.source@, self.index as int, self.source@.len() as int)
            =~= self.source@.subrange(0, self.index as int));
        string_of_chars(&head)
    }

    /// Inserts `c` at the caret and moves the caret past it.
    pub fn insert(&mut self, c: char)
        requires
            old(self).wf(),
        ensures
            final(self).wf(),
            final(self).text() == old(self).text().insert(old(self).pos(), c),
            final(self).pos() == old(self).pos() + 1,
    {
        self.source.insert(self.index, c);
        let n = self.source.len();
        assert(self.index < n);
        self.index = self.index + 1;
    }

    /// Removes the character before the caret, if any.
    pub fn back(&mut self)
        requires
            old(self).wf(),
        ensures
            final(self).wf(),
            old(self).pos() == 0 ==> *final(self) == *old(self),
            old(self).pos() > 0 ==> final(self).text() == old(self).text().remove(
                old(self).pos() - 1,
            ) && final(self).pos() == old(self).pos() - 1,
    {
        if self.index > 0 {
            self.index = self.index - 1;
            self.source.remove(self.index);
        }
    }

    /// Removes the character at the caret, if any.
    pub fn remove(&mut self)
        requires
            old(self).wf(),
        ensures
            final(self).wf(),
            old(self).pos() == old(self).text().len() ==> *final(self) == *old(self),
            old(self).pos() < old(self).text().len() ==> final(self).text() == old(
                self,
            ).text().remove(old(self).pos()),
            final(self).pos() == old(self).pos(),
    {
        if self.index < self.source.len() {
            self.source.remove(self.index);
        }
    }

    /// Moves the caret one character left, if it can.
    pub fn left(&mut self)
        requires
            old(self).wf(),
        ensures
            final(self).wf(),
            final(self).text() == old(self).text(),
            final(self).pos() == if old(self).pos() > 0 {
                old(self).pos() - 1
            } else {
                0
            },
    {
        if self.index > 0 {
            self.index = self.index - 1;
        }
    }

    /// Moves the caret one character right, if it can.
    pub fn right(&mut self)
        requires
            old(self).wf(),
        ensures
            final(self).wf(),
            final(self).text() == old(self).text(),
            final(self).pos() == if old(self).pos() < old(self).text().len() {
                old(self).pos() + 1
            } else {
                old(self).pos()
            },
    {
        if self.index < self.source.len() {
            self.index = self.index + 1;
        }
    }

    /// Moves the caret to the start of the text.
    pub fn start(&mut self)
        ensures
            final(self).wf(),
            final(self).text() == old(self).text(),
            final(self).pos() == 0,
    {
        self.index = 0;
    }

    /// Moves the caret to the end of the text.
    pub fn end(&mut self)
        ensures
            final(self).wf(),
            final(self).text() == old(self).text(),
            final(self).pos() == old(self).text().len(),
    {
        self.index = self.source.len();
    }

    /// Empties the text.
    pub fn clear(&mut self)
        ensures
            final(self).wf(),
            final(self).text() == Seq::<char>::empty(),
            final(self).pos() == 0,
    {
        self.source = Vec::new();
        self.index = 0;
    }

    /// Removes the text before the caret.
    pub fn clear_from_start(&mut self)
        requires
            old(self).wf(),
        ensures
            final(self).wf(),
            final(self).text() == old(self).text().subrange(old(self).pos(), old(self).text().len() as int),
            final(self).pos() == 0,
    {
        self.source = cut_range(&self.source, 0, self.index);
        self.index = 0;
        assert(self.source@ =~= cut(old(self).source@, 0, old(self).index as int));
    }

    /// Removes the text after the caret.
    pub fn clear_to_end(&mut self)
        requires
            old(self).wf(),
        ensures
            final(self).wf(),
            final(self).text() == old(self).text().subrange(0, old(self).pos()),
            final(self).pos() == old(self).pos(),
    {
        self.source.truncate(self.index);
    }

    /// Moves the caret to the start of the previous word.
    pub fn prev_word(&mut self, word_chars: &Vec<char>, mode: WordJumpMode)
        requires
            old(self).wf(),
        ensures
            final(self).wf(),
            final(self).text() == old(self).text(),
            final(self).pos() == prev_word_index(old(self).text(), old(self).pos(), word_chars@, mode),
    {
        self.index = find_prev_word(&self.source, self.index, word_chars, mode);
    }

    /// Moves the caret past the end of the next word.
    pub fn next_word(&mut self, word_chars: &Vec<char>, mode: WordJumpMode)
        requires
            old(self).wf(),
        ensures
            final(self).wf(),
            final(self).text() == old(self).text(),
            final(self).pos() == next_word_index(old(self).text(), old(self).pos(), word_chars@, mode),
    {
        self.index = find_next_word(&self.source, self.index, word_chars, mode);
    }

    /// Removes the text between the start of the previous word and the caret.
    pub fn remove_prev_word(&mut self, word_chars: &Vec<char>, mode: WordJumpMode)
        requires
            old(self).wf(),
        ensures
            final(self).wf(),
            final(self).pos() == prev_word_index(old(self).text(), old(self).pos(), word_chars@, mode),
            final(self).text() == cut(old(self).text(), final(self).pos(), old(self).pos()),
    {
        let p = find_prev_word(&self.source, self.index, word_chars, mode);
        self.source = cut_range(&self.source, p, self.index);
        self.index = p;
    }

    /// Removes the text between the caret and the end of the next word.
    pub fn remove_next_word(&mut self, word_chars: &Vec<char>, mode: WordJumpMode)
        requires
            old(self).wf(),
        ensures
            final(self).wf(),
            final(self).pos() == old(self).pos(),
            final(self).text() == cut(
                old(self).text(),
                old(self).pos(),
                next_word_index(old(self).text(), old(self).pos(), word_chars@, mode),
            ),
    {
        let n = find_next_word(&self.source, self.index, word_chars, mode);
        self.source = cut_range(&self.source, self.index, n);
    }
}

} // verus!
