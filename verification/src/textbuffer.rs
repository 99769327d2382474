use vstd::prelude::*;
use vstd::string::StringExecFns;
use crate::event::{KeyCode, KeyEvent};

verus! {

/// Mathematical value of a [`TextBuffer`]: the text as one sequence of
/// characters with embedded `'\n'`, the cursor as an offset into that
/// sequence, and the scroll position in presentation steps.
#[verifier::ext_equal]
pub ghost struct TextView {
    pub text: Seq<char>,
    pub cursor: int,
    pub scroll_row: int,
    pub scroll_col: int,
}

impl TextView {
    pub open spec fn wf(self) -> bool {
        &&& 0 <= self.cursor <= self.text.len()
        &&& 0 <= self.scroll_row <= usize::MAX
        &&& 0 <= self.scroll_col <= usize::MAX
    }
}

/// The view of an empty buffer.
pub open spec fn empty_text() -> TextView {
    TextView { text: Seq::empty(), cursor: 0, scroll_row: 0, scroll_col: 0 }
}

/// The start of the line containing position `pos`: the offset just after the
/// nearest `'\n'` at or before `pos`, or 0 on the first line.
pub open spec fn line_start(text: Seq<char>, pos: int) -> int
    decreases pos,
{
    if pos <= 0 {
        0
    } else if text[pos - 1] == '\n' {
        pos
    } else {
        line_start(text, pos - 1)
    }
}

/// The end of the line containing position `pos`: the offset of the nearest
/// `'\n'` at or after `pos`, or the end of the text on the last line.
pub open spec fn line_end(text: Seq<char>, pos: int) -> int
    decreases text.len() - pos,
{
    if pos >= text.len() {
        text.len() as int
    } else if text[pos] == '\n' {
        pos
    } else {
        line_end(text, pos + 1)
    }
}

/// The first line of the text, without its terminating `'\n'`.
pub open spec fn first_line_of(text: Seq<char>) -> Seq<char> {
    text.take(line_end(text, 0))
}

/// Inserting one character at the cursor.
pub open spec fn insert_char_step(t: TextView, c: char) -> TextView {
    TextView { text: t.text.insert(t.cursor, c), cursor: t.cursor + 1, ..t }
}

/// Inserting a whole sequence at the cursor.
pub open spec fn insert_text_step(t: TextView, s: Seq<char>) -> TextView {
    TextView {
        text: t.text.take(t.cursor) + s + t.text.skip(t.cursor),
        cursor: t.cursor + s.len(),
        ..t
    }
}

/// Deleting the character before the cursor, if any.
pub open spec fn backspace_step(t: TextView) -> TextView {
    if t.cursor > 0 {
        TextView { text: t.text.remove(t.cursor - 1), cursor: t.cursor - 1, ..t }
    } else {
        t
    }
}

/// Deleting the character at the cursor, if any.
pub open spec fn delete_step(t: TextView) -> TextView {
    if t.cursor < t.text.len() {
        TextView { text: t.text.remove(t.cursor), ..t }
    } else {
        t
    }
}

pub open spec fn cursor_left_step(t: TextView) -> TextView {
    if t.cursor > 0 {
        TextView { cursor: t.cursor - 1, ..t }
    } else {
        t
    }
}

pub open spec fn cursor_right_step(t: TextView) -> TextView {
    if t.cursor < t.text.len() {
        TextView { cursor: t.cursor + 1, ..t }
    } else {
        t
    }
}

/// Moving the cursor to the previous line, keeping the column where the
/// previous line is long enough and clamping to its end otherwise. On the
/// first line the cursor stays put.
pub open spec fn cursor_up_step(t: TextView) -> TextView {
    let ls = line_start(t.text, t.cursor);
    if ls == 0 {
        t
    } else {
        let pls = line_start(t.text, ls - 1);
        let col = t.cursor - ls;
        let plen = ls - 1 - pls;
        TextView { cursor: if col <= plen { pls + col } else { pls + plen }, ..t }
    }
}

/// Moving the cursor to the next line, keeping the column where possible.
/// On the last line the cursor stays put.
pub open spec fn cursor_down_step(t: TextView) -> TextView {
    let le = line_end(t.text, t.cursor);
    if le == t.text.len() {
        t
    } else {
        let ls = line_start(t.text, t.cursor);
        let col = t.cursor - ls;
        let nls = le + 1;
        let nle = line_end(t.text, nls);
        TextView { cursor: if col <= nle - nls { nls + col } else { nle }, ..t }
    }
}

pub open spec fn scroll_up_step(t: TextView) -> TextView {
    if t.scroll_row > 0 {
        TextView { scroll_row: t.scroll_row - 1, ..t }
    } else {
        t
    }
}

pub open spec fn scroll_down_step(t: TextView) -> TextView {
    if t.scroll_row < usize::MAX {
        TextView { scroll_row: t.scroll_row + 1, ..t }
    } else {
        t
    }
}

pub open spec fn scroll_left_step(t: TextView) -> TextView {
    if t.scroll_col > 0 {
        TextView { scroll_col: t.scroll_col - 1, ..t }
    } else {
        t
    }
}

pub open spec fn scroll_right_step(t: TextView) -> TextView {
    if t.scroll_col < usize::MAX {
        TextView { scroll_col: t.scroll_col + 1, ..t }
    } else {
        t
    }
}

/// What one key-press does to a buffer in editing: printable keys insert,
/// `Enter` breaks the line, `Tab` inserts a tab character, the remaining
/// editing keys delete or move the cursor, and everything else is a no-op.
pub open spec fn input_step(t: TextView, key: KeyEvent) -> TextView {
    match key.code {
        KeyCode::Char(c) => insert_char_step(t, c),
        KeyCode::Enter => insert_char_step(t, '\n'),
        KeyCode::Tab => insert_char_step(t, '\t'),
        KeyCode::Backspace => backspace_step(t),
        KeyCode::Delete => delete_step(t),
        KeyCode::Left => cursor_left_step(t),
        KeyCode::Right => cursor_right_step(t),
        KeyCode::Up => cursor_up_step(t),
        KeyCode::Down => cursor_down_step(t),
        KeyCode::Esc | KeyCode::PageUp | KeyCode::PageDown | KeyCode::Other => t,
    }
}

/// Relies on `String`'s `FromIterator<char>` impl: collecting an iterator of
/// characters yields the string of exactly those characters, in order.
#[verifier::external_body]
fn chars_to_string(v: &Vec<char>) -> (r: String)
    ensures
        r@ == v@,
{
    v.iter().collect()
}

/// Relies on `str::chars`: iterating a string slice yields exactly its
/// characters, in order.
#[verifier::external_body]
fn str_to_chars(s: &str) -> (r: Vec<char>)
    ensures
        r@ == s@,
{
    s.chars().collect()
}

/// An editable text buffer with a cursor, owned by the controller. It stands
/// in for the interior-mutable widget state of the presentation layer: the
/// renderer reads it, only the controller writes it. The scroll position
/// counts whole presentation steps (half pages vertically, fixed jumps
/// horizontally); the renderer maps steps to its viewport.
#[derive(Debug)]
pub struct TextBuffer {
    text: Vec<char>,
    cursor: usize,
    scroll_row: usize,
    scroll_col: usize,
}

impl View for TextBuffer {
    type V = TextView;

    closed spec fn view(&self) -> TextView {
        TextView {
            text: self.text@,
            cursor: self.cursor as int,
            scroll_row: self.scroll_row as int,
            scroll_col: self.scroll_col as int,
        }
    }
}

impl TextBuffer {
    pub fn new() -> (r: Self)
        ensures
            r@ == empty_text(),
    {
        TextBuffer { text: Vec::new(), cursor: 0, scroll_row: 0, scroll_col: 0 }
    }

    pub fn cursor(&self) -> (r: usize)
        ensures
            r == self@.cursor,
    {
        self.cursor
    }

    pub fn scroll_row(&self) -> (r: usize)
        ensures
            r == self@.scroll_row,
    {
        self.scroll_row
    }

    pub fn scroll_col(&self) -> (r: usize)
        ensures
            r == self@.scroll_col,
    {
        self.scroll_col
    }

    /// The whole content as one string, lines separated by `'\n'`.
    pub fn text(&self) -> (r: String)
        ensures
            r@ == self@.text,
    {
        chars_to_string(&self.text)
    }

    /// The first line, without its terminating `'\n'`.
    pub fn first_line(&self) -> (r: String)
        ensures
            r@ == first_line_of(self@.text),
    {
        let e = self.find_line_end(0);
        let mut out: Vec<char> = Vec::new();
        let mut i: usize = 0;
        while i < e
            invariant
                i <= e <= self@.text.len(),
                out@ == self@.text.take(i as int),
            decreases e - i,
        {
            out.push(self.text[i]);
            proof {
                assert(out@ =~= self@.text.take(i + 1 as int));
            }
            i = i + 1;
        }
        chars_to_string(&out)
    }

    /// Apply one key-press to the buffer.
    pub fn input(&mut self, key: KeyEvent)
        requires
            old(self)@.wf(),
        ensures
            final(self)@ == input_step(old(self)@, key),
            final(self)@.wf(),
    {
        match key.code {
            KeyCode::Char(c) => self.insert_char(c),
            KeyCode::Enter => self.insert_char('\n'),
            KeyCode::Tab => self.insert_char('\t'),
            KeyCode::Backspace => self.backspace(),
            KeyCode::Delete => self.delete(),
            KeyCode::Left => self.cursor_left(),
            KeyCode::Right => self.cursor_right(),
            KeyCode::Up => self.cursor_up(),
            KeyCode::Down => self.cursor_down(),
            KeyCode::Esc | KeyCode::PageUp | KeyCode::PageDown | KeyCode::Other => {},
        }
    }

    pub fn insert_char(&mut self, c: char)
        requires
            old(self)@.wf(),
        ensures
            final(self)@ == insert_char_step(old(self)@, c),
            final(self)@.wf(),
    {
        self.text.insert(self.cursor, c);
        let n = self.text.len();
        proof {
            assert(old(self)@.cursor + 1 <= n);
        }
        self.cursor = self.cursor + 1;
    }

    /// Insert a whole string at the cursor; the cursor ends up after it.
    pub fn insert_str(&mut self, s: &str)
        requires
            old(self)@.wf(),
        ensures
            final(self)@ == insert_text_step(old(self)@, s@),
            final(self)@.wf(),
    {
        let sc = str_to_chars(s);
        let n = self.text.len();
        let mut out: Vec<char> = Vec::new();
        let mut i: usize = 0;
        while i < self.cursor
            invariant
                i <= self@.cursor <= self@.text.len(),
                out@ == self@.text.take(i as int),
                self@ == old(self)@,
            decreases self@.cursor - i,
        {
            out.push(self.text[i]);
            proof {
                assert(out@ =~= self@.text.take(i + 1 as int));
            }
            i = i + 1;
        }
        let mut j: usize = 0;
        while j < sc.len()
            invariant
                j <= sc@.len(),
                sc@ == s@,
                out@ == self@.text.take(self@.cursor) + sc@.take(j as int),
                self@ == old(self)@,
            decreases sc@.len() - j,
        {
            out.push(sc[j]);
            proof {
                assert(out@ =~= self@.text.take(self@.cursor) + sc@.take(j + 1 as int));
            }
            j = j + 1;
        }
        let mut k: usize = self.cursor;
        while k < self.text.len()
            invariant
                self@.cursor <= k <= self@.text.len(),
                sc@ == s@,
                out@ == self@.text.take(self@.cursor) + sc@ + self@.text.subrange(
                    self@.cursor,
                    k as int,
                ),
                self@ == old(self)@,
            decreases self@.text.len() - k,
        {
            out.push(self.text[k]);
            proof {
                assert(out@ =~= self@.text.take(self@.cursor) + sc@ + self@.text.subrange(
                    self@.cursor,
                    k + 1 as int,
                ));
            }
            k = k + 1;
        }
        proof {
            assert(self@.text.subrange(self@.cursor, self@.text.len() as int) =~= self@.text.skip(
                self@.cursor,
            ));
        }
        let m = out.len();
        proof {
            assert(self@.cursor + sc@.len() <= m);
        }
        self.text = out;
        self.cursor = self.cursor + sc.len();
    }

    pub fn backspace(&mut self)
        requires
            old(self)@.wf(),
        ensures
            final(self)@ == backspace_step(old(self)@),
            final(self)@.wf(),
    {
        if self.cursor > 0 {
            self.text.remove(self.cursor - 1);
            self.cursor = self.cursor - 1;
        }
    }

    pub fn delete(&mut self)
        requires
            old(self)@.wf(),
        ensures
            final(self)@ == delete_step(old(self)@),
            final(self)@.wf(),
    {
        if self.cursor < self.text.len() {
            self.text.remove(self.cursor);
        }
    }

    pub fn cursor_left(&mut self)
        requires
            old(self)@.wf(),
        ensures
            final(self)@ == cursor_left_step(old(self)@),
            final(self)@.wf(),
    {
        if self.cursor > 0 {
            self.cursor = self.cursor - 1;
        }
    }

    pub fn cursor_right(&mut self)
        requires
            old(self)@.wf(),
        ensures
            final(self)@ == cursor_right_step(old(self)@),
            final(self)@.wf(),
    {
        if self.cursor < self.text.len() {
            self.cursor = self.cursor + 1;
        }
    }

    pub fn cursor_up(&mut self)
        requires
            old(self)@.wf(),
        ensures
            final(self)@ == cursor_up_step(old(self)@),
            final(self)@.wf(),
    {
        let ls = self.find_line_start(self.cursor);
        if ls == 0 {
            return ;
        }
        let pls = self.find_line_start(ls - 1);
        let col = self.cursor - ls;
        let plen = (ls - 1) - pls;
        self.cursor = if col <= plen {
            pls + col
        } else {
            pls + plen
        };
    }

    pub fn cursor_down(&mut self)
        requires
            old(self)@.wf(),
        ensures
            final(self)@ == cursor_down_step(old(self)@),
            final(self)@.wf(),
    {
        let le = self.find_line_end(self.cursor);
        if le == self.text.len() {
            return ;
        }
        let ls = self.find_line_start(self.cursor);
        let col = self.cursor - ls;
        let nls = le + 1;
        let nle = self.find_line_end(nls);
        self.cursor = if col <= nle - nls {
            nls + col
        } else {
            nle
        };
    }

    pub fn scroll_up(&mut self)
        ensures
            final(self)@ == scroll_up_step(old(self)@),
    {
        if self.scroll_row > 0 {
            self.scroll_row = self.scroll_row - 1;
        }
    }

    pub fn scroll_down(&mut self)
        ensures
            final(self)@ == scroll_down_step(old(self)@),
    {
        if self.scroll_row < usize::MAX {
            self.scroll_row = self.scroll_row + 1;
        }
    }

    pub fn scroll_left(&mut self)
        ensures
            final(self)@ == scroll_left_step(old(self)@),
    {
        if self.scroll_col > 0 {
            self.scroll_col = self.scroll_col - 1;
        }
    }

    pub fn scroll_right(&mut self)
        ensures
            final(self)@ == scroll_right_step(old(self)@),
    {
        if self.scroll_col < usize::MAX {
            self.scroll_col = self.scroll_col + 1;
        }
    }

    /// The offset where the line containing `pos` starts.
    fn find_line_start(&self, pos: usize) -> (r: usize)
        requires
            pos <= self@.text.len(),
        ensures
            r == line_start(self@.text, pos as int),
            r <= pos,
            r == 0 || self@.text[r - 1] == '\n',
    {
        let mut i = pos;
        while i > 0
            invariant
                i <= pos <= self@.text.len(),
                line_start(self@.text, pos as int) == line_start(self@.text, i as int),
            decreases i,
        {
            if self.text[i - 1] == '\n' {
                return i;
            }
            i = i - 1;
        }
        0
    }

    /// The offset where the line containing `pos` ends: the position of its
    /// `'\n'`, or the end of the text.
    fn find_line_end(&self, pos: usize) -> (r: usize)
        requires
            pos <= self@.text.len(),
        ensures
            r == line_end(self@.text, pos as int),
            pos <= r <= self@.text.len(),
            r == self@.text.len() || self@.text[r as int] == '\n',
    {
        let mut i = pos;
        while i < self.text.len()
            invariant
                pos <= i <= self@.text.len(),
                line_end(self@.text, pos as int) == line_end(self@.text, i as int),
            decreases self@.text.len() - i,
        {
            if self.text[i] == '\n' {
                return i;
            }
            i = i + 1;
        }
        i
    }
}

} // verus!
