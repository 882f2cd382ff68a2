//! Prompts: what they write and how they react to keys.
//!
//! A selection prompt shows a list of options, one of them under the
//! cursor, and in its multiple form a mark on each option. Keys move the
//! cursor and toggle marks until Enter confirms. This module holds the
//! state of such a prompt, the step it takes on each key, and the text that
//! keeps the screen in line with the state. It also holds the texts of the
//! line prompt and the frames of the spinner.

use crate::control::{
    clear_line, clear_line_text, motion_text, move_cursor_down, move_cursor_up, Visibility,
};
use crate::read::{IoError, Key};
use crate::styled::{styled, Color, StyleSpec, StyledText};
use vstd::prelude::*;
use vstd::utf8::encode_utf8;

verus! {

/// A wrapper for inputs that may be left empty.
#[derive(Clone, Copy, PartialEq, PartialOrd, Eq, Ord, Debug, Hash, Default)]
pub enum Empty<T> {
    /// The input held a value.
    Value(T),
    /// The input was blank.
    #[default]
    Blank,
}

impl<T> Empty<T> {
    /// What a line of input stands for, given the line without the
    /// whitespace round it and what parsing that gave: nothing where the
    /// line is blank, else the parsed value or the parser's error.
    pub fn from_trimmed<E>(trimmed: &str, parsed: Result<T, E>) -> (value: Result<Empty<T>, E>)
        ensures
            value == (if trimmed@.len() == 0 {
                Ok(Empty::Blank)
            } else {
                match parsed {
                    Ok(v) => Ok(Empty::Value(v)),
                    Err(e) => Err(e),
                }
            }),
    {
        if trimmed.is_empty() {
            Ok(Empty::Blank)
        } else {
            match parsed {
                Ok(v) => Ok(Empty::Value(v)),
                Err(e) => Err(e),
            }
        }
    }
}

/// The texts of a list of string slices.
pub open spec fn labels(options: Seq<&str>) -> Seq<Seq<char>> {
    Seq::new(options.len(), |i: int| options[i]@)
}

/// Enumeration representing different types of spinners.
#[derive(Debug, Clone)]
pub enum SpinnerType {
    /// Spinner with characters `/` `-` `\` `|`.
    Standard,
    /// Spinner with dots `.` `..` `...` `.....`.
    Dots,
    /// Spinner with box characters `▌` `▀` `▐` `▄`.
    Box,
    /// Spinner with flip characters `_` `_` `_` `-` `\` `'` `´` `-` `_` `_` `_`.
    Flip,
    /// Custom spinner with user-defined frames.
    Custom(&'static [&'static str]),
}

impl SpinnerType {
    /// The frames of each spinner type, in the order they are shown.
    pub open spec fn frame_texts(self) -> Seq<Seq<char>> {
        match self {
            SpinnerType::Standard => seq!["/"@, "-"@, "\\"@, "|"@],
            SpinnerType::Dots => seq!["."@, ".."@, "..."@, "...."@, "..."@, ".."@],
            SpinnerType::Box => seq!["▌"@, "▀"@, "▐"@, "▄"@],
            SpinnerType::Flip => seq![
                "_"@,
                "_"@,
                "_"@,
                "-"@,
                "`"@,
                "`"@,
                "'"@,
                "´"@,
                "-"@,
                "_"@,
                "_"@,
                "_"@,
            ],
            SpinnerType::Custom(frames) => labels(frames@),
        }
    }

    /// Returns the frames of the spinner type.
    pub fn frames(&self) -> (frames: &'static [&'static str])
        ensures
            labels(frames@) == self.frame_texts(),
    {
        let frames: &'static [&'static str] = match self {
            SpinnerType::Standard => &["/", "-", "\\", "|"],
            SpinnerType::Dots => &[".", "..", "...", "....", "...", ".."],
            SpinnerType::Box => &["▌", "▀", "▐", "▄"],
            SpinnerType::Flip => &["_", "_", "_", "-", "`", "`", "'", "´", "-", "_", "_", "_"],
            SpinnerType::Custom(frames) => frames,
        };
        assert(labels(frames@) =~= self.frame_texts());
        frames
    }
}

/// What a gradual reveal of `text` shows in `steps` steps: character after
/// character, and a space at each step beyond the last character.
pub open spec fn reveal_text(text: Seq<char>, steps: nat) -> Seq<char> {
    Seq::new(
        steps,
        |i: int|
            if i < text.len() {
                text[i]
            } else {
                ' '
            },
    )
}

/// The characters that a gradual reveal of `text` shows, one at each step.
/// There are as many steps as the text has bytes, so a text with
/// characters of more than one byte ends in spaces.
pub fn reveal_steps(text: &str) -> (shown: Vec<char>)
    ensures
        shown@ == reveal_text(text@, encode_utf8(text@).len()),
{
    let steps = text.as_bytes().len();
    let count = text.unicode_len();
    let mut shown: Vec<char> = Vec::new();
    let mut i: usize = 0;
    while i < steps
        invariant
            i <= steps,
            steps == encode_utf8(text@).len(),
            count == text@.len(),
            shown@ == reveal_text(text@, i as nat),
        decreases steps - i,
    {
        let c = if i < count {
            text.get_char(i)
        } else {
            ' '
        };
        shown.push(c);
        assert(shown@ =~= reveal_text(text@, (i + 1) as nat));
        i += 1;
    }
    shown
}

/// The frame that follows frame `current` of `count`: the next one, and
/// the first one again after the last.
pub fn next_frame(current: usize, count: usize) -> (next: usize)
    ensures
        next == (if current + 1 < count {
            current + 1
        } else {
            0
        }),
{
    if current < count && current + 1 < count {
        current + 1
    } else {
        0
    }
}

/// A text in one foreground colour.
pub open spec fn colored(text: Seq<char>, color: Color) -> Seq<char> {
    styled(text, StyleSpec::plain().with_fg(color))
}

/// The question that stands before an input: a red question mark, the
/// caller's text, a grey caret and a space.
pub open spec fn prompt_text(before: Seq<char>) -> Seq<char> {
    colored("?"@, Color::Red) + " "@ + before + " "@ + colored("›"@, Color::BrightBlack) + " "@
}

/// The notice shown for a line that could not be parsed.
pub open spec fn invalid_input_text() -> Seq<char> {
    "\n"@ + colored("X"@, Color::Red) + " Invalid Input Type\n\n"@
}

/// One row of a selection list. The row under the cursor has a green caret
/// before it and is cyan, or green if it is marked; a marked row elsewhere
/// is green and indented; any other row is plain and indented.
pub open spec fn row_text(label: Seq<char>, current: bool, marked: bool) -> Seq<char> {
    if current {
        " "@ + colored("›"@, Color::Green) + " "@ + colored(
            label,
            if marked {
                Color::Green
            } else {
                Color::Cyan
            },
        )
    } else if marked {
        "   "@ + colored(label, Color::Green)
    } else {
        "   "@ + label
    }
}

/// Whether `row` is marked: it is where there are marks, one of them is
/// its own, and that one is set.
pub open spec fn is_marked(marks: Option<Seq<bool>>, row: int) -> bool {
    marks matches Some(m) && 0 <= row < m.len() && m[row]
}

/// The first `count` rows of a list, each behind a cleared line and ended
/// by a line feed.
pub open spec fn rows_text(
    options: Seq<Seq<char>>,
    marks: Option<Seq<bool>>,
    cursor: nat,
    count: nat,
) -> Seq<char>
    decreases count,
{
    if count == 0 {
        Seq::empty()
    } else {
        let row = (count - 1) as int;
        rows_text(options, marks, cursor, (count - 1) as nat) + clear_line_text() + row_text(
            options[row],
            row == cursor,
            is_marked(marks, row),
        ) + "\n"@
    }
}

/// The whole list, after which the cursor returns to its first row.
pub open spec fn frame_text(options: Seq<Seq<char>>, marks: Option<Seq<bool>>, cursor: nat) -> Seq<
    char,
> {
    rows_text(options, marks, cursor, options.len()) + motion_text(options.len(), "A"@)
}

/// The marks as a sequence, where there are any.
pub open spec fn marks_view(matrix: Option<&[bool]>) -> Option<Seq<bool>> {
    match matrix {
        Some(m) => Some(m@),
        None => None,
    }
}

/// `text` in the colour `color`.
fn paint(text: &str, color: Color) -> (out: String)
    ensures
        out@ == colored(text@, color),
{
    StyledText::new(text).fg(color).format_sequence()
}

/// The question that stands before an input.
pub fn prompt(before: &str) -> (out: String)
    ensures
        out@ == prompt_text(before@),
{
    let mut out = paint("?", Color::Red);
    out.append(" ");
    out.append(before);
    out.append(" ");
    out.append(paint("›", Color::BrightBlack).as_str());
    out.append(" ");
    out
}

/// The notice shown for a line that could not be parsed.
pub fn invalid_input() -> (out: String)
    ensures
        out@ == invalid_input_text(),
{
    let mut out = String::new();
    out.append("\n");
    out.append(paint("X", Color::Red).as_str());
    out.append(" Invalid Input Type\n\n");
    out
}

/// One row of a selection list.
pub fn row(label: &str, current: bool, marked: bool) -> (out: String)
    ensures
        out@ == row_text(label@, current, marked),
{
    let mut out = String::new();
    if current {
        out.append(" ");
        out.append(paint("›", Color::Green).as_str());
        out.append(" ");
        if marked {
            out.append(paint(label, Color::Green).as_str());
        } else {
            out.append(paint(label, Color::Cyan).as_str());
        }
    } else if marked {
        out.append("   ");
        out.append(paint(label, Color::Green).as_str());
    } else {
        out.append("   ");
        out.append(label);
    }
    out
}

/// Whether row `index` is marked.
fn marked_at(matrix: Option<&[bool]>, index: usize) -> (marked: bool)
    ensures
        marked == is_marked(marks_view(matrix), index as int),
{
    match matrix {
        Some(m) => index < m.len() && m[index],
        None => false,
    }
}

/// The text that draws the whole list: every row on a cleared line, the
/// row at `cursor` highlighted and the marked rows coloured, and at the end
/// the way back up to the first row.
pub fn populate(options: &[&str], matrix: Option<&[bool]>, cursor: usize) -> (out: String)
    ensures
        out@ == frame_text(labels(options@), marks_view(matrix), cursor as nat),
{
    let mut out = String::new();
    let mut i: usize = 0;
    while i < options.len()
        invariant
            i <= options.len(),
            out@ == rows_text(labels(options@), marks_view(matrix), cursor as nat, i as nat),
        decreases options.len() - i,
    {
        out.append(clear_line().as_str());
        out.append(row(options[i], i == cursor, marked_at(matrix, i)).as_str());
        out.append("\n");
        i += 1;
    }
    out.append(move_cursor_up(options.len()).as_str());
    out
}

/// Whether a key moves the cursor up: the up arrow, `w` or `W`.
pub open spec fn moves_up(key: Key) -> bool {
    key == Key::ArrowUp || key == Key::Char('w') || key == Key::Char('W')
}

/// Whether a key moves the cursor down: the down arrow, `s` or `S`.
pub open spec fn moves_down(key: Key) -> bool {
    key == Key::ArrowDown || key == Key::Char('s') || key == Key::Char('S')
}

/// Whether a key toggles the mark under the cursor: the space bar.
pub open spec fn toggles(key: Key) -> bool {
    key == Key::Char(' ')
}

/// What a key does to a selection.
#[derive(Debug, Clone, Copy, PartialEq, Eq, Structural)]
pub enum Transition {
    /// The cursor went one row up.
    MoveUp,
    /// The cursor went one row down.
    MoveDown,
    /// The mark of the row under the cursor changed.
    ToggleMark,
    /// The selection was confirmed.
    Confirm,
    /// Nothing changed.
    Stay,
}

/// A selection as a value: the labels of the options, the row under the
/// cursor and, in a multiple selection, the mark of every row.
pub struct Selection {
    pub options: Seq<Seq<char>>,
    pub cursor: nat,
    pub marks: Option<Seq<bool>>,
}

impl Selection {
    /// There is at least one option, the cursor is on one of them, and
    /// there is one mark for each option where there are marks at all.
    pub open spec fn wf(self) -> bool {
        &&& self.options.len() >= 1
        &&& self.cursor < self.options.len()
        &&& self.marks matches Some(m) ==> m.len() == self.options.len()
    }

    /// A single selection at its start: the cursor on the first row.
    pub open spec fn single(options: Seq<Seq<char>>) -> Selection {
        Selection { options, cursor: 0, marks: None }
    }

    /// A multiple selection at its start: the cursor on the first row and
    /// no row marked.
    pub open spec fn multiple(options: Seq<Seq<char>>) -> Selection {
        Selection { options, cursor: 0, marks: Some(Seq::new(options.len(), |i: int| false)) }
    }

    /// What `key` does. A move at the edge of the list, the space bar in a
    /// single selection and every key without a meaning do nothing.
    pub open spec fn transition(self, key: Key) -> Transition {
        if moves_up(key) {
            if self.cursor > 0 {
                Transition::MoveUp
            } else {
                Transition::Stay
            }
        } else if moves_down(key) {
            if self.cursor + 1 < self.options.len() {
                Transition::MoveDown
            } else {
                Transition::Stay
            }
        } else if toggles(key) && self.marks is Some {
            Transition::ToggleMark
        } else if key == Key::Enter {
            Transition::Confirm
        } else {
            Transition::Stay
        }
    }

    /// The selection after `key`.
    pub open spec fn after(self, key: Key) -> Selection {
        match self.transition(key) {
            Transition::MoveUp => Selection { cursor: (self.cursor - 1) as nat, ..self },
            Transition::MoveDown => Selection { cursor: self.cursor + 1, ..self },
            Transition::ToggleMark => Selection {
                marks: Some(
                    self.marks.unwrap().update(
                        self.cursor as int,
                        !self.marks.unwrap()[self.cursor as int],
                    ),
                ),
                ..self
            },
            _ => self,
        }
    }

    /// The text of one row as the selection stands.
    pub open spec fn row(self, row: nat) -> Seq<char> {
        row_text(self.options[row as int], row == self.cursor, is_marked(self.marks, row as int))
    }

    /// The text that draws the whole list and returns to its first row.
    pub open spec fn frame(self) -> Seq<char> {
        frame_text(self.options, self.marks, self.cursor)
    }

    /// The text that draws one row anew, starting from the first row of
    /// the list and returning to it: down to the row, the line cleared,
    /// the row and a line feed, and up again by one row more.
    pub open spec fn repaint(self, row: nat) -> Seq<char> {
        motion_text(row, "B"@) + clear_line_text() + self.row(row) + "\n"@ + motion_text(
            row + 1,
            "A"@,
        )
    }

    /// The text that brings the screen in line after `key`: the row that
    /// the cursor left and the row it reached are drawn anew after a move,
    /// the row under the cursor after a toggle, and nothing else ever.
    pub open spec fn redraw(self, key: Key) -> Seq<char> {
        let next = self.after(key);
        match self.transition(key) {
            Transition::MoveUp | Transition::MoveDown => next.repaint(self.cursor) + next.repaint(
                next.cursor,
            ),
            Transition::ToggleMark => next.repaint(self.cursor),
            _ => Seq::empty(),
        }
    }

    /// The text that ends the prompt: down below the last row.
    pub open spec fn closing(self) -> Seq<char> {
        motion_text(self.options.len(), "B"@)
    }

    /// The selection as Enter finds it when `keys` are pressed in turn, or
    /// `None` where Enter is not among them. Keys after the first Enter
    /// play no part.
    pub open spec fn run(self, keys: Seq<Key>) -> Option<Selection>
        decreases keys.len(),
    {
        if keys.len() == 0 {
            None
        } else if keys[0] == Key::Enter {
            Some(self)
        } else {
            self.after(keys[0]).run(keys.drop_first())
        }
    }

    /// Everything a prompt writes while `keys` are pressed in turn: the
    /// redraw for each key up to the first Enter and, once Enter has come,
    /// the closing text and the sequence that shows the cursor again.
    pub open spec fn session(self, keys: Seq<Key>) -> Seq<char>
        decreases keys.len(),
    {
        if keys.len() == 0 {
            Seq::empty()
        } else if keys[0] == Key::Enter {
            self.closing() + Visibility::show_text()
        } else {
            self.redraw(keys[0]) + self.after(keys[0]).session(keys.drop_first())
        }
    }

    /// Everything a prompt writes before the first key: the question on a
    /// line of its own, the list, and the sequence that hides the cursor.
    pub open spec fn opening(self, before: Seq<char>) -> Seq<char> {
        prompt_text(before) + "\n"@ + self.frame() + Visibility::hide_text()
    }
}

fn is_up(key: Key) -> (up: bool)
    ensures
        up == moves_up(key),
{
    key == Key::ArrowUp || key == Key::Char('w') || key == Key::Char('W')
}

fn is_down(key: Key) -> (down: bool)
    ensures
        down == moves_down(key),
{
    key == Key::ArrowDown || key == Key::Char('s') || key == Key::Char('S')
}

fn is_toggle(key: Key) -> (toggle: bool)
    ensures
        toggle == toggles(key),
{
    key == Key::Char(' ')
}

/// The state of a selection prompt: the options, the cursor and, in a
/// multiple selection, the marks.
pub struct SelectionState<'a> {
    options: &'a [&'a str],
    cursor: usize,
    multiple: bool,
    marks: Vec<bool>,
}

impl<'a> View for SelectionState<'a> {
    type V = Selection;

    closed spec fn view(&self) -> Selection {
        Selection {
            options: labels(self.options@),
            cursor: self.cursor as nat,
            marks: if self.multiple {
                Some(self.marks@)
            } else {
                None
            },
        }
    }
}

impl<'a> SelectionState<'a> {
    /// A single selection over `options`, the cursor on the first.
    pub fn single(options: &'a [&'a str]) -> (state: Self)
        requires
            options@.len() >= 1,
        ensures
            state@ == Selection::single(labels(options@)),
            state@.wf(),
    {
        SelectionState { options, cursor: 0, multiple: false, marks: Vec::new() }
    }

    /// A multiple selection over `options`, the cursor on the first and
    /// nothing marked.
    pub fn multiple(options: &'a [&'a str]) -> (state: Self)
        requires
            options@.len() >= 1,
        ensures
            state@ == Selection::multiple(labels(options@)),
            state@.wf(),
    {
        let mut marks: Vec<bool> = Vec::new();
        let mut i: usize = 0;
        while i < options.len()
            invariant
                i <= options.len(),
                marks@ == Seq::new(i as nat, |k: int| false),
            decreases options.len() - i,
        {
            marks.push(false);
            assert(marks@ =~= Seq::new((i + 1) as nat, |k: int| false));
            i += 1;
        }
        SelectionState { options, cursor: 0, multiple: true, marks }
    }

    /// The row under the cursor.
    pub fn cursor(&self) -> (cursor: usize)
        ensures
            cursor == self@.cursor,
    {
        self.cursor
    }

    /// The marks in the order of the options; `None` in a single selection.
    pub fn marks(&self) -> (marks: Option<Vec<bool>>)
        ensures
            match marks {
                Some(m) => self@.marks == Some(m@),
                None => self@.marks is None,
            },
    {
        if self.multiple {
            Some(self.marks.clone())
        } else {
            None
        }
    }

    /// The text that draws the whole list.
    pub fn frame(&self) -> (out: String)
        ensures
            out@ == self@.frame(),
    {
        if self.multiple {
            populate(self.options, Some(self.marks.as_slice()), self.cursor)
        } else {
            populate(self.options, None, self.cursor)
        }
    }

    /// The text that draws `row` anew.
    fn repaint(&self, row: usize) -> (out: String)
        requires
            self@.wf(),
            row < self@.options.len(),
        ensures
            out@ == self@.repaint(row as nat),
    {
        let marked = self.multiple && row < self.marks.len() && self.marks[row];
        let mut out = move_cursor_down(row);
        out.append(clear_line().as_str());
        out.append(crate::input::row(self.options[row], row == self.cursor, marked).as_str());
        out.append("\n");
        out.append(move_cursor_up(row + 1).as_str());
        out
    }

    /// Takes one key: changes the state as the key asks, and gives what
    /// the key did together with the text that redraws what changed.
    pub fn handle_key(&mut self, key: Key) -> (step: (Transition, String))
        requires
            old(self)@.wf(),
        ensures
            step.0 == old(self)@.transition(key),
            step.1@ == old(self)@.redraw(key),
            final(self)@ == old(self)@.after(key),
            final(self)@.wf(),
    {
        let count = self.options.len();
        assert(self.cursor < count);
        if is_up(key) {
            if self.cursor > 0 {
                let from = self.cursor;
                self.cursor = from - 1;
                let mut out = self.repaint(from);
                out.append(self.repaint(self.cursor).as_str());
                (Transition::MoveUp, out)
            } else {
                (Transition::Stay, String::new())
            }
        } else if is_down(key) {
            if self.cursor + 1 < count {
                let from = self.cursor;
                self.cursor = from + 1;
                let mut out = self.repaint(from);
                out.append(self.repaint(self.cursor).as_str());
                (Transition::MoveDown, out)
            } else {
                (Transition::Stay, String::new())
            }
        } else if is_toggle(key) && self.multiple {
            let row = self.cursor;
            let marked = self.marks[row];
            self.marks.set(row, !marked);
            (Transition::ToggleMark, self.repaint(row))
        } else if key == Key::Enter {
            (Transition::Confirm, String::new())
        } else {
            (Transition::Stay, String::new())
        }
    }

    /// Takes what one attempt to read a key gave. A failed read is passed
    /// over: the state stays as it is and nothing is redrawn.
    pub fn handle_read(&mut self, read: Result<Key, IoError>) -> (step: (Transition, String))
        requires
            old(self)@.wf(),
        ensures
            final(self)@.wf(),
            match read {
                Ok(key) => {
                    &&& step.0 == old(self)@.transition(key)
                    &&& step.1@ == old(self)@.redraw(key)
                    &&& final(self)@ == old(self)@.after(key)
                },
                Err(_) => {
                    &&& step.0 == Transition::Stay
                    &&& step.1@ == Seq::<char>::empty()
                    &&& final(self)@ == old(self)@
                },
            },
    {
        match read {
            Ok(key) => self.handle_key(key),
            Err(_) => (Transition::Stay, String::new()),
        }
    }

    /// Ends a multiple selection and gives its marks, in the order of the
    /// options. A single selection has none and gives an empty list.
    pub fn into_marks(self) -> (marks: Vec<bool>)
        ensures
            marks@ == (match self@.marks {
                Some(m) => m,
                None => Seq::empty(),
            }),
    {
        if self.multiple {
            self.marks
        } else {
            Vec::new()
        }
    }

    /// The text that ends the prompt: the cursor goes below the last row,
    /// so that what is written next does not overwrite the list.
    pub fn finish(&self) -> (out: String)
        ensures
            out@ == self@.closing(),
    {
        move_cursor_down(self.options.len())
    }
}

/// Concatenation may be bracketed either way.
proof fn lemma_concat_assoc(a: Seq<char>, b: Seq<char>, c: Seq<char>)
    ensures
        (a + b) + c == a + (b + c),
{
    assert((a + b) + c =~= a + (b + c));
}

/// What playing the keys from the `i`-th on comes to, in terms of that key
/// and the keys behind it.
proof fn lemma_play_unfold(selection: Selection, keys: Seq<Key>, i: int)
    requires
        0 <= i < keys.len(),
    ensures
        selection.run(keys.skip(i)) == (if keys[i] == Key::Enter {
            Some(selection)
        } else {
            selection.after(keys[i]).run(keys.skip(i + 1))
        }),
        selection.session(keys.skip(i)) == (if keys[i] == Key::Enter {
            selection.closing() + Visibility::show_text()
        } else {
            selection.redraw(keys[i]) + selection.after(keys[i]).session(keys.skip(i + 1))
        }),
{
    assert(keys.skip(i)[0] == keys[i]);
    assert(keys.skip(i).drop_first() =~= keys.skip(i + 1));
}

/// Presses the keys in turn until Enter comes or the keys end, and
/// appends to `out` what the prompt writes. The result says whether Enter
/// came.
fn play(state: &mut SelectionState, keys: &[Key], out: &mut String) -> (confirmed: bool)
    requires
        old(state)@.wf(),
    ensures
        final(state)@.wf(),
        confirmed == (old(state)@.run(keys@) is Some),
        confirmed ==> old(state)@.run(keys@) == Some(final(state)@),
        final(out)@ == old(out)@ + old(state)@.session(keys@),
{
    let visibility = Visibility::new();
    let mut i: usize = 0;
    proof {
        assert(keys@.skip(0) =~= keys@);
    }
    while i < keys.len()
        invariant
            i <= keys.len(),
            state@.wf(),
            state@.run(keys@.skip(i as int)) == old(state)@.run(keys@),
            out@ + state@.session(keys@.skip(i as int)) == old(out)@ + old(state)@.session(keys@),
        decreases keys.len() - i,
    {
        let ghost before = state@;
        let ghost written = out@;
        proof {
            lemma_play_unfold(before, keys@, i as int);
        }
        let (transition, text) = state.handle_key(keys[i]);
        if transition == Transition::Confirm {
            let closing = state.finish();
            let show = visibility.show_cursor();
            out.append(closing.as_str());
            out.append(show.as_str());
            proof {
                lemma_concat_assoc(written, closing@, show@);
            }
            return true;
        }
        out.append(text.as_str());
        proof {
            lemma_concat_assoc(written, text@, state@.session(keys@.skip(i + 1)));
        }
        i += 1;
    }
    proof {
        assert(out@ + Seq::<char>::empty() =~= out@);
    }
    false
}

/// Writes what a prompt shows before the first key.
fn open_prompt(state: &SelectionState, before: &str) -> (out: String)
    ensures
        out@ == state@.opening(before@),
{
    let mut out = prompt(before);
    out.append("\n");
    out.append(state.frame().as_str());
    out.append(Visibility::new().hide_cursor().as_str());
    out
}

/// A single selection played through: the prompt `before`, the list of
/// `options`, and the keys in `keys` pressed in turn.
///
/// The first result is the row the cursor rests on when Enter comes, or
/// `None` where `keys` holds no Enter. The second is everything the prompt
/// has written by then.
pub fn select(before: &str, options: &[&str], keys: &[Key]) -> (done: (Option<usize>, String))
    requires
        options@.len() >= 1,
    ensures
        done.0 == (match Selection::single(labels(options@)).run(keys@) {
            Some(end) => Some(end.cursor as usize),
            None => None,
        }),
        done.0 is Some <==> keys@.contains(Key::Enter),
        done.0 matches Some(index) ==> index < options@.len(),
        done.1@ == Selection::single(labels(options@)).opening(before@) + Selection::single(
            labels(options@),
        ).session(keys@),
{
    let mut state = SelectionState::single(options);
    let mut out = open_prompt(&state, before);
    proof {
        lemma_run_confirms_on_enter(state@, keys@);
        lemma_run_keeps_wf(state@, keys@);
    }
    if play(&mut state, keys, &mut out) {
        (Some(state.cursor()), out)
    } else {
        (None, out)
    }
}

/// A multiple selection played through: the prompt `before`, the list of
/// `options`, and the keys in `keys` pressed in turn.
///
/// The first result is the marks as they stand when Enter comes, one for
/// each option and in their order, or `None` where `keys` holds no Enter.
/// The second is everything the prompt has written by then.
pub fn multiselect(before: &str, options: &[&str], keys: &[Key]) -> (done: (
    Option<Vec<bool>>,
    String,
))
    requires
        options@.len() >= 1,
    ensures
        match done.0 {
            Some(marks) => Selection::multiple(labels(options@)).run(keys@) matches Some(end)
                && end.marks == Some(marks@),
            None => Selection::multiple(labels(options@)).run(keys@) is None,
        },
        done.0 is Some <==> keys@.contains(Key::Enter),
        done.0 matches Some(marks) ==> marks@.len() == options@.len(),
        done.1@ == Selection::multiple(labels(options@)).opening(before@) + Selection::multiple(
            labels(options@),
        ).session(keys@),
{
    let mut state = SelectionState::multiple(options);
    let mut out = open_prompt(&state, before);
    proof {
        lemma_run_confirms_on_enter(state@, keys@);
        lemma_run_keeps_wf(state@, keys@);
    }
    if play(&mut state, keys, &mut out) {
        (Some(state.into_marks()), out)
    } else {
        (None, out)
    }
}

/// No key takes a well-formed selection out of form: the cursor stays on
/// an option, and there stays one mark for each option.
pub proof fn lemma_after_keeps_wf(selection: Selection, key: Key)
    requires
        selection.wf(),
    ensures
        selection.after(key).wf(),
        selection.after(key).options == selection.options,
        selection.after(key).marks is Some <==> selection.marks is Some,
{
}

/// What Enter finds is well formed, over the same options and of the same
/// kind as the selection that the keys were pressed on.
pub proof fn lemma_run_keeps_wf(selection: Selection, keys: Seq<Key>)
    requires
        selection.wf(),
    ensures
        selection.run(keys) matches Some(end) ==> {
            &&& end.wf()
            &&& end.options == selection.options
            &&& (end.marks is Some <==> selection.marks is Some)
        },
    decreases keys.len(),
{
    if keys.len() > 0 && keys[0] != Key::Enter {
        lemma_after_keeps_wf(selection, keys[0]);
        lemma_run_keeps_wf(selection.after(keys[0]), keys.drop_first());
    }
}

/// A prompt ends exactly if Enter is among the keys.
pub proof fn lemma_run_confirms_on_enter(selection: Selection, keys: Seq<Key>)
    ensures
        selection.run(keys) is Some <==> keys.contains(Key::Enter),
    decreases keys.len(),
{
    if keys.len() > 0 {
        if keys[0] == Key::Enter {
            assert(keys.contains(Key::Enter));
        } else {
            let rest = keys.drop_first();
            lemma_run_confirms_on_enter(selection.after(keys[0]), rest);
            if rest.contains(Key::Enter) {
                let i = choose|i: int| 0 <= i < rest.len() && rest[i] == Key::Enter;
                assert(keys[i + 1] == Key::Enter);
            }
            if keys.contains(Key::Enter) {
                let i = choose|i: int| 0 <= i < keys.len() && keys[i] == Key::Enter;
                assert(rest[i - 1] == Key::Enter);
            }
        }
    }
}

/// With Enter as the first key, a single selection over any list of
/// options gives the first row.
pub proof fn lemma_enter_alone_selects_first(options: Seq<Seq<char>>, keys: Seq<Key>)
    requires
        options.len() >= 1,
        keys.len() >= 1,
        keys[0] == Key::Enter,
    ensures
        Selection::single(options).run(keys) == Some(Selection::single(options)),
        Selection::single(options).run(keys).unwrap().cursor == 0,
{
}

/// The keys of `count` presses of the down arrow and then Enter.
pub open spec fn downs_then_enter(count: nat) -> Seq<Key> {
    Seq::new(count, |i: int| Key::ArrowDown).push(Key::Enter)
}

/// Pressing the down arrow `count` times and then Enter moves the cursor
/// `count` rows down, but never past the last row: from there on further
/// presses change nothing.
pub proof fn lemma_downs_then_enter(selection: Selection, count: nat)
    requires
        selection.wf(),
    ensures
        selection.run(downs_then_enter(count)) == Some(
            Selection {
                cursor: if selection.cursor + count < selection.options.len() {
                    selection.cursor + count
                } else {
                    (selection.options.len() - 1) as nat
                },
                ..selection
            },
        ),
    decreases count,
{
    let keys = downs_then_enter(count);
    if count > 0 {
        assert(keys[0] == Key::ArrowDown);
        assert(keys.drop_first() =~= downs_then_enter((count - 1) as nat));
        lemma_downs_then_enter(selection.after(Key::ArrowDown), (count - 1) as nat);
    } else {
        assert(keys[0] == Key::Enter);
    }
}

/// In a single selection over `options`, the down arrow pressed `count`
/// times and then Enter give row `count` while that is a row of the list,
/// and the last row from there on.
pub proof fn lemma_select_counts_downs(options: Seq<Seq<char>>, count: nat)
    requires
        options.len() >= 1,
    ensures
        Selection::single(options).run(downs_then_enter(count)) matches Some(end) && end.cursor
            == (if count < options.len() {
            count
        } else {
            (options.len() - 1) as nat
        }),
{
    lemma_downs_then_enter(Selection::single(options), count);
}

/// With the cursor on the first row, a key that moves up does nothing: the
/// selection is unchanged and nothing is redrawn. The same holds of a key
/// that moves down on the last row.
pub proof fn lemma_move_at_edge_is_no_op(selection: Selection, key: Key)
    requires
        selection.wf(),
        (moves_up(key) && selection.cursor == 0) || (moves_down(key) && selection.cursor
            == selection.options.len() - 1),
    ensures
        selection.transition(key) == Transition::Stay,
        selection.after(key) == selection,
        selection.redraw(key) == Seq::<char>::empty(),
{
}

/// A key that does nothing leaves the selection as it is and the screen
/// untouched; so does Enter, which only ends the prompt.
pub proof fn lemma_only_moves_and_toggles_change(selection: Selection, key: Key)
    requires
        selection.transition(key) == Transition::Stay || selection.transition(key)
            == Transition::Confirm,
    ensures
        selection.after(key) == selection,
        selection.redraw(key) == Seq::<char>::empty(),
{
}

/// While no key toggles, the marks stay as they are. A multiple selection
/// on which the space bar is never pressed therefore ends with one mark
/// for each option and none of them set.
pub proof fn lemma_no_toggle_keeps_marks(selection: Selection, keys: Seq<Key>)
    requires
        selection.wf(),
        forall|i: int| 0 <= i < keys.len() ==> !toggles(#[trigger] keys[i]),
    ensures
        selection.run(keys) matches Some(end) ==> end.marks == selection.marks,
    decreases keys.len(),
{
    if keys.len() > 0 && keys[0] != Key::Enter {
        let rest = keys.drop_first();
        assert(!toggles(keys[0]));
        assert forall|i: int| 0 <= i < rest.len() implies !toggles(#[trigger] rest[i]) by {
            assert(rest[i] == keys[i + 1]);
        }
        lemma_after_keeps_wf(selection, keys[0]);
        lemma_no_toggle_keeps_marks(selection.after(keys[0]), rest);
    }
}

/// A multiple selection on which the space bar is never pressed ends, when
/// Enter comes, with as many marks as there are options and all of them
/// unset.
pub proof fn lemma_untouched_multiselect_is_all_false(options: Seq<Seq<char>>, keys: Seq<Key>)
    requires
        options.len() >= 1,
        keys.contains(Key::Enter),
        forall|i: int| 0 <= i < keys.len() ==> !toggles(#[trigger] keys[i]),
    ensures
        Selection::multiple(options).run(keys) matches Some(end) && end.marks == Some(
            Seq::new(options.len(), |i: int| false),
        ),
{
    lemma_run_confirms_on_enter(Selection::multiple(options), keys);
    lemma_no_toggle_keeps_marks(Selection::multiple(options), keys);
}

/// Toggling the same row twice brings back the marks, and with them the
/// whole selection, as they were.
pub proof fn lemma_double_toggle_restores(selection: Selection, key: Key)
    requires
        selection.wf(),
        toggles(key),
    ensures
        selection.after(key).after(key) == selection,
{
    if selection.marks is Some {
        let marks = selection.marks.unwrap();
        let row = selection.cursor as int;
        assert(marks.update(row, !marks[row]).update(row, !!marks[row]) =~= marks);
    }
}

} // verus!
