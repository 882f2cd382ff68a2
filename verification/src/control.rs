//! Control sequences for the cursor and the screen.
//!
//! Every function here returns the text of an ANSI control sequence. Writing
//! it to the terminal, and flushing the stream so that it takes effect at
//! once, is the caller's part.

use crate::text::{decimal, push_decimal};
use vstd::prelude::*;

verus! {

/// A parameterised control sequence: the introducer, the number in decimal
/// and the letter that names the command.
pub open spec fn csi_text(n: nat, command: Seq<char>) -> Seq<char> {
    "\x1b["@ + decimal(n) + command
}

/// A relative cursor motion by `n` cells: nothing at all for no cells.
pub open spec fn motion_text(n: nat, command: Seq<char>) -> Seq<char> {
    if n == 0 {
        Seq::empty()
    } else {
        csi_text(n, command)
    }
}

/// Erases the whole current line and returns the cursor to its first column.
pub open spec fn clear_line_text() -> Seq<char> {
    "\r\x1b[2K"@
}

/// Erases `count` lines, the current one and those below it, stepping one
/// line down between two of them. The cursor ends on the last of them.
pub open spec fn sweep_text(count: nat) -> Seq<char>
    decreases count,
{
    if count == 0 {
        Seq::empty()
    } else if count == 1 {
        clear_line_text()
    } else {
        sweep_text((count - 1) as nat) + "\x1b[1B"@ + clear_line_text()
    }
}

/// Erases `count` consecutive lines from the current one downwards, and
/// returns the cursor to the line it started on.
pub open spec fn clear_lines_text(count: nat) -> Seq<char> {
    if count == 0 {
        Seq::empty()
    } else {
        sweep_text(count) + motion_text((count - 1) as nat, "A"@)
    }
}

/// Moves the cursor to column `x` and row `y`, both counted from zero; the
/// terminal counts from one and takes the row first.
pub open spec fn cursor_to_text(x: nat, y: nat) -> Seq<char> {
    "\x1B["@ + decimal(y + 1) + ";"@ + decimal(x + 1) + "H"@
}

/// Builds a relative motion.
fn motion(n: usize, command: &str) -> (out: String)
    ensures
        out@ == motion_text(n as nat, command@),
{
    let mut out = String::new();
    if n > 0 {
        out.append("\x1b[");
        push_decimal(&mut out, n as u128);
        out.append(command);
    }
    out
}

/// The sequence that clears the current line in the console: the entire
/// line is erased and the cursor moves to its beginning.
pub fn clear_line() -> (out: String)
    ensures
        out@ == clear_line_text(),
{
    "\r\x1b[2K".to_owned()
}

/// The sequence that clears `i` consecutive lines from the current one
/// downwards and returns to the first of them.
pub fn clear_lines(i: usize) -> (out: String)
    ensures
        out@ == clear_lines_text(i as nat),
{
    let mut out = String::new();
    if i == 0 {
        return out;
    }
    out.append("\r\x1b[2K");
    let mut done: usize = 1;
    while done < i
        invariant
            1 <= done <= i,
            out@ == sweep_text(done as nat),
        decreases i - done,
    {
        out.append("\x1b[1B");
        out.append("\r\x1b[2K");
        done += 1;
    }
    let back = motion(i - 1, "A");
    out.append(back.as_str());
    out
}

/// The sequence that moves the cursor down by `n` lines.
pub fn move_cursor_down(n: usize) -> (out: String)
    ensures
        out@ == motion_text(n as nat, "B"@),
{
    motion(n, "B")
}

/// The sequence that moves the cursor up by `n` lines.
pub fn move_cursor_up(n: usize) -> (out: String)
    ensures
        out@ == motion_text(n as nat, "A"@),
{
    motion(n, "A")
}

/// The sequence that moves the cursor to the left by `n` characters.
pub fn move_cursor_left(n: usize) -> (out: String)
    ensures
        out@ == motion_text(n as nat, "D"@),
{
    motion(n, "D")
}

/// The sequence that moves the cursor to the right by `n` characters.
pub fn move_cursor_right(n: usize) -> (out: String)
    ensures
        out@ == motion_text(n as nat, "C"@),
{
    motion(n, "C")
}

/// The sequence that moves the cursor to column `x` and row `y` of the
/// console, both counted from zero.
pub fn move_cursor_to(x: usize, y: usize) -> (out: String)
    ensures
        out@ == cursor_to_text(x as nat, y as nat),
{
    let mut out = String::new();
    out.append("\x1B[");
    push_decimal(&mut out, y as u128 + 1);
    out.append(";");
    push_decimal(&mut out, x as u128 + 1);
    out.append("H");
    out
}

/// The switch for the cursor's visibility.
#[derive(Default)]
pub struct Visibility;

impl Visibility {
    /// The sequence that hides the cursor.
    pub open spec fn hide_text() -> Seq<char> {
        "\x1B[?25l"@
    }

    /// The sequence that shows the cursor.
    pub open spec fn show_text() -> Seq<char> {
        "\x1B[?25h"@
    }

    pub fn new() -> Self {
        Self
    }

    /// The sequence that hides the cursor.
    pub fn hide_cursor(&self) -> (out: String)
        ensures
            out@ == Visibility::hide_text(),
    {
        "\x1B[?25l".to_owned()
    }

    /// The sequence that shows the cursor.
    pub fn show_cursor(&self) -> (out: String)
        ensures
            out@ == Visibility::show_text(),
    {
        "\x1B[?25h".to_owned()
    }
}

} // verus!
