//! Keys, and how one is decoded from what the terminal delivers.
//!
//! Two models of input are decoded. A terminal that delivers bytes sends
//! most keys as one byte and the arrow keys as an escape sequence of three.
//! A console that delivers event records sends a virtual-key code with each
//! key event. Both are mapped to the same small set of keys.

use vstd::prelude::*;

verus! {

/// Represents different keyboard keys that can be read from the console.
#[derive(Debug, Clone, Copy, PartialEq, Eq, Structural)]
pub enum Key {
    /// Arrow up key.
    ArrowUp,
    /// Arrow down key.
    ArrowDown,
    /// Arrow right key.
    ArrowRight,
    /// Arrow left key.
    ArrowLeft,
    /// Enter/Return key.
    Enter,
    /// Tab key.
    Tab,
    /// Backspace key.
    Backspace,
    /// Escape key.
    Escape,
    /// Any printable character on the keyboard.
    Char(char),
    /// Any unrecognized key.
    Unknown,
}

/// The escape byte, which opens an arrow-key sequence.
pub const ESCAPE_BYTE: u8 = 27;

/// The byte `[`, which follows the escape byte in an arrow-key sequence.
pub const BRACKET_BYTE: u8 = 91;

/// The byte at `index` of what one read produced. A byte that did not
/// arrive counts as zero, as in a zero-filled buffer.
pub open spec fn byte_or_zero(bytes: Seq<u8>, index: int) -> u8 {
    if 0 <= index < bytes.len() {
        bytes[index]
    } else {
        0
    }
}

/// The key that the last byte of an arrow-key sequence selects.
pub open spec fn arrow_of(last: u8) -> Key {
    if last == 65 {
        Key::ArrowUp
    } else if last == 66 {
        Key::ArrowDown
    } else if last == 67 {
        Key::ArrowRight
    } else if last == 68 {
        Key::ArrowLeft
    } else {
        Key::Unknown
    }
}

/// The key that the bytes of one read stand for. Escape, `[` and a third
/// byte are an arrow key, or unknown where the third byte names none;
/// escape followed by anything else, or by nothing, is unknown. Otherwise
/// the first byte alone decides: newline is Enter, the tab byte is Tab, 127
/// is Backspace, and any other byte is the character with that code. Bytes
/// after the third are never looked at.
pub open spec fn key_of_bytes(bytes: Seq<u8>) -> Key {
    let first = byte_or_zero(bytes, 0);
    if first == ESCAPE_BYTE {
        if byte_or_zero(bytes, 1) == BRACKET_BYTE {
            arrow_of(byte_or_zero(bytes, 2))
        } else {
            Key::Unknown
        }
    } else if first == 10 {
        Key::Enter
    } else if first == 9 {
        Key::Tab
    } else if first == 127 {
        Key::Backspace
    } else {
        Key::Char(first as char)
    }
}

/// Reads the byte at `index`, if that many bytes arrived.
fn byte_at(bytes: &[u8], index: usize) -> (byte: u8)
    ensures
        byte == byte_or_zero(bytes@, index as int),
{
    if index < bytes.len() {
        bytes[index]
    } else {
        0
    }
}

/// Decodes what one blocking read produced into a key. Only the bytes in
/// `bytes` are inspected, so a lone escape byte is decoded as it stands.
pub fn decode_bytes(bytes: &[u8]) -> (key: Key)
    ensures
        key == key_of_bytes(bytes@),
{
    let first = byte_at(bytes, 0);
    match first {
        27 => {
            if byte_at(bytes, 1) == 91 {
                match byte_at(bytes, 2) {
                    65 => Key::ArrowUp,
                    66 => Key::ArrowDown,
                    67 => Key::ArrowRight,
                    68 => Key::ArrowLeft,
                    _ => Key::Unknown,
                }
            } else {
                Key::Unknown
            }
        },
        10 => Key::Enter,
        9 => Key::Tab,
        127 => Key::Backspace,
        c => Key::Char(c as char),
    }
}

/// Virtual-key code of the backspace key.
pub const VK_BACK: u16 = 8;

/// Virtual-key code of the tab key.
pub const VK_TAB: u16 = 9;

/// Virtual-key code of the return key.
pub const VK_RETURN: u16 = 13;

/// Virtual-key code of the escape key.
pub const VK_ESCAPE: u16 = 27;

/// Virtual-key code of the left arrow.
pub const VK_LEFT: u16 = 37;

/// Virtual-key code of the up arrow.
pub const VK_UP: u16 = 38;

/// Virtual-key code of the right arrow.
pub const VK_RIGHT: u16 = 39;

/// Virtual-key code of the down arrow.
pub const VK_DOWN: u16 = 40;

/// One record of the console's input queue, as far as decoding reads it.
#[derive(Debug, Clone, Copy, PartialEq, Eq, Structural)]
pub enum ConsoleEvent {
    /// A key went down or came up.
    Key {
        /// Whether the key went down.
        down: bool,
        /// The virtual-key code of the key.
        virtual_key: u16,
    },
    /// Anything else: mouse, focus, menu or resize.
    Other,
}

/// Whether a number is a Unicode scalar value, that is, the code of a
/// character.
pub open spec fn is_scalar_value(code: u32) -> bool {
    code <= 0xD7FF || (0xE000 <= code && code <= 0x10FFFF)
}

/// `char::from_u32` of the standard library gives the character with the
/// code `code` where there is one, and `None` where `code` is a surrogate
/// or lies beyond the last code point.
pub assume_specification[ char::from_u32 ](code: u32) -> (c: Option<char>)
    ensures
        c == (if is_scalar_value(code) {
            Some(code as char)
        } else {
            None
        }),
;

/// The key that a virtual-key code stands for: one of the eight named keys,
/// else the character with that code, else unknown where no character has
/// it.
pub open spec fn key_of_virtual_key(code: u16) -> Key {
    if code == VK_UP {
        Key::ArrowUp
    } else if code == VK_DOWN {
        Key::ArrowDown
    } else if code == VK_RIGHT {
        Key::ArrowRight
    } else if code == VK_LEFT {
        Key::ArrowLeft
    } else if code == VK_RETURN {
        Key::Enter
    } else if code == VK_TAB {
        Key::Tab
    } else if code == VK_BACK {
        Key::Backspace
    } else if code == VK_ESCAPE {
        Key::Escape
    } else if is_scalar_value(code as u32) {
        Key::Char(code as char)
    } else {
        Key::Unknown
    }
}

/// The key that an input record stands for, if it reports a key going down.
pub open spec fn key_of_event(event: ConsoleEvent) -> Option<Key> {
    match event {
        ConsoleEvent::Key { down, virtual_key } => if down {
            Some(key_of_virtual_key(virtual_key))
        } else {
            None
        },
        ConsoleEvent::Other => None,
    }
}

/// Decodes one input record. `None` means that the record is no key press
/// (a key coming up, or another kind of event) and the caller reads on.
pub fn decode_event(event: &ConsoleEvent) -> (key: Option<Key>)
    ensures
        key == key_of_event(*event),
{
    match *event {
        ConsoleEvent::Key { down, virtual_key } => {
            if !down {
                None
            } else if virtual_key == VK_UP {
                Some(Key::ArrowUp)
            } else if virtual_key == VK_DOWN {
                Some(Key::ArrowDown)
            } else if virtual_key == VK_RIGHT {
                Some(Key::ArrowRight)
            } else if virtual_key == VK_LEFT {
                Some(Key::ArrowLeft)
            } else if virtual_key == VK_RETURN {
                Some(Key::Enter)
            } else if virtual_key == VK_TAB {
                Some(Key::Tab)
            } else if virtual_key == VK_BACK {
                Some(Key::Backspace)
            } else if virtual_key == VK_ESCAPE {
                Some(Key::Escape)
            } else {
                match char::from_u32(virtual_key as u32) {
                    Some(c) => Some(Key::Char(c)),
                    None => Some(Key::Unknown),
                }
            }
        },
        ConsoleEvent::Other => None,
    }
}

/// The operations on the terminal that reading a key consists of.
#[derive(Debug, Clone, Copy, PartialEq, Eq, Structural)]
pub enum IoOperation {
    /// Asking for the terminal's input mode.
    QueryMode,
    /// Setting the terminal's input mode.
    SetMode,
    /// Reading from the input stream.
    Read,
}

/// An operation on the terminal that failed.
#[derive(Debug, Clone, Copy, PartialEq, Eq, Structural)]
pub struct IoError {
    /// The operation that failed.
    pub operation: IoOperation,
    /// The error number that the system gave, or zero where it gave none.
    pub code: i32,
}

/// The input mode with line buffering and echo switched off: `mode`
/// without the bits of `line_flags`.
pub open spec fn raw_of(mode: u64, line_flags: u64) -> u64 {
    mode & !line_flags
}

/// Holds the input mode that the terminal had before it was made raw, so
/// that exactly that mode can be put back.
#[derive(Debug, PartialEq, Eq)]
pub struct RawModeGuard {
    /// The mode found at acquisition.
    pub saved: u64,
}

impl RawModeGuard {
    /// Takes the snapshot of `mode`. The second result is the raw mode to
    /// set: `mode` with the bits of `line_flags` cleared and no other bit
    /// changed.
    pub fn acquire(mode: u64, line_flags: u64) -> (acquired: (RawModeGuard, u64))
        ensures
            acquired.0.saved == mode,
            acquired.1 == raw_of(mode, line_flags),
    {
        (RawModeGuard { saved: mode }, mode & !line_flags)
    }

    /// Gives up the guard. The result is the mode to set: the snapshot.
    pub fn release(self) -> (mode: u64)
        ensures
            mode == self.saved,
    {
        self.saved
    }
}

/// What the caller is asked to do next while a key is read.
#[derive(Debug, Clone, Copy, PartialEq, Eq)]
pub enum ReadAction {
    /// Ask the terminal for its input mode.
    QueryMode,
    /// Set the terminal's input mode to this value.
    SetMode(u64),
    /// Block until one unit of input arrives, and decode it.
    ReadInput,
    /// Nothing more: this is what reading the key returns.
    Finish(Result<Key, IoError>),
}

/// How the action that the caller was asked for ended.
#[derive(Debug, Clone, Copy, PartialEq, Eq)]
pub enum Completion {
    /// The query gave this input mode.
    Mode(u64),
    /// The mode was set.
    Done,
    /// The read gave this key.
    Key(Key),
    /// The action failed, with this error number.
    Failed(i32),
}

impl Completion {
    /// The error number of a failure; zero for anything else, which where
    /// it is not the completion that was due counts as a failure without a
    /// number.
    pub open spec fn code(self) -> i32 {
        match self {
            Completion::Failed(code) => code,
            _ => 0,
        }
    }

    fn error_code(&self) -> (code: i32)
        ensures
            code == self.code(),
    {
        match self {
            Completion::Failed(code) => *code,
            _ => 0,
        }
    }
}

/// Reading one key, step by step: query the mode, set the raw mode, read,
/// put the saved mode back, return. The session decides; the caller does
/// the input and output and reports how each action ended.
#[derive(Debug, PartialEq, Eq)]
pub enum ReadSession {
    /// The mode was asked for.
    Querying {
        /// The bits that make input line-buffered and echoed.
        line_flags: u64,
    },
    /// The raw mode is being set.
    Entering { guard: RawModeGuard },
    /// The terminal is raw and a read is under way.
    Reading { guard: RawModeGuard },
    /// The saved mode is being put back; `outcome` waits for that.
    Restoring { outcome: Result<Key, IoError> },
    /// All is done.
    Finished { outcome: Result<Key, IoError> },
}

impl ReadSession {
    /// The session that has failed at `operation`, and the action that
    /// says so.
    pub open spec fn failed(operation: IoOperation, code: i32) -> (ReadSession, ReadAction) {
        let outcome = Err(IoError { operation, code });
        (ReadSession::Finished { outcome }, ReadAction::Finish(outcome))
    }

    /// The outcome of a read that ended with `completion`: the key, or a
    /// read error.
    pub open spec fn read_outcome(completion: Completion) -> Result<Key, IoError> {
        match completion {
            Completion::Key(key) => Ok(key),
            _ => Err(IoError { operation: IoOperation::Read, code: completion.code() }),
        }
    }

    /// The final outcome once restoring ended with `completion`. A failure
    /// to put the mode back is reported only if the read itself went well.
    pub open spec fn restored_outcome(
        outcome: Result<Key, IoError>,
        completion: Completion,
    ) -> Result<Key, IoError> {
        match completion {
            Completion::Done => outcome,
            _ => match outcome {
                Ok(_) => Err(IoError { operation: IoOperation::SetMode, code: completion.code() }),
                Err(e) => Err(e),
            },
        }
    }

    /// The session and the action that follow when the pending action ended
    /// with `completion`.
    ///
    /// A failed query or a failed switch to raw mode ends the session with
    /// that error and without a read. Once the terminal is raw, the saved
    /// mode is put back whatever the read brought.
    pub open spec fn next(self, completion: Completion) -> (ReadSession, ReadAction) {
        match self {
            ReadSession::Querying { line_flags } => match completion {
                Completion::Mode(mode) => (
                    ReadSession::Entering { guard: RawModeGuard { saved: mode } },
                    ReadAction::SetMode(raw_of(mode, line_flags)),
                ),
                _ => ReadSession::failed(IoOperation::QueryMode, completion.code()),
            },
            ReadSession::Entering { guard } => match completion {
                Completion::Done => (ReadSession::Reading { guard }, ReadAction::ReadInput),
                _ => ReadSession::failed(IoOperation::SetMode, completion.code()),
            },
            ReadSession::Reading { guard } => (
                ReadSession::Restoring { outcome: ReadSession::read_outcome(completion) },
                ReadAction::SetMode(guard.saved),
            ),
            ReadSession::Restoring { outcome } => {
                let outcome = ReadSession::restored_outcome(outcome, completion);
                (ReadSession::Finished { outcome }, ReadAction::Finish(outcome))
            },
            ReadSession::Finished { outcome } => (self, ReadAction::Finish(outcome)),
        }
    }

    /// What the session asks for, action by action, while the actions end as
    /// `completions` say in turn. Once the session has finished it asks for
    /// nothing more, and completions that are left play no part.
    pub open spec fn actions(self, completions: Seq<Completion>) -> Seq<ReadAction>
        decreases completions.len(),
    {
        if completions.len() == 0 || self is Finished {
            Seq::empty()
        } else {
            seq![self.next(completions[0]).1] + self.next(completions[0]).0.actions(
                completions.drop_first(),
            )
        }
    }

    /// What reading the key returns when the actions end as `completions`
    /// say in turn, or `None` where the session has not finished by then.
    pub open spec fn outcome(self, completions: Seq<Completion>) -> Option<Result<Key, IoError>>
        decreases completions.len(),
    {
        match self {
            ReadSession::Finished { outcome } => Some(outcome),
            _ => if completions.len() == 0 {
                None
            } else {
                self.next(completions[0]).0.outcome(completions.drop_first())
            },
        }
    }

    /// Whether the session has finished.
    pub fn is_finished(&self) -> (finished: bool)
        ensures
            finished == (self is Finished),
    {
        match self {
            ReadSession::Finished { .. } => true,
            _ => false,
        }
    }

    /// Begins to read a key. `line_flags` are the bits of the input mode
    /// that make input line-buffered and echoed.
    pub fn start(line_flags: u64) -> (begun: (ReadSession, ReadAction))
        ensures
            begun.0 == (ReadSession::Querying { line_flags }),
            begun.1 == ReadAction::QueryMode,
    {
        (ReadSession::Querying { line_flags }, ReadAction::QueryMode)
    }

    /// Takes the session one step on: `completion` says how the action
    /// that was asked for last ended.
    pub fn step(self, completion: Completion) -> (stepped: (ReadSession, ReadAction))
        ensures
            stepped == self.next(completion),
    {
        match self {
            ReadSession::Querying { line_flags } => match completion {
                Completion::Mode(mode) => {
                    let (guard, raw) = RawModeGuard::acquire(mode, line_flags);
                    (ReadSession::Entering { guard }, ReadAction::SetMode(raw))
                },
                _ => {
                    let outcome = Err(
                        IoError { operation: IoOperation::QueryMode, code: completion.error_code() },
                    );
                    (ReadSession::Finished { outcome }, ReadAction::Finish(outcome))
                },
            },
            ReadSession::Entering { guard } => match completion {
                Completion::Done => (ReadSession::Reading { guard }, ReadAction::ReadInput),
                _ => {
                    let outcome = Err(
                        IoError { operation: IoOperation::SetMode, code: completion.error_code() },
                    );
                    (ReadSession::Finished { outcome }, ReadAction::Finish(outcome))
                },
            },
            ReadSession::Reading { guard } => {
                let outcome = match completion {
                    Completion::Key(key) => Ok(key),
                    _ => Err(
                        IoError { operation: IoOperation::Read, code: completion.error_code() },
                    ),
                };
                let saved = guard.release();
                (ReadSession::Restoring { outcome }, ReadAction::SetMode(saved))
            },
            ReadSession::Restoring { outcome } => {
                let outcome = match completion {
                    Completion::Done => outcome,
                    _ => match outcome {
                        Ok(_) => Err(
                            IoError {
                                operation: IoOperation::SetMode,
                                code: completion.error_code(),
                            },
                        ),
                        Err(e) => Err(e),
                    },
                };
                (ReadSession::Finished { outcome }, ReadAction::Finish(outcome))
            },
            ReadSession::Finished { outcome } => {
                (ReadSession::Finished { outcome }, ReadAction::Finish(outcome))
            },
        }
    }
}

/// What the session says of the keys from the `i`-th completion on, in
/// terms of that completion and those behind it.
proof fn lemma_session_unfold(session: ReadSession, completions: Seq<Completion>, i: int)
    requires
        0 <= i < completions.len(),
        !(session is Finished),
    ensures
        session.actions(completions.skip(i)) == seq![session.next(completions[i]).1]
            + session.next(completions[i]).0.actions(completions.skip(i + 1)),
        session.outcome(completions.skip(i)) == session.next(completions[i]).0.outcome(
            completions.skip(i + 1),
        ),
{
    assert(completions.skip(i)[0] == completions[i]);
    assert(completions.skip(i).drop_first() =~= completions.skip(i + 1));
}

/// Reading one key played through: `line_flags` are the bits of the input
/// mode that make input line-buffered and echoed, and `completions` says
/// how each action on the terminal ends, in turn.
///
/// The first result is what reading the key returns, or `None` where the
/// completions end before the session does. The second lists what was
/// asked of the terminal, from the query of the mode on.
pub fn read_key(line_flags: u64, completions: &[Completion]) -> (done: (
    Option<Result<Key, IoError>>,
    Vec<ReadAction>,
))
    ensures
        done.0 == (ReadSession::Querying { line_flags }).outcome(completions@),
        done.1@ == seq![ReadAction::QueryMode] + (ReadSession::Querying { line_flags }).actions(
            completions@,
        ),
{
    let (mut session, first) = ReadSession::start(line_flags);
    let ghost start = session;
    let mut actions: Vec<ReadAction> = Vec::new();
    actions.push(first);
    let mut result: Option<Result<Key, IoError>> = None;
    let mut i: usize = 0;
    proof {
        assert(completions@.skip(0) =~= completions@);
        assert(actions@ =~= seq![ReadAction::QueryMode]);
    }
    while i < completions.len() && result.is_none()
        invariant
            i <= completions.len(),
            result matches Some(outcome) ==> session == (ReadSession::Finished { outcome }),
            result is None ==> !(session is Finished),
            session.outcome(completions@.skip(i as int)) == start.outcome(completions@),
            actions@ + session.actions(completions@.skip(i as int)) == seq![ReadAction::QueryMode]
                + start.actions(completions@),
        decreases completions.len() - i,
    {
        let ghost before = session;
        let ghost asked = actions@;
        proof {
            lemma_session_unfold(before, completions@, i as int);
        }
        let (next, action) = session.step(completions[i]);
        session = next;
        actions.push(action);
        if let ReadAction::Finish(outcome) = action {
            result = Some(outcome);
        }
        i += 1;
        proof {
            let rest = session.actions(completions@.skip(i as int));
            assert(actions@ + rest =~= asked + (seq![action] + rest));
            if session is Finished {
                assert(rest =~= Seq::<ReadAction>::empty());
            }
        }
    }
    proof {
        assert(session.actions(completions@.skip(i as int)) =~= Seq::<ReadAction>::empty());
        assert(actions@ + Seq::<ReadAction>::empty() =~= actions@);
    }
    (result, actions)
}

/// The raw mode differs from the mode it was made from in the line flags
/// alone: they are all off, and every other bit is as it was.
pub proof fn lemma_raw_mode_clears_line_flags_only(mode: u64, line_flags: u64)
    ensures
        raw_of(mode, line_flags) & line_flags == 0,
        raw_of(mode, line_flags) | (mode & line_flags) == mode,
{
    assert((mode & !line_flags) & line_flags == 0) by (bit_vector);
    assert((mode & !line_flags) | (mode & line_flags) == mode) by (bit_vector);
}

/// Once the terminal has been made raw, the mode found at the start is put
/// back before anything is returned, whether the read gave a key or failed.
/// The session asks for the query, then for the raw mode, then for the
/// read, then for exactly the mode that the query gave, and only then
/// finishes: with the key if the read gave one and the mode could be put
/// back.
pub proof fn lemma_saved_mode_is_put_back(
    line_flags: u64,
    mode: u64,
    read: Completion,
    restore: Completion,
)
    ensures
        ({
            let queried = (ReadSession::Querying { line_flags }).next(Completion::Mode(mode));
            let entered = queried.0.next(Completion::Done);
            let restoring = entered.0.next(read);
            let finished = restoring.0.next(restore);
            &&& queried.1 == ReadAction::SetMode(raw_of(mode, line_flags))
            &&& entered.1 == ReadAction::ReadInput
            &&& restoring.1 == ReadAction::SetMode(mode)
            &&& finished.1 == ReadAction::Finish(
                ReadSession::restored_outcome(ReadSession::read_outcome(read), restore),
            )
            &&& (read matches Completion::Key(key) ==> restore == Completion::Done ==> finished.1
                == ReadAction::Finish(Ok(key)))
        }),
{
}

/// Where the mode cannot be queried, or the raw mode cannot be set, the
/// session ends at once with that error: nothing is read and nothing is
/// put back.
pub proof fn lemma_failed_acquisition_ends_the_session(
    line_flags: u64,
    mode: u64,
    code: i32,
)
    ensures
        (ReadSession::Querying { line_flags }).next(Completion::Failed(code)).1
            == ReadAction::Finish(Err(IoError { operation: IoOperation::QueryMode, code })),
        (ReadSession::Entering { guard: RawModeGuard { saved: mode } }).next(
            Completion::Failed(code),
        ).1 == ReadAction::Finish(Err(IoError { operation: IoOperation::SetMode, code })),
{
}

} // verus!
