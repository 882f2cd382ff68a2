use console_utils::read::{
    decode_bytes, decode_event, read_key, Completion, ConsoleEvent, IoError, IoOperation, Key,
    RawModeGuard, ReadAction, ReadSession, VK_BACK, VK_DOWN, VK_ESCAPE, VK_LEFT, VK_RETURN,
    VK_RIGHT, VK_TAB, VK_UP,
};

#[test]
fn arrow_sequences() {
    assert_eq!(decode_bytes(&[27, 91, 65]), Key::ArrowUp);
    assert_eq!(decode_bytes(&[27, 91, 66]), Key::ArrowDown);
    assert_eq!(decode_bytes(&[27, 91, 67]), Key::ArrowRight);
    assert_eq!(decode_bytes(&[27, 91, 68]), Key::ArrowLeft);
}

#[test]
fn escape_sequence_with_an_unknown_third_byte() {
    assert_eq!(decode_bytes(&[27, 91, 99]), Key::Unknown);
    assert_eq!(decode_bytes(&[27, 91, 64]), Key::Unknown);
    assert_eq!(decode_bytes(&[27, 91, 69]), Key::Unknown);
    assert_eq!(decode_bytes(&[27, 91, 0]), Key::Unknown);
}

#[test]
fn escape_not_followed_by_a_bracket() {
    assert_eq!(decode_bytes(&[27, 79, 65]), Key::Unknown);
    assert_eq!(decode_bytes(&[27, 27, 91]), Key::Unknown);
    assert_eq!(decode_bytes(&[27, 65]), Key::Unknown);
}

#[test]
fn a_short_read_is_decoded_as_it_stands() {
    assert_eq!(decode_bytes(&[27]), Key::Unknown);
    assert_eq!(decode_bytes(&[27, 91]), Key::Unknown);
    assert_eq!(decode_bytes(&[]), Key::Char('\0'));
}

#[test]
fn single_bytes() {
    assert_eq!(decode_bytes(&[10]), Key::Enter);
    assert_eq!(decode_bytes(&[9]), Key::Tab);
    assert_eq!(decode_bytes(&[127]), Key::Backspace);
    assert_eq!(decode_bytes(&[65]), Key::Char('A'));
    assert_eq!(decode_bytes(&[97]), Key::Char('a'));
    assert_eq!(decode_bytes(&[32]), Key::Char(' '));
    assert_eq!(decode_bytes(&[13]), Key::Char('\r'));
    assert_eq!(decode_bytes(&[0]), Key::Char('\0'));
    assert_eq!(decode_bytes(&[200]), Key::Char('\u{c8}'));
    assert_eq!(decode_bytes(&[255]), Key::Char('\u{ff}'));
}

#[test]
fn only_the_first_byte_counts_outside_an_escape_sequence() {
    assert_eq!(decode_bytes(&[97, 98, 99]), Key::Char('a'));
    assert_eq!(decode_bytes(&[10, 91, 65]), Key::Enter);
    assert_eq!(decode_bytes(&[65, 27, 91]), Key::Char('A'));
}

#[test]
fn bytes_after_the_third_are_not_looked_at() {
    assert_eq!(decode_bytes(&[27, 91, 65, 27, 91, 66]), Key::ArrowUp);
    assert_eq!(decode_bytes(&[97, 98, 99, 100]), Key::Char('a'));
}

fn key_down(virtual_key: u16) -> ConsoleEvent {
    ConsoleEvent::Key {
        down: true,
        virtual_key,
    }
}

#[test]
fn virtual_key_table() {
    assert_eq!(decode_event(&key_down(38)), Some(Key::ArrowUp));
    assert_eq!(decode_event(&key_down(40)), Some(Key::ArrowDown));
    assert_eq!(decode_event(&key_down(39)), Some(Key::ArrowRight));
    assert_eq!(decode_event(&key_down(37)), Some(Key::ArrowLeft));
    assert_eq!(decode_event(&key_down(13)), Some(Key::Enter));
    assert_eq!(decode_event(&key_down(9)), Some(Key::Tab));
    assert_eq!(decode_event(&key_down(8)), Some(Key::Backspace));
    assert_eq!(decode_event(&key_down(27)), Some(Key::Escape));
}

#[test]
fn virtual_key_constants() {
    assert_eq!(VK_BACK, 8);
    assert_eq!(VK_TAB, 9);
    assert_eq!(VK_RETURN, 13);
    assert_eq!(VK_ESCAPE, 27);
    assert_eq!(VK_LEFT, 37);
    assert_eq!(VK_UP, 38);
    assert_eq!(VK_RIGHT, 39);
    assert_eq!(VK_DOWN, 40);
}

#[test]
fn other_virtual_keys_are_characters() {
    assert_eq!(decode_event(&key_down(65)), Some(Key::Char('A')));
    assert_eq!(decode_event(&key_down(32)), Some(Key::Char(' ')));
    assert_eq!(decode_event(&key_down(0)), Some(Key::Char('\0')));
    assert_eq!(decode_event(&key_down(0x20AC)), Some(Key::Char('\u{20ac}')));
    assert_eq!(decode_event(&key_down(0xD7FF)), Some(Key::Char('\u{d7ff}')));
    assert_eq!(decode_event(&key_down(0xE000)), Some(Key::Char('\u{e000}')));
    assert_eq!(decode_event(&key_down(0xFFFF)), Some(Key::Char('\u{ffff}')));
}

#[test]
fn a_code_that_is_no_character_is_unknown() {
    assert_eq!(decode_event(&key_down(0xD800)), Some(Key::Unknown));
    assert_eq!(decode_event(&key_down(0xDABC)), Some(Key::Unknown));
    assert_eq!(decode_event(&key_down(0xDFFF)), Some(Key::Unknown));
}

#[test]
fn records_that_are_no_key_press_are_passed_over() {
    assert_eq!(
        decode_event(&ConsoleEvent::Key {
            down: false,
            virtual_key: 13
        }),
        None
    );
    assert_eq!(
        decode_event(&ConsoleEvent::Key {
            down: false,
            virtual_key: 65
        }),
        None
    );
    assert_eq!(decode_event(&ConsoleEvent::Other), None);
}

#[test]
fn raw_mode_clears_the_line_flags_and_nothing_else() {
    let (guard, raw) = RawModeGuard::acquire(0b1011_1010, 0b0000_1010);
    assert_eq!(raw, 0b1011_0000);
    assert_eq!(guard.saved, 0b1011_1010);
    assert_eq!(guard.release(), 0b1011_1010);
}

#[test]
fn raw_mode_of_a_mode_that_is_raw_already() {
    let (guard, raw) = RawModeGuard::acquire(0x8a31, 0x0a);
    assert_eq!(raw, 0x8a31);
    assert_eq!(guard.release(), 0x8a31);
}

#[test]
fn raw_mode_with_flags_in_the_upper_half() {
    let (guard, raw) = RawModeGuard::acquire(u64::MAX, 0x8000_0000_0000_0100);
    assert_eq!(raw, 0x7fff_ffff_ffff_feff);
    assert_eq!(guard.release(), u64::MAX);
}

#[test]
fn reading_a_key_step_by_step() {
    let (session, action) = ReadSession::start(0x0a);
    assert_eq!(action, ReadAction::QueryMode);
    let (session, action) = session.step(Completion::Mode(0x8a3b));
    assert_eq!(action, ReadAction::SetMode(0x8a31));
    let (session, action) = session.step(Completion::Done);
    assert_eq!(action, ReadAction::ReadInput);
    let (session, action) = session.step(Completion::Key(Key::ArrowUp));
    assert_eq!(action, ReadAction::SetMode(0x8a3b));
    let (session, action) = session.step(Completion::Done);
    assert_eq!(action, ReadAction::Finish(Ok(Key::ArrowUp)));
    assert_eq!(
        session,
        ReadSession::Finished {
            outcome: Ok(Key::ArrowUp)
        }
    );
}

#[test]
fn a_failed_read_still_puts_the_mode_back() {
    let (session, _) = ReadSession::start(0x0a);
    let (session, _) = session.step(Completion::Mode(0x1f));
    let (session, _) = session.step(Completion::Done);
    let (session, action) = session.step(Completion::Failed(5));
    assert_eq!(action, ReadAction::SetMode(0x1f));
    let (_, action) = session.step(Completion::Done);
    assert_eq!(
        action,
        ReadAction::Finish(Err(IoError {
            operation: IoOperation::Read,
            code: 5
        }))
    );
}

#[test]
fn a_failed_query_ends_the_session() {
    let (session, _) = ReadSession::start(0x0a);
    let (session, action) = session.step(Completion::Failed(25));
    let error = Err(IoError {
        operation: IoOperation::QueryMode,
        code: 25,
    });
    assert_eq!(action, ReadAction::Finish(error));
    assert_eq!(session, ReadSession::Finished { outcome: error });
}

#[test]
fn a_failed_switch_to_raw_mode_ends_the_session() {
    let (session, _) = ReadSession::start(0x0a);
    let (session, _) = session.step(Completion::Mode(0x1f));
    let (_, action) = session.step(Completion::Failed(22));
    assert_eq!(
        action,
        ReadAction::Finish(Err(IoError {
            operation: IoOperation::SetMode,
            code: 22
        }))
    );
}

#[test]
fn a_failed_restore_is_reported_when_the_read_went_well() {
    let (session, _) = ReadSession::start(0x0a);
    let (session, _) = session.step(Completion::Mode(0x1f));
    let (session, _) = session.step(Completion::Done);
    let (session, _) = session.step(Completion::Key(Key::Enter));
    let (_, action) = session.step(Completion::Failed(9));
    assert_eq!(
        action,
        ReadAction::Finish(Err(IoError {
            operation: IoOperation::SetMode,
            code: 9
        }))
    );
}

#[test]
fn the_read_error_comes_first_when_the_restore_fails_too() {
    let (session, _) = ReadSession::start(0x0a);
    let (session, _) = session.step(Completion::Mode(0x1f));
    let (session, _) = session.step(Completion::Done);
    let (session, _) = session.step(Completion::Failed(5));
    let (_, action) = session.step(Completion::Failed(9));
    assert_eq!(
        action,
        ReadAction::Finish(Err(IoError {
            operation: IoOperation::Read,
            code: 5
        }))
    );
}

#[test]
fn a_completion_that_was_not_due_counts_as_a_failure() {
    let (session, _) = ReadSession::start(0x0a);
    let (_, action) = session.step(Completion::Key(Key::Enter));
    assert_eq!(
        action,
        ReadAction::Finish(Err(IoError {
            operation: IoOperation::QueryMode,
            code: 0
        }))
    );
    let (session, _) = ReadSession::start(0x0a);
    let (session, _) = session.step(Completion::Mode(0x1f));
    let (session, _) = session.step(Completion::Done);
    let (session, action) = session.step(Completion::Mode(7));
    assert_eq!(action, ReadAction::SetMode(0x1f));
    let (_, action) = session.step(Completion::Done);
    assert_eq!(
        action,
        ReadAction::Finish(Err(IoError {
            operation: IoOperation::Read,
            code: 0
        }))
    );
}

#[test]
fn a_finished_session_stays_finished() {
    let session = ReadSession::Finished {
        outcome: Ok(Key::Tab),
    };
    let (session, action) = session.step(Completion::Mode(3));
    assert_eq!(action, ReadAction::Finish(Ok(Key::Tab)));
    let (_, action) = session.step(Completion::Failed(1));
    assert_eq!(action, ReadAction::Finish(Ok(Key::Tab)));
}

#[test]
fn a_key_read_from_start_to_end() {
    let done = read_key(
        0x0a,
        &[
            Completion::Mode(0x8a3b),
            Completion::Done,
            Completion::Key(Key::ArrowUp),
            Completion::Done,
        ],
    );
    assert_eq!(done.0, Some(Ok(Key::ArrowUp)));
    assert_eq!(
        done.1,
        vec![
            ReadAction::QueryMode,
            ReadAction::SetMode(0x8a31),
            ReadAction::ReadInput,
            ReadAction::SetMode(0x8a3b),
            ReadAction::Finish(Ok(Key::ArrowUp)),
        ]
    );
}

#[test]
fn a_read_that_fails_from_start_to_end() {
    let done = read_key(
        0x0a,
        &[
            Completion::Mode(0x8a3b),
            Completion::Done,
            Completion::Failed(4),
            Completion::Done,
        ],
    );
    let error = Err(IoError {
        operation: IoOperation::Read,
        code: 4,
    });
    assert_eq!(done.0, Some(error));
    assert_eq!(
        done.1,
        vec![
            ReadAction::QueryMode,
            ReadAction::SetMode(0x8a31),
            ReadAction::ReadInput,
            ReadAction::SetMode(0x8a3b),
            ReadAction::Finish(error),
        ]
    );
}

#[test]
fn a_read_that_has_not_finished() {
    assert_eq!(read_key(0x0a, &[]), (None, vec![ReadAction::QueryMode]));
    assert_eq!(
        read_key(0x0a, &[Completion::Mode(0x0f), Completion::Done]),
        (
            None,
            vec![
                ReadAction::QueryMode,
                ReadAction::SetMode(0x05),
                ReadAction::ReadInput
            ]
        )
    );
}

#[test]
fn completions_after_the_end_play_no_part() {
    let error = Err(IoError {
        operation: IoOperation::QueryMode,
        code: 25,
    });
    assert_eq!(
        read_key(
            0x0a,
            &[
                Completion::Failed(25),
                Completion::Mode(1),
                Completion::Done
            ]
        ),
        (
            Some(error),
            vec![ReadAction::QueryMode, ReadAction::Finish(error)]
        )
    );
}
