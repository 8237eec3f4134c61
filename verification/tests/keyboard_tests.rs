use kernel_console::keyboard::BACKSPACE_CHAR;
use kernel_console::keyboard::ConsoleAction;
use kernel_console::keyboard::KeyOut;
use kernel_console::keyboard::KeyboardDecoder;
use kernel_console::keyboard::action_for_key;
use kernel_console::keyboard::apply_action;
use kernel_console::keyboard::handle_scancode;
use kernel_console::writer::FrameBufferWriter;

fn console() -> FrameBufferWriter {
    let buffer = vec![0u8; 641 * 3 * 451];
    FrameBufferWriter::new(buffer, 641, 451, 641, 3)
}

#[test]
fn printable_press_decodes_to_one_unicode_event() {
    let mut d = KeyboardDecoder::new();
    // Scancode set 1: 0x1E is the press of the key that carries 'a'.
    assert_eq!(d.feed(0x1E), Some(KeyOut::Unicode('a')));
}

#[test]
fn release_of_printable_key_decodes_to_nothing() {
    let mut d = KeyboardDecoder::new();
    assert_eq!(d.feed(0x1E), Some(KeyOut::Unicode('a')));
    // Scancode set 1: 0x9E is the release of the same key.
    assert_eq!(d.feed(0x9E), None);
}

#[test]
fn extended_sequence_buffers_across_calls() {
    let mut d = KeyboardDecoder::new();
    // The left arrow press is the two-byte sequence 0xE0 0x4B: the first
    // byte completes nothing.
    assert_eq!(d.feed(0xE0), None);
    assert_eq!(d.feed(0x4B), Some(KeyOut::ArrowLeft));
    // Its release, 0xE0 0xCB, completes no key press either.
    assert_eq!(d.feed(0xE0), None);
    assert_eq!(d.feed(0xCB), None);
}

#[test]
fn shift_makes_uppercase() {
    let mut d = KeyboardDecoder::new();
    // Left shift down (0x2A), then 'a' down: an uppercase letter.
    d.feed(0x2A);
    assert_eq!(d.feed(0x1E), Some(KeyOut::Unicode('A')));
}

#[test]
fn actions_follow_the_decoded_key() {
    assert_eq!(
        action_for_key(KeyOut::Unicode(BACKSPACE_CHAR)),
        ConsoleAction::Backspace
    );
    assert_eq!(action_for_key(KeyOut::Unicode('x')), ConsoleAction::PrintChar('x'));
    assert_eq!(action_for_key(KeyOut::ArrowLeft), ConsoleAction::CursorLeft);
    assert_eq!(action_for_key(KeyOut::ArrowRight), ConsoleAction::CursorRight);
    assert_eq!(action_for_key(KeyOut::ArrowUp), ConsoleAction::CursorUp);
    assert_eq!(action_for_key(KeyOut::ArrowDown), ConsoleAction::CursorDown);
    assert_eq!(
        action_for_key(KeyOut::OtherRaw(String::from("F5"))),
        ConsoleAction::PrintText(String::from("F5"))
    );
}

#[test]
fn apply_action_drives_the_renderer() {
    let mut w = console();
    apply_action(&mut w, &ConsoleAction::PrintChar('a'));
    assert_eq!(w.cursor_x(), 9);
    apply_action(&mut w, &ConsoleAction::Backspace);
    assert_eq!(w.cursor_x(), 1);
    apply_action(&mut w, &ConsoleAction::CursorDown);
    assert_eq!(w.cursor_y(), 19);
    apply_action(&mut w, &ConsoleAction::CursorUp);
    assert_eq!(w.cursor_y(), 1);
    apply_action(&mut w, &ConsoleAction::PrintText(String::from("hi")));
    assert_eq!(w.cursor_x(), 17);
}

#[test]
fn scancode_byte_drives_console_end_to_end() {
    let mut d = KeyboardDecoder::new();
    let mut w = console();
    let action = handle_scancode(&mut d, &mut w, 0x1E);
    assert_eq!(action, Some(ConsoleAction::PrintChar('a')));
    assert_eq!(w.cursor_x(), 9);
    assert!(w.buffer().iter().any(|&b| b != 0));
    // The release byte completes no key press and leaves the console alone.
    let action = handle_scancode(&mut d, &mut w, 0x9E);
    assert_eq!(action, None);
    assert_eq!(w.cursor_x(), 9);
}

#[test]
fn backspace_key_moves_cursor_back() {
    let mut d = KeyboardDecoder::new();
    let mut w = console();
    handle_scancode(&mut d, &mut w, 0x1E);
    assert_eq!(w.cursor_x(), 9);
    // Scancode set 1: 0x0E is the backspace key press.
    let action = handle_scancode(&mut d, &mut w, 0x0E);
    assert_eq!(action, Some(ConsoleAction::Backspace));
    assert_eq!(w.cursor_x(), 1);
}

#[test]
fn arrow_keys_move_the_cursor() {
    let mut d = KeyboardDecoder::new();
    let mut w = console();
    // Arrow right: 0xE0 0x4D; arrow down: 0xE0 0x50.
    handle_scancode(&mut d, &mut w, 0xE0);
    handle_scancode(&mut d, &mut w, 0x4D);
    assert_eq!(w.cursor_x(), 9);
    handle_scancode(&mut d, &mut w, 0xE0);
    handle_scancode(&mut d, &mut w, 0x50);
    assert_eq!(w.cursor_y(), 19);
}
