//! Keyboard scancode decoding pipeline.
//!
//! Scancode bytes arrive one per keyboard interrupt. A stateful decoder of
//! an outside crate accumulates them: most keys resolve in one byte, but
//! extended keys need a short sequence, so feeding a byte may or may not
//! complete a key event. Completed press events become either a printable
//! character or a raw navigation key; release events and malformed noise
//! are absorbed. What the console does with a decoded key is the library's
//! own decision and is verified: `action_for_key` fixes the console action
//! for every key, and `handle_scancode` applies it to the renderer.

use vstd::prelude::*;
use crate::writer::ConsoleView;
use crate::writer::FrameBufferWriter;
use crate::writer::cv_cursor_left;
use crate::writer::cv_run;
use crate::writer::cv_char;
use crate::writer::LINE_HEIGHT;
use crate::writer::CHAR_ADVANCE;
use crate::writer::BORDER_PADDING;

verus! {

/// The character a backspace key press decodes to.
pub const BACKSPACE_CHAR: char = '\u{0008}';

#[verifier::external_type_specification]
#[verifier::external_body]
/// A completed key transition of the outside keyboard crate: which key, and
/// whether it went down or up.
pub struct ExKeyEvent(pc_keyboard::KeyEvent);

#[verifier::external_type_specification]
#[verifier::external_body]
/// A decoded key of the outside keyboard crate: a Unicode character or a
/// raw key code.
pub struct ExDecodedKey(pc_keyboard::DecodedKey);

/// A decoded key press, in the library's own terms: the navigation keys the
/// console reacts to are singled out; every other non-printable key carries
/// its printable name.
#[derive(PartialEq, Eq, Debug)]
pub enum KeyOut {
    /// A printable character (or a control character such as backspace).
    Unicode(char),
    /// The left arrow navigation key.
    ArrowLeft,
    /// The right arrow navigation key.
    ArrowRight,
    /// The up arrow navigation key.
    ArrowUp,
    /// The down arrow navigation key.
    ArrowDown,
    /// Any other non-printable key, by its printable name.
    OtherRaw(String),
}

/// What the console is asked to do for one decoded key.
#[derive(PartialEq, Eq, Debug)]
pub enum ConsoleAction {
    /// Render one character.
    PrintChar(char),
    /// Move the cursor one glyph cell left.
    Backspace,
    /// Move the cursor one glyph cell left without rendering.
    CursorLeft,
    /// Move the cursor one glyph cell right without rendering.
    CursorRight,
    /// Move the cursor one glyph row up without rendering.
    CursorUp,
    /// Move the cursor one glyph row down without rendering.
    CursorDown,
    /// Render a text, the printable name of a non-printable key.
    PrintText(String),
}

/// The stateful scancode decoder: buffers partial multi-byte sequences
/// across calls and emits at most one decoded key press per byte. It holds
/// the decoder state of the outside keyboard crate, opaque here; what the
/// decoded keys make the console do is decided and verified elsewhere in
/// this module.
#[verifier::external_body]
pub struct KeyboardDecoder {
    inner: pc_keyboard::PS2Keyboard<pc_keyboard::layouts::Us104Key, pc_keyboard::ScancodeSet1>,
}

/// Relies on pc_keyboard::PS2Keyboard::new with the United States 104-key
/// layout, scancode set 1, and control keys left untranslated: a fresh
/// decoder with no partial sequence buffered.
#[verifier::external_body]
fn kb_new() -> (d: KeyboardDecoder)
{
    KeyboardDecoder {
        inner: pc_keyboard::PS2Keyboard::new(
            pc_keyboard::ScancodeSet1::new(),
            pc_keyboard::layouts::Us104Key,
            pc_keyboard::HandleControl::Ignore,
        ),
    }
}

/// Relies on pc_keyboard::PS2Keyboard::add_byte: advances the multi-byte
/// scancode state machine by one byte; `Some` exactly when the byte
/// completes a key event. A malformed or unknown byte yields an error,
/// which resets the partial sequence and is absorbed here into `None`, as
/// scancode noise must never reach the interrupt handler.
#[verifier::external_body]
fn kb_add_byte(d: &mut KeyboardDecoder, scancode: u8) -> (ev: Option<pc_keyboard::KeyEvent>)
{
    match d.inner.add_byte(scancode) {
        Ok(ev) => ev,
        Err(_) => None,
    }
}

/// Relies on pc_keyboard::PS2Keyboard::process_keyevent: classifies a
/// completed key event against the layout and the tracked modifier state;
/// `Some` for presses (a character or a raw key), `None` for releases of
/// non-modifier keys.
#[verifier::external_body]
fn kb_process(d: &mut KeyboardDecoder, ev: pc_keyboard::KeyEvent) -> (key: Option<
    pc_keyboard::DecodedKey,
>)
{
    d.inner.process_keyevent(ev)
}

/// Relies on pc_keyboard::DecodedKey and pc_keyboard::KeyCode: tells the
/// variants apart, moving the character out and naming any raw key other
/// than the four arrows by its printable name.
#[verifier::external_body]
fn classify_key(key: pc_keyboard::DecodedKey) -> (out: KeyOut)
{
    match key {
        pc_keyboard::DecodedKey::Unicode(c) => KeyOut::Unicode(c),
        pc_keyboard::DecodedKey::RawKey(pc_keyboard::KeyCode::ArrowLeft) => KeyOut::ArrowLeft,
        pc_keyboard::DecodedKey::RawKey(pc_keyboard::KeyCode::ArrowRight) => KeyOut::ArrowRight,
        pc_keyboard::DecodedKey::RawKey(pc_keyboard::KeyCode::ArrowUp) => KeyOut::ArrowUp,
        pc_keyboard::DecodedKey::RawKey(pc_keyboard::KeyCode::ArrowDown) => KeyOut::ArrowDown,
        pc_keyboard::DecodedKey::RawKey(k) => KeyOut::OtherRaw(format!("{:?}", k)),
    }
}

impl KeyboardDecoder {
    /// A fresh decoder with no partial sequence buffered.
    pub fn new() -> (d: KeyboardDecoder) {
        kb_new()
    }

    /// Feed one scancode byte. `Some` exactly when the byte completes the
    /// sequence of a key press; releases, incomplete sequences and noise
    /// yield `None`.
    pub fn feed(&mut self, scancode: u8) -> (key: Option<KeyOut>) {
        match kb_add_byte(self, scancode) {
            Some(ev) => match kb_process(self, ev) {
                Some(decoded) => Some(classify_key(decoded)),
                None => None,
            },
            None => None,
        }
    }
}

/// The console action a decoded key press obliges: backspace for the
/// backspace character, a render for any other character, a cursor move for
/// an arrow key, and the printable name for any other raw key.
pub open spec fn spec_action_for_key(key: KeyOut) -> ConsoleAction {
    match key {
        KeyOut::Unicode(c) => if c == BACKSPACE_CHAR {
            ConsoleAction::Backspace
        } else {
            ConsoleAction::PrintChar(c)
        },
        KeyOut::ArrowLeft => ConsoleAction::CursorLeft,
        KeyOut::ArrowRight => ConsoleAction::CursorRight,
        KeyOut::ArrowUp => ConsoleAction::CursorUp,
        KeyOut::ArrowDown => ConsoleAction::CursorDown,
        KeyOut::OtherRaw(s) => ConsoleAction::PrintText(s),
    }
}

/// The console action a decoded key press obliges.
pub fn action_for_key(key: KeyOut) -> (action: ConsoleAction)
    ensures
        action == spec_action_for_key(key),
{
    match key {
        KeyOut::Unicode(c) => {
            if c == BACKSPACE_CHAR {
                ConsoleAction::Backspace
            } else {
                ConsoleAction::PrintChar(c)
            }
        },
        KeyOut::ArrowLeft => ConsoleAction::CursorLeft,
        KeyOut::ArrowRight => ConsoleAction::CursorRight,
        KeyOut::ArrowUp => ConsoleAction::CursorUp,
        KeyOut::ArrowDown => ConsoleAction::CursorDown,
        KeyOut::OtherRaw(s) => ConsoleAction::PrintText(s),
    }
}

/// The console state an action leads to.
pub open spec fn cv_apply_action(v: ConsoleView, action: ConsoleAction) -> ConsoleView {
    match action {
        ConsoleAction::PrintChar(c) => cv_char(v, c),
        ConsoleAction::Backspace => cv_cursor_left(v),
        ConsoleAction::CursorLeft => cv_cursor_left(v),
        ConsoleAction::CursorRight => ConsoleView {
            x: if v.x + CHAR_ADVANCE <= v.width {
                v.x + CHAR_ADVANCE
            } else {
                v.x
            },
            ..v
        },
        ConsoleAction::CursorUp => ConsoleView {
            y: if v.y >= BORDER_PADDING + LINE_HEIGHT {
                v.y - LINE_HEIGHT
            } else {
                BORDER_PADDING as int
            },
            ..v
        },
        ConsoleAction::CursorDown => ConsoleView {
            y: if v.y + LINE_HEIGHT < v.height {
                v.y + LINE_HEIGHT
            } else {
                v.y
            },
            ..v
        },
        ConsoleAction::PrintText(s) => cv_run(v, s@),
    }
}

/// Perform one console action on the renderer.
pub fn apply_action(console: &mut FrameBufferWriter, action: &ConsoleAction)
    requires
        old(console)@.wf(),
    ensures
        final(console)@ == cv_apply_action(old(console)@, *action),
        final(console)@.wf(),
{
    match action {
        ConsoleAction::PrintChar(c) => console.write_char(*c),
        ConsoleAction::Backspace => console.backspace(),
        ConsoleAction::CursorLeft => console.cursor_left(),
        ConsoleAction::CursorRight => console.cursor_right(),
        ConsoleAction::CursorUp => console.cursor_up(),
        ConsoleAction::CursorDown => console.cursor_down(),
        ConsoleAction::PrintText(s) => console.write_str(s.as_str()),
    }
}

/// Service one keyboard interrupt's scancode byte: advance the decoder and,
/// where a key press completes, perform its console action. Returns the
/// action performed, `None` where no key press completed.
pub fn handle_scancode(
    decoder: &mut KeyboardDecoder,
    console: &mut FrameBufferWriter,
    scancode: u8,
) -> (action: Option<ConsoleAction>)
    requires
        old(console)@.wf(),
    ensures
        final(console)@.wf(),
        action is Some ==> final(console)@ == cv_apply_action(old(console)@, action->Some_0),
        action is None ==> final(console)@ == old(console)@,
{
    match decoder.feed(scancode) {
        Some(key) => {
            let act = action_for_key(key);
            apply_action(console, &act);
            Some(act)
        },
        None => None,
    }
}

} // verus!
