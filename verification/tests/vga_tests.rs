use kernel_console::framebuffer::ColorCode;
use kernel_console::framebuffer::FrameBufferWriter;
use kernel_console::framebuffer::ScreenChar;
use kernel_console::sync::SyncState;

#[test]
fn screen_char_packs_color_high_and_character_low() {
    let s = ScreenChar::new('A', 0x0f);
    assert_eq!(s.to_u16(), 0x0f41);
    let s = ScreenChar::new('!', 0x1c);
    assert_eq!(s.to_u16(), 0x1c21);
}

#[test]
fn screen_char_truncates_wide_characters() {
    // U+0141 has no room in one byte; only its low byte remains.
    let s = ScreenChar::new('\u{0141}', 0x07);
    assert_eq!(s.to_u16(), 0x0741);
}

#[test]
fn color_code_packs_background_high_and_foreground_low() {
    assert_eq!(ColorCode::new(0x0f, 0x00).code(), 0x0f);
    assert_eq!(ColorCode::new(0x02, 0x03).code(), 0x32);
    assert_eq!(ColorCode::new(0x04, 0x00).code(), 0x04);
}

#[test]
fn writer_composes_cells_for_each_byte() {
    let mut w = FrameBufferWriter::new(ColorCode::new(0x0f, 0x00));
    assert_eq!(w.cell(), 0);
    w.write_byte(b'H');
    assert_eq!(w.cell(), 0x0f48);
    w.write_byte(b'i');
    assert_eq!(w.cell(), 0x0f69);
}

#[test]
fn write_string_leaves_the_last_byte_composed() {
    let mut w = FrameBufferWriter::new(ColorCode::new(0x02, 0x01));
    w.write_string("ok");
    assert_eq!(w.cell(), 0x126b);
    w.write_string("");
    assert_eq!(w.cell(), 0x126b);
    w.set_color(ColorCode::new(0x04, 0x00));
    w.write_string("!");
    assert_eq!(w.cell(), 0x0421);
}

#[test]
fn critical_section_discipline_holds() {
    let mut s = SyncState::new();
    s.enable_interrupts();
    s.enter_critical();
    s.exit_critical();
    s.enter_critical();
    s.exit_critical();
}
