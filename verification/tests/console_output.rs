use rawuefi::simple_text_output::EFI_SIMPLE_TEXT_OUTPUT_PROTOCOL;
use rawuefi::status::EFI_SUCCESS;
use rawuefi::status::EFI_UNSUPPORTED;
use rawuefi::status::EFI_WARN_UNKNOWN_GLYPH;
use rawuefi::status::ERROR_BIT;

const SNOWMAN: u16 = 0x2603;

fn utf16z(s: &str) -> Vec<u16> {
    let mut v: Vec<u16> = s.encode_utf16().collect();
    v.push(0);
    v
}

#[test]
fn query_mode_zero_always_reports_80_by_25() {
    let mut dev = EFI_SIMPLE_TEXT_OUTPUT_PROTOCOL::new(Vec::new());
    let mut cols: usize = 0;
    let mut rows: usize = 0;
    assert_eq!(dev.QueryMode(0, &mut cols, &mut rows), EFI_SUCCESS);
    assert_eq!((cols, rows), (80, 25));
}

#[test]
fn query_mode_one_reports_80_by_50_when_supported() {
    let mut dev = EFI_SIMPLE_TEXT_OUTPUT_PROTOCOL::new(Vec::new());
    let mut cols: usize = 0;
    let mut rows: usize = 0;
    assert_eq!(dev.QueryMode(1, &mut cols, &mut rows), EFI_SUCCESS);
    assert_eq!((cols, rows), (80, 50));
}

#[test]
fn query_of_an_unsupported_mode_number_yields_unsupported_not_a_geometry() {
    let mut dev = EFI_SIMPLE_TEXT_OUTPUT_PROTOCOL::new(Vec::new());
    let mut cols: usize = 0xAAAA;
    let mut rows: usize = 0xBBBB;
    let status = dev.QueryMode(7, &mut cols, &mut rows);
    assert_eq!(status, EFI_UNSUPPORTED);
    assert_ne!(status & ERROR_BIT, 0, "unsupported is an error status");
    assert_eq!((cols, rows), (0xAAAA, 0xBBBB), "no geometry is returned");
}

#[test]
fn a_device_may_define_mode_one_without_supporting_it() {
    let modes = vec![Some((80usize, 25usize)), None, Some((100usize, 31usize))];
    let mut dev = EFI_SIMPLE_TEXT_OUTPUT_PROTOCOL::with_modes(modes, Vec::new());
    let mut cols: usize = 0;
    let mut rows: usize = 0;
    assert_eq!(dev.QueryMode(1, &mut cols, &mut rows), EFI_UNSUPPORTED);
    assert_eq!(dev.QueryMode(2, &mut cols, &mut rows), EFI_SUCCESS);
    assert_eq!((cols, rows), (100, 31));
    assert_eq!(dev.SetMode(1), EFI_UNSUPPORTED);
    assert_eq!(dev.SetMode(2), EFI_SUCCESS);
}

#[test]
fn output_string_ok_returns_success_and_draws_both_glyphs() {
    let mut dev = EFI_SIMPLE_TEXT_OUTPUT_PROTOCOL::new(Vec::new());
    let status = dev.OutputString(&utf16z("OK"));
    assert_eq!(status, EFI_SUCCESS);
    assert_eq!(dev.screen_glyphs(), utf16z("OK")[..2].to_vec());
    assert_eq!(dev.mode_data().CursorColumn, 2);
    assert_eq!(dev.mode_data().CursorRow, 0);
}

#[test]
fn output_string_with_an_unknown_glyph_warns_and_draws_the_rest() {
    let mut dev = EFI_SIMPLE_TEXT_OUTPUT_PROTOCOL::new(vec![SNOWMAN]);
    let mut s = utf16z("O");
    s.pop();
    s.push(SNOWMAN);
    s.push(0x4B);
    s.push(0);
    let status = dev.OutputString(&s);
    assert_eq!(status, EFI_WARN_UNKNOWN_GLYPH);
    assert_eq!(status, 1, "the unknown-glyph warning has value 1");
    assert_eq!(status & ERROR_BIT, 0, "a warning has the high bit clear");
    assert_eq!(dev.screen_glyphs(), vec![0x4F, 0x4B], "the renderable glyphs were drawn");
}

#[test]
fn output_stops_at_the_null_terminator() {
    let mut dev = EFI_SIMPLE_TEXT_OUTPUT_PROTOCOL::new(Vec::new());
    let s = vec![0x41, 0x42, 0, 0x43, 0x44, 0];
    assert_eq!(dev.OutputString(&s), EFI_SUCCESS);
    assert_eq!(dev.screen_glyphs(), vec![0x41, 0x42]);
}

#[test]
fn carriage_return_and_line_feed_move_the_cursor() {
    let mut dev = EFI_SIMPLE_TEXT_OUTPUT_PROTOCOL::new(Vec::new());
    let s = vec![0x41, 0x42, 0x0D, 0x0A, 0x43, 0];
    assert_eq!(dev.OutputString(&s), EFI_SUCCESS);
    assert_eq!(dev.screen_glyphs(), vec![0x41, 0x42, 0x43], "control characters are not drawn");
    assert_eq!(dev.mode_data().CursorColumn, 1);
    assert_eq!(dev.mode_data().CursorRow, 1);
}

#[test]
fn the_cursor_wraps_at_the_last_column() {
    let mut dev = EFI_SIMPLE_TEXT_OUTPUT_PROTOCOL::new(Vec::new());
    let mut s = vec![0x58; 80];
    s.push(0);
    assert_eq!(dev.OutputString(&s), EFI_SUCCESS);
    assert_eq!(dev.mode_data().CursorColumn, 0);
    assert_eq!(dev.mode_data().CursorRow, 1);
    assert_eq!(dev.screen_glyphs().len(), 80);
}

#[test]
fn test_string_reports_whether_every_glyph_renders() {
    let mut dev = EFI_SIMPLE_TEXT_OUTPUT_PROTOCOL::new(vec![SNOWMAN]);
    assert_eq!(dev.TestString(&utf16z("plain")), EFI_SUCCESS);
    let mut s: Vec<u16> = Vec::new();
    s.push(SNOWMAN);
    s.push(0);
    assert_eq!(dev.TestString(&s), EFI_UNSUPPORTED);
    assert_eq!(dev.screen_glyphs(), Vec::<u16>::new(), "test-string draws nothing");
}

#[test]
fn set_mode_clears_the_screen_and_homes_the_cursor() {
    let mut dev = EFI_SIMPLE_TEXT_OUTPUT_PROTOCOL::new(Vec::new());
    assert_eq!(dev.OutputString(&utf16z("hello")), EFI_SUCCESS);
    assert_eq!(dev.SetMode(1), EFI_SUCCESS);
    assert_eq!(dev.mode_data().Mode, 1);
    assert_eq!(dev.screen_glyphs(), Vec::<u16>::new());
    assert_eq!(dev.mode_data().CursorColumn, 0);
    assert_eq!(dev.mode_data().CursorRow, 0);
    assert_eq!(dev.SetMode(9), EFI_UNSUPPORTED);
    assert_eq!(dev.mode_data().Mode, 1, "a failed set-mode changes nothing");
}

#[test]
fn clear_screen_empties_the_display_and_homes_the_cursor() {
    let mut dev = EFI_SIMPLE_TEXT_OUTPUT_PROTOCOL::new(Vec::new());
    assert_eq!(dev.OutputString(&utf16z("abc")), EFI_SUCCESS);
    assert_eq!(dev.ClearScreen(), EFI_SUCCESS);
    assert_eq!(dev.screen_glyphs(), Vec::<u16>::new());
    assert_eq!(dev.mode_data().CursorColumn, 0);
    assert_eq!(dev.mode_data().CursorRow, 0);
}

#[test]
fn set_cursor_position_respects_the_geometry() {
    let mut dev = EFI_SIMPLE_TEXT_OUTPUT_PROTOCOL::new(Vec::new());
    assert_eq!(dev.SetCursorPosition(79, 24), EFI_SUCCESS);
    assert_eq!(dev.mode_data().CursorColumn, 79);
    assert_eq!(dev.mode_data().CursorRow, 24);
    assert_eq!(dev.SetCursorPosition(80, 0), EFI_UNSUPPORTED);
    assert_eq!(dev.SetCursorPosition(0, 25), EFI_UNSUPPORTED);
    assert_eq!(dev.mode_data().CursorColumn, 79, "a failed move changes nothing");
}

#[test]
fn set_attribute_and_enable_cursor_update_the_mode_data() {
    let mut dev = EFI_SIMPLE_TEXT_OUTPUT_PROTOCOL::new(Vec::new());
    assert_eq!(dev.SetAttribute(0x1E), EFI_SUCCESS);
    assert_eq!(dev.mode_data().Attribute, 0x1E);
    assert_eq!(dev.EnableCursor(0), EFI_SUCCESS);
    assert_eq!(dev.mode_data().CursorVisible, 0);
    assert_eq!(dev.EnableCursor(1), EFI_SUCCESS);
    assert_eq!(dev.mode_data().CursorVisible, 1);
}

#[test]
fn reset_returns_to_mode_zero_with_a_clear_screen() {
    let mut dev = EFI_SIMPLE_TEXT_OUTPUT_PROTOCOL::new(Vec::new());
    assert_eq!(dev.SetMode(1), EFI_SUCCESS);
    assert_eq!(dev.OutputString(&utf16z("x")), EFI_SUCCESS);
    assert_eq!(dev.Reset(0), EFI_SUCCESS);
    assert_eq!(dev.mode_data().Mode, 0);
    assert_eq!(dev.screen_glyphs(), Vec::<u16>::new());
    assert_eq!(dev.mode_data().CursorColumn, 0);
    assert_eq!(dev.mode_data().CursorRow, 0);
}
