use riprs::command::Command;
use riprs::error::{DecodeError, Failure};
use riprs::parser::{
    batch, boolean, command, command_level, diagnose, ega_color, font_size, meganum2,
    palette_color, ripscrip, symbol, write_mode,
};
use riprs::structs::{EGAColor, FontSize, PaletteColor, WriteMode, XY};

fn pc(v: u8) -> PaletteColor {
    PaletteColor::try_from(v).unwrap()
}

fn ega(v: u8) -> EGAColor {
    EGAColor::try_from(v).unwrap()
}

fn xy(x: u32, y: u32) -> XY {
    XY { x, y }
}

#[test]
fn reset_windows_alone() {
    assert_eq!(ripscrip("!|*"), Ok((vec![Command::ResetWindows], 3)));
}

#[test]
fn color_three() {
    assert_eq!(ripscrip("!|c03"), Ok((vec![Command::Color { color: pc(3) }], 5)));
}

#[test]
fn color_out_of_range_fails_the_batch() {
    assert_eq!(ripscrip("!|c99"), Err(DecodeError::ValueOutOfRange));
    assert_eq!(ripscrip("!|c0G"), Err(DecodeError::ValueOutOfRange));
    assert_eq!(ripscrip("!|*|c99"), Err(DecodeError::ValueOutOfRange));
    assert_eq!(ripscrip("!|*|c99|*"), Err(DecodeError::ValueOutOfRange));
}

#[test]
fn color_is_checked_before_it_is_narrowed() {
    // "74" is 256, "7J" is 271: both are zero or fifteen once cut to a byte.
    assert_eq!(ripscrip("!|c74"), Err(DecodeError::ValueOutOfRange));
    assert_eq!(ripscrip("!|c7J"), Err(DecodeError::ValueOutOfRange));
    assert_eq!(ripscrip("!|a0074"), Err(DecodeError::ValueOutOfRange));
}

#[test]
fn unknown_symbol_takes_the_rest() {
    assert_eq!(ripscrip("!|Z"), Ok((vec![Command::Unknown], 3)));
    assert_eq!(ripscrip("!|Z|*|c03"), Ok((vec![Command::Unknown], 9)));
    assert_eq!(ripscrip("!|*|Z|c99 and more"), Ok((vec![Command::ResetWindows, Command::Unknown], 18)));
}

#[test]
fn any_level_is_unknown() {
    assert_eq!(ripscrip("!|1*"), Ok((vec![Command::Unknown], 4)));
    assert_eq!(ripscrip("!|0v00000Z0Z"), Ok((vec![Command::Unknown], 12)));
    assert_eq!(ripscrip("!|123456789*|*"), Ok((vec![Command::Unknown], 14)));
    assert_eq!(ripscrip("!|1234567890"), Ok((vec![Command::Unknown], 12)));
}

#[test]
fn viewport_round_trip() {
    let want = Command::Viewport { corners: (xy(0, 0), xy(35, 35)) };
    assert_eq!(ripscrip("!|v00000Z0Z"), Ok((vec![want], 11)));
    let wide = Command::Viewport { corners: (xy(1, 36), xy(1295, 349)) };
    assert_eq!(ripscrip("!|v0110ZZ9P"), Ok((vec![wide], 11)));
}

#[test]
fn text_window_fields() {
    let want = Command::TextWindow {
        corners: (xy(0, 0), xy(79, 42)),
        wrap: true,
        size: FontSize::Size8x8,
    };
    assert_eq!(ripscrip("!|w0000271610"), Ok((vec![want], 13)));
    let other = Command::TextWindow {
        corners: (xy(1, 2), xy(3, 4)),
        wrap: false,
        size: FontSize::Size16x14,
    };
    assert_eq!(ripscrip("!|w0102030404"), Ok((vec![other], 13)));
}

#[test]
fn commands_without_fields() {
    assert_eq!(ripscrip("!|e"), Ok((vec![Command::EraseWindow], 3)));
    assert_eq!(ripscrip("!|E"), Ok((vec![Command::EraseView], 3)));
    assert_eq!(ripscrip("!|H"), Ok((vec![Command::Home], 3)));
    assert_eq!(ripscrip("!|>"), Ok((vec![Command::EraseEol], 3)));
}

#[test]
fn gotoxy_fields() {
    assert_eq!(ripscrip("!|g0A0b"), Ok((vec![Command::Gotoxy(xy(10, 11))], 7)));
}

#[test]
fn set_palette_fields() {
    let text = "!|Q000102030405060708090A0B0C0D0E1R";
    let mut c = [ega(0); 16];
    for i in 0..15 {
        c[i] = ega(i as u8);
    }
    c[15] = ega(63);
    assert_eq!(ripscrip(text), Ok((vec![Command::SetPalette { c }], 35)));
}

#[test]
fn set_palette_rejects_a_large_entry() {
    assert_eq!(
        ripscrip("!|Q000102030405060708090A0B0C0D0E1S"),
        Err(DecodeError::ValueOutOfRange)
    );
    assert_eq!(ripscrip("!|Q1S"), Err(DecodeError::ValueOutOfRange));
    assert_eq!(ripscrip("!|Q0001"), Err(DecodeError::NeedMoreInput));
}

#[test]
fn one_palette_fields() {
    let want = Command::OnePalette { color: pc(15), value: ega(63) };
    assert_eq!(ripscrip("!|a0F1R"), Ok((vec![want], 7)));
    assert_eq!(ripscrip("!|a0G1R"), Err(DecodeError::ValueOutOfRange));
    assert_eq!(ripscrip("!|a0F1S"), Err(DecodeError::ValueOutOfRange));
}

#[test]
fn write_mode_fields() {
    assert_eq!(ripscrip("!|W00"), Ok((vec![Command::WriteMode { mode: WriteMode::Normal }], 5)));
    assert_eq!(ripscrip("!|W01"), Ok((vec![Command::WriteMode { mode: WriteMode::Xor }], 5)));
    assert_eq!(ripscrip("!|W02"), Err(DecodeError::ValueOutOfRange));
}

#[test]
fn several_commands_in_protocol_order() {
    let want = vec![
        Command::ResetWindows,
        Command::Color { color: pc(3) },
        Command::Gotoxy(xy(1, 1)),
        Command::Home,
    ];
    assert_eq!(ripscrip("!|*|c03|g0101|H"), Ok((want, 15)));
}

#[test]
fn decoding_stops_where_no_command_follows() {
    assert_eq!(ripscrip("!|*hello"), Ok((vec![Command::ResetWindows], 3)));
    assert_eq!(ripscrip("!|c03\r\n!|*"), Ok((vec![Command::Color { color: pc(3) }], 5)));
}

#[test]
fn framing_errors() {
    assert_eq!(ripscrip("x"), Err(DecodeError::InvalidFraming));
    assert_eq!(ripscrip("|*"), Err(DecodeError::InvalidFraming));
    assert_eq!(ripscrip("!x"), Err(DecodeError::InvalidFraming));
    assert_eq!(ripscrip("!*"), Err(DecodeError::InvalidFraming));
    assert_eq!(ripscrip("!|\u{7}"), Err(DecodeError::InvalidFraming));
    assert_eq!(ripscrip("!|\u{7f}"), Err(DecodeError::InvalidFraming));
    assert_eq!(ripscrip("!|é"), Err(DecodeError::InvalidFraming));
}

#[test]
fn truncated_input_needs_more() {
    for text in ["", "!", "!|", "!|1", "!|12345678", "!|123456789", "!|v", "!|v0", "!|v000000",
        "!|v00000Z0", "!|w00000000", "!|w000000001", "!|c", "!|c0", "!|*|", "!|*|g010"]
    {
        assert_eq!(ripscrip(text), Err(DecodeError::NeedMoreInput), "{:?}", text);
    }
}

#[test]
fn field_errors_by_kind() {
    assert_eq!(ripscrip("!|v0!"), Err(DecodeError::InvalidNumeral));
    assert_eq!(ripscrip("!|v!"), Err(DecodeError::InvalidNumeral));
    assert_eq!(ripscrip("!|v0000|*"), Err(DecodeError::InvalidNumeral));
    assert_eq!(ripscrip("!|w00000000x0"), Err(DecodeError::InvalidBoolean));
    assert_eq!(ripscrip("!|w0000000020"), Err(DecodeError::InvalidBoolean));
    assert_eq!(ripscrip("!|w0000000015"), Err(DecodeError::InvalidEnumValue));
    assert_eq!(ripscrip("!|w000000001Z"), Err(DecodeError::InvalidEnumValue));
    assert_eq!(ripscrip("!|w000000001|"), Err(DecodeError::InvalidEnumValue));
}

#[test]
fn bytes_and_text_decode_alike() {
    for text in ["!|*", "!|c03", "!|c99", "!|Z|*", "!|v00000Z0Z|e", "", "!|v0"] {
        assert_eq!(batch(text.as_bytes()), ripscrip(text));
    }
}

#[test]
fn primitive_decoders_at_a_position() {
    let input = b"xx0Z1-4";
    assert_eq!(meganum2(input, 2), Ok((35, 4)));
    assert_eq!(meganum2(input, 3), Ok((36 * 35 + 1, 5)));
    assert_eq!(meganum2(input, 4), Err(DecodeError::InvalidNumeral));
    assert_eq!(meganum2(input, 5), Err(DecodeError::InvalidNumeral));
    assert_eq!(meganum2(input, 6), Err(DecodeError::NeedMoreInput));
    assert_eq!(meganum2(input, 7), Err(DecodeError::NeedMoreInput));
    assert_eq!(meganum2(input, 70), Err(DecodeError::NeedMoreInput));
    assert_eq!(boolean(input, 2), Ok((false, 3)));
    assert_eq!(boolean(input, 4), Ok((true, 5)));
    assert_eq!(boolean(input, 3), Err(DecodeError::InvalidBoolean));
    assert_eq!(boolean(input, 7), Err(DecodeError::NeedMoreInput));
    assert_eq!(font_size(input, 6), Ok((FontSize::Size16x14, 7)));
    assert_eq!(font_size(input, 3), Err(DecodeError::InvalidEnumValue));
    assert_eq!(font_size(input, 5), Err(DecodeError::InvalidEnumValue));
    assert_eq!(font_size(input, 7), Err(DecodeError::NeedMoreInput));
}

#[test]
fn range_checked_numerals() {
    assert_eq!(palette_color(b"0F", 0), Ok((pc(15), 2)));
    assert_eq!(palette_color(b"0G", 0), Err(DecodeError::ValueOutOfRange));
    assert_eq!(palette_color(b"0", 0), Err(DecodeError::NeedMoreInput));
    assert_eq!(ega_color(b"1R", 0), Ok((ega(63), 2)));
    assert_eq!(ega_color(b"1S", 0), Err(DecodeError::ValueOutOfRange));
    assert_eq!(ega_color(b"ZZ", 0), Err(DecodeError::ValueOutOfRange));
    assert_eq!(write_mode(b"01", 0), Ok((WriteMode::Xor, 2)));
    assert_eq!(write_mode(b"10", 0), Err(DecodeError::ValueOutOfRange));
    assert_eq!(write_mode(b"0-", 0), Err(DecodeError::InvalidNumeral));
}

#[test]
fn command_level_counts_decimal_digits() {
    assert_eq!(command_level(b"*", 0), Ok((0, 0)));
    assert_eq!(command_level(b"12*", 0), Ok((2, 2)));
    assert_eq!(command_level(b"09a", 0), Ok((2, 2)));
    assert_eq!(command_level(b"/:", 0), Ok((0, 0)));
    assert_eq!(command_level(b"1:", 0), Ok((1, 1)));
    assert_eq!(command_level(b"123456789", 0), Ok((9, 9)));
    assert_eq!(command_level(b"1234567890", 0), Ok((9, 9)));
    assert_eq!(command_level(b"12345678", 0), Err(DecodeError::NeedMoreInput));
    assert_eq!(command_level(b"", 0), Err(DecodeError::NeedMoreInput));
}

#[test]
fn symbol_is_any_printable_character() {
    for c in 0u8..=255 {
        let input = [c];
        if (0x20..=0x7e).contains(&c) {
            assert_eq!(symbol(&input, 0), Ok((c, 1)));
        } else {
            assert_eq!(symbol(&input, 0), Err(DecodeError::InvalidFraming));
        }
    }
    assert_eq!(symbol(b"", 0), Err(DecodeError::NeedMoreInput));
}

#[test]
fn one_command_with_its_marker() {
    assert_eq!(command(b"|H|*", 0), Ok((Command::Home, 2)));
    assert_eq!(command(b"|H|*", 2), Ok((Command::ResetWindows, 4)));
    assert_eq!(command(b"|H|*", 1), Err(DecodeError::InvalidFraming));
    assert_eq!(command(b"|H|*", 4), Err(DecodeError::NeedMoreInput));
}

#[test]
fn a_batch_that_decodes_has_no_failure() {
    for text in ["!|*", "!|c03|H", "!|Z|c99", "!|*hello"] {
        assert_eq!(diagnose(text.as_bytes()), None);
    }
}

#[test]
fn a_failure_names_its_command() {
    let at = |kind, offset, symbol| Some(Failure { kind, offset, symbol });
    assert_eq!(diagnose(b""), at(DecodeError::NeedMoreInput, 0, None));
    assert_eq!(diagnose(b"x"), at(DecodeError::InvalidFraming, 0, None));
    assert_eq!(diagnose(b"!"), at(DecodeError::NeedMoreInput, 1, None));
    assert_eq!(diagnose(b"!x"), at(DecodeError::InvalidFraming, 1, None));
    assert_eq!(diagnose(b"!|v00"), at(DecodeError::NeedMoreInput, 1, Some(b'v')));
    assert_eq!(diagnose(b"!|c99"), at(DecodeError::ValueOutOfRange, 1, Some(b'c')));
    assert_eq!(diagnose(b"!|*|c99"), at(DecodeError::ValueOutOfRange, 3, Some(b'c')));
    assert_eq!(diagnose(b"!|*|12"), at(DecodeError::NeedMoreInput, 3, None));
    assert_eq!(diagnose(b"!|*|H|\x07"), at(DecodeError::InvalidFraming, 5, None));
    assert_eq!(diagnose(b"!|*|H|w00000000x2"), at(DecodeError::InvalidBoolean, 5, Some(b'w')));
    assert_eq!(diagnose(b"!|g0101|g0!"), at(DecodeError::InvalidNumeral, 7, Some(b'g')));
    assert_eq!(diagnose(b"!|g01|g0!"), at(DecodeError::InvalidNumeral, 1, Some(b'g')));
}

#[test]
fn diagnosis_and_decoding_agree_on_the_error() {
    for text in ["", "x", "!", "!|", "!|c99", "!|*|c99", "!|v0!", "!|w0000000015", "!|*", "!|Z"] {
        let kind = diagnose(text.as_bytes()).map(|f| f.kind);
        assert_eq!(kind, batch(text.as_bytes()).err());
    }
}
