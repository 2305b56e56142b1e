use riprs::error::DecodeError;
use riprs::flags::{ButtonFlags, ButtonStyleFlags, ButtonStyleFlags2, DefineFlags, Flag, FlagSet};
use riprs::parser::{from_bool, from_meganum, is_bool_digit, is_meganum_digit};
use riprs::structs::{EGAColor, FontSize, PaletteColor, Rgb, WriteMode, XY};

const DIGITS: &str = "0123456789ABCDEFGHIJKLMNOPQRSTUVWXYZ";

#[test]
fn meganum_examples() {
    assert_eq!(from_meganum("00"), Ok(0));
    assert_eq!(from_meganum("0Z"), Ok(35));
    assert_eq!(from_meganum("10"), Ok(36));
    assert_eq!(from_meganum("ZZ"), Ok(1295));
    assert_eq!(from_meganum("03"), Ok(3));
    assert_eq!(from_meganum("99"), Ok(333));
}

#[test]
fn meganum_every_pair_of_digits() {
    for (i, a) in DIGITS.chars().enumerate() {
        for (j, b) in DIGITS.chars().enumerate() {
            let upper = format!("{}{}", a, b);
            let lower = upper.to_lowercase();
            let want = Ok((i * 36 + j) as u32);
            assert_eq!(from_meganum(&upper), want);
            assert_eq!(from_meganum(&lower), want);
        }
    }
}

#[test]
fn meganum_rejects_what_is_not_two_digits() {
    for text in ["", "0", "000", "0|", "|0", " 1", "+1", "-1", "0_", "é"] {
        assert_eq!(from_meganum(text), Err(DecodeError::InvalidNumeral));
    }
}

#[test]
fn meganum_digit_classes() {
    for c in 0u8..=255 {
        let want = (c as char).is_ascii_alphanumeric();
        assert_eq!(is_meganum_digit(c), want);
        assert_eq!(is_bool_digit(c), c == b'0' || c == b'1');
    }
}

#[test]
fn boolean_digits() {
    assert_eq!(from_bool("0"), Ok(false));
    assert_eq!(from_bool("1"), Ok(true));
}

#[test]
fn boolean_rejects_every_other_character() {
    for c in 0u8..128 {
        if c == b'0' || c == b'1' {
            continue;
        }
        let text = (c as char).to_string();
        assert_eq!(from_bool(&text), Err(DecodeError::InvalidBoolean));
    }
    for text in ["", "00", "01", "10", "true", "é"] {
        assert_eq!(from_bool(text), Err(DecodeError::InvalidBoolean));
    }
}

#[test]
fn only_need_more_input_is_recoverable() {
    assert!(DecodeError::NeedMoreInput.recoverable());
    for e in [
        DecodeError::InvalidBoolean,
        DecodeError::InvalidNumeral,
        DecodeError::ValueOutOfRange,
        DecodeError::InvalidEnumValue,
        DecodeError::InvalidFraming,
    ] {
        assert!(!e.recoverable());
    }
}

#[test]
fn palette_color_range() {
    for v in 0u8..=255 {
        let r = PaletteColor::try_from(v);
        if v <= 15 {
            assert_eq!(r.unwrap().value(), v);
        } else {
            assert_eq!(r, Err("Palette colors must be in range 0..=15"));
        }
    }
}

#[test]
fn ega_color_range() {
    assert_eq!(EGAColor::new().value(), 0);
    for v in 0u8..=255 {
        let r = EGAColor::try_from(v);
        if v <= 63 {
            assert_eq!(r.unwrap().value(), v);
        } else {
            assert_eq!(r, Err("EGA colors must be in range 0..=63"));
        }
    }
}

#[test]
fn write_mode_numbers() {
    assert_eq!(WriteMode::try_from(0u32), Ok(WriteMode::Normal));
    assert_eq!(WriteMode::try_from(1u32), Ok(WriteMode::Xor));
    assert_eq!(WriteMode::try_from(2u32), Err("Write mode must be 0 or 1"));
    assert_eq!(WriteMode::try_from(u32::MAX), Err("Write mode must be 0 or 1"));
}

#[test]
fn font_size_numbers() {
    assert_eq!(FontSize::try_from(0u32), Ok(FontSize::Size8x8));
    assert_eq!(FontSize::try_from(1u32), Ok(FontSize::Size7x8));
    assert_eq!(FontSize::try_from(2u32), Ok(FontSize::Size8x14));
    assert_eq!(FontSize::try_from(3u32), Ok(FontSize::Size7x14));
    assert_eq!(FontSize::try_from(4u32), Ok(FontSize::Size16x14));
    assert_eq!(FontSize::try_from(5u32), Err("Font size must be in range 0..=4"));
}

fn rgb(v: u8) -> (u8, u8, u8) {
    let c = Rgb::from(EGAColor::try_from(v).unwrap());
    (c.r, c.g, c.b)
}

#[test]
fn rgb_spot_checks() {
    assert_eq!(rgb(0), (0, 0, 0));
    assert_eq!(rgb(63), (255, 255, 255));
    assert_eq!(rgb(1), (0, 0, 170));
    assert_eq!(rgb(2), (0, 170, 0));
    assert_eq!(rgb(4), (170, 0, 0));
    assert_eq!(rgb(8), (0, 0, 85));
    assert_eq!(rgb(16), (0, 85, 0));
    assert_eq!(rgb(32), (85, 0, 0));
    assert_eq!(rgb(7), (170, 170, 170));
    assert_eq!(rgb(20), (170, 85, 0));
    assert_eq!(rgb(56), (85, 85, 85));
}

#[test]
fn rgb_is_a_function_of_the_value() {
    for v in 0u8..64 {
        let first = rgb(v);
        let second = rgb(v);
        assert_eq!(first, second);
        let low = |bit: u8| (v >> bit) & 1;
        assert_eq!(first.0, 0x55 * (low(5) + 2 * low(2)));
        assert_eq!(first.1, 0x55 * (low(4) + 2 * low(1)));
        assert_eq!(first.2, 0x55 * (low(3) + 2 * low(0)));
    }
}

#[test]
fn coordinate_pairs_compare_by_fields() {
    assert_eq!(XY { x: 1, y: 2 }, XY { x: 1, y: 2 });
    assert_ne!(XY { x: 1, y: 2 }, XY { x: 2, y: 1 });
}

#[test]
fn flag_positions_follow_declaration_order() {
    assert_eq!(ButtonStyleFlags::Clipboard.index(), 0);
    assert_eq!(ButtonStyleFlags::Invertable.index(), 1);
    assert_eq!(ButtonStyleFlags::Sunken.index(), 15);
    assert_eq!(ButtonStyleFlags2::CheckboxGroup.index(), 0);
    assert_eq!(ButtonStyleFlags2::RightJustify.index(), 4);
    assert_eq!(ButtonFlags::AlreadySelected.index(), 0);
    assert_eq!(ButtonFlags::DefaultEnter.index(), 1);
    assert_eq!(DefineFlags::Database.index(), 0);
    assert_eq!(DefineFlags::NonInteractive.index(), 2);
}

#[test]
fn flag_set_insert_remove_contains() {
    let mut set = FlagSet::<ButtonStyleFlags>::new();
    assert_eq!(set.bits(), 0);
    assert!(!set.contains(ButtonStyleFlags::Sunken));
    set.insert(ButtonStyleFlags::Sunken);
    set.insert(ButtonStyleFlags::Clipboard);
    assert!(set.contains(ButtonStyleFlags::Sunken));
    assert!(set.contains(ButtonStyleFlags::Clipboard));
    assert!(!set.contains(ButtonStyleFlags::Icon));
    assert_eq!(set.bits(), 0x8001);
    set.insert(ButtonStyleFlags::Sunken);
    assert_eq!(set.bits(), 0x8001);
    set.remove(ButtonStyleFlags::Clipboard);
    assert_eq!(set.bits(), 0x8000);
    set.remove(ButtonStyleFlags::Icon);
    assert_eq!(set.bits(), 0x8000);
}

#[test]
fn flag_set_from_bits() {
    let set = FlagSet::<DefineFlags>::from_bits(0b101);
    assert!(set.contains(DefineFlags::Database));
    assert!(!set.contains(DefineFlags::NonBlank));
    assert!(set.contains(DefineFlags::NonInteractive));
    assert_eq!(set, set.clone());
}
