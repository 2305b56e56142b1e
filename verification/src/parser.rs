//! The command grammar: primitive field decoders, per-command field
//! decoders and batch framing, all reading bytes from a position onwards.

use vstd::prelude::*;
use vstd::string::StringSliceAdditionalSpecFns;
use crate::command::{palette_view, Command, CommandView};
use crate::error::{DecodeError, Failure};
use crate::structs::{font_size_of, EGAColor, FontSize, PaletteColor, WriteMode, XY};

verus! {

/// Marks the start of a batch.
pub const BATCH_MARK: u8 = 0x21;

/// Marks the start of a command.
pub const COMMAND_MARK: u8 = 0x7c;

/// Most digits a command level may have.
pub const MAX_LEVEL_DIGITS: usize = 9;

/// `nom::character::is_digit`, which tells the decimal digits of a command
/// level from everything else. Taken on trust from its source: it returns
/// true exactly for the bytes of the characters `0` to `9`.
pub assume_specification[ nom::character::is_digit ](chr: u8) -> (b: bool)
    ensures
        b == (0x30 <= chr && chr <= 0x39),
;

/// The characters `0` and `1`.
pub open spec fn bool_digit(c: u8) -> bool {
    c == 0x30 || c == 0x31
}

/// The digits of base 36: `0` to `9`, then the letters in either case.
pub open spec fn meganum_digit(c: u8) -> bool {
    (0x30 <= c <= 0x39) || (0x41 <= c <= 0x5a) || (0x61 <= c <= 0x7a)
}

/// The value of a base-36 digit: 0 to 9 for the decimal digits, 10 to 35
/// for the letters.
pub open spec fn digit_value(c: u8) -> nat
    recommends
        meganum_digit(c),
{
    if 0x30 <= c <= 0x39 {
        (c - 0x30) as nat
    } else if 0x41 <= c <= 0x5a {
        (c - 0x41 + 10) as nat
    } else {
        (c - 0x61 + 10) as nat
    }
}

/// The value of a two-digit base-36 numeral.
pub open spec fn meganum_value(d0: u8, d1: u8) -> nat {
    digit_value(d0) * 36 + digit_value(d1)
}

/// The printable characters, space through tilde, from which a dispatch
/// symbol is taken.
pub open spec fn command_char(c: u8) -> bool {
    0x20 <= c <= 0x7e
}

/// A decode result agrees with its model when both fail with the same error
/// or both succeed at the same position with the value the model names.
pub open spec fn agrees<T: View>(
    r: Result<(T, usize), DecodeError>,
    m: Result<(T::V, int), DecodeError>,
) -> bool {
    match r {
        Ok((v, next)) => m == Ok::<(T::V, int), DecodeError>((v@, next as int)),
        Err(e) => m == Err::<(T::V, int), DecodeError>(e),
    }
}

/// Tells whether a byte is the character `0` or `1`.
pub fn is_bool_digit(c: u8) -> (b: bool)
    ensures
        b == bool_digit(c),
{
    c == 0x30 || c == 0x31
}

/// Tells whether a byte is a digit of base 36.
pub fn is_meganum_digit(c: u8) -> (b: bool)
    ensures
        b == meganum_digit(c),
{
    (0x30 <= c && c <= 0x39) || (0x41 <= c && c <= 0x5a) || (0x61 <= c && c <= 0x7a)
}

/// Value of one base-36 digit.
fn digit(c: u8) -> (v: u32)
    requires
        meganum_digit(c),
    ensures
        v as nat == digit_value(c),
        v < 36,
{
    if 0x30 <= c && c <= 0x39 {
        (c - 0x30) as u32
    } else if 0x41 <= c && c <= 0x5a {
        (c - 0x41) as u32 + 10
    } else {
        (c - 0x61) as u32 + 10
    }
}

/// A boolean field at `pos`: one character, `0` for false and `1` for true.
pub open spec fn boolean_at(s: Seq<u8>, pos: int) -> Result<(bool, int), DecodeError> {
    if pos < 0 || pos >= s.len() {
        Err(DecodeError::NeedMoreInput)
    } else if !bool_digit(s[pos]) {
        Err(DecodeError::InvalidBoolean)
    } else {
        Ok((s[pos] == 0x31, pos + 1))
    }
}

/// A two-digit base-36 numeral at `pos`. A character that is no digit makes
/// the field invalid wherever it stands; an input that ends before the
/// second digit may still be completed.
pub open spec fn meganum_at(s: Seq<u8>, pos: int) -> Result<(u32, int), DecodeError> {
    if pos < 0 || pos >= s.len() {
        Err(DecodeError::NeedMoreInput)
    } else if !meganum_digit(s[pos]) {
        Err(DecodeError::InvalidNumeral)
    } else if pos + 1 >= s.len() {
        Err(DecodeError::NeedMoreInput)
    } else if !meganum_digit(s[pos + 1]) {
        Err(DecodeError::InvalidNumeral)
    } else {
        Ok((meganum_value(s[pos], s[pos + 1]) as u32, pos + 2))
    }
}

/// Decodes a boolean field.
pub fn boolean(input: &[u8], pos: usize) -> (r: Result<(bool, usize), DecodeError>)
    ensures
        agrees(r, boolean_at(input@, pos as int)),
{
    if pos >= input.len() {
        return Err(DecodeError::NeedMoreInput);
    }
    let c: u8 = input[pos];
    if !is_bool_digit(c) {
        return Err(DecodeError::InvalidBoolean);
    }
    Ok((c == 0x31, pos + 1))
}

/// Decodes a two-digit base-36 numeral.
pub fn meganum2(input: &[u8], pos: usize) -> (r: Result<(u32, usize), DecodeError>)
    ensures
        agrees(r, meganum_at(input@, pos as int)),
        r is Ok ==> r->Ok_0.0 <= 1295,
{
    if pos >= input.len() {
        return Err(DecodeError::NeedMoreInput);
    }
    let d0: u8 = input[pos];
    if !is_meganum_digit(d0) {
        return Err(DecodeError::InvalidNumeral);
    }
    if pos + 1 >= input.len() {
        return Err(DecodeError::NeedMoreInput);
    }
    let d1: u8 = input[pos + 1];
    if !is_meganum_digit(d1) {
        return Err(DecodeError::InvalidNumeral);
    }
    let value: u32 = digit(d0) * 36 + digit(d1);
    Ok((value, pos + 2))
}

/// A palette index at `pos`: a numeral below sixteen.
pub open spec fn palette_color_at(s: Seq<u8>, pos: int) -> Result<(nat, int), DecodeError> {
    match meganum_at(s, pos) {
        Err(e) => Err(e),
        Ok((v, next)) => if v < 16 {
            Ok((v as nat, next))
        } else {
            Err(DecodeError::ValueOutOfRange)
        },
    }
}

/// A hardware colour at `pos`: a numeral below sixty-four.
pub open spec fn ega_color_at(s: Seq<u8>, pos: int) -> Result<(nat, int), DecodeError> {
    match meganum_at(s, pos) {
        Err(e) => Err(e),
        Ok((v, next)) => if v < 64 {
            Ok((v as nat, next))
        } else {
            Err(DecodeError::ValueOutOfRange)
        },
    }
}

/// A write mode at `pos`: the numeral zero for normal, one for exclusive-or.
pub open spec fn write_mode_at(s: Seq<u8>, pos: int) -> Result<(WriteMode, int), DecodeError> {
    match meganum_at(s, pos) {
        Err(e) => Err(e),
        Ok((v, next)) => if v == 0 {
            Ok((WriteMode::Normal, next))
        } else if v == 1 {
            Ok((WriteMode::Xor, next))
        } else {
            Err(DecodeError::ValueOutOfRange)
        },
    }
}

/// A text cell size at `pos`: one of the characters `0` to `4`.
pub open spec fn font_size_at(s: Seq<u8>, pos: int) -> Result<(FontSize, int), DecodeError> {
    if pos < 0 || pos >= s.len() {
        Err(DecodeError::NeedMoreInput)
    } else if !meganum_digit(s[pos]) {
        Err(DecodeError::InvalidEnumValue)
    } else {
        match font_size_of(digit_value(s[pos])) {
            Some(size) => Ok((size, pos + 1)),
            None => Err(DecodeError::InvalidEnumValue),
        }
    }
}

/// Decodes a text cell size.
pub fn font_size(input: &[u8], pos: usize) -> (r: Result<(FontSize, usize), DecodeError>)
    ensures
        agrees(r, font_size_at(input@, pos as int)),
{
    if pos >= input.len() {
        return Err(DecodeError::NeedMoreInput);
    }
    let c: u8 = input[pos];
    if !is_meganum_digit(c) {
        return Err(DecodeError::InvalidEnumValue);
    }
    match FontSize::try_from(digit(c)) {
        Ok(size) => Ok((size, pos + 1)),
        Err(_) => Err(DecodeError::InvalidEnumValue),
    }
}

/// Decodes a palette index.
pub fn palette_color(input: &[u8], pos: usize) -> (r: Result<(PaletteColor, usize), DecodeError>)
    ensures
        agrees(r, palette_color_at(input@, pos as int)),
{
    let (index, next) = meganum2(input, pos)?;
    if index > 255 {
        return Err(DecodeError::ValueOutOfRange);
    }
    match PaletteColor::try_from(index as u8) {
        Ok(color) => Ok((color, next)),
        Err(_) => Err(DecodeError::ValueOutOfRange),
    }
}

/// Decodes a hardware colour.
pub fn ega_color(input: &[u8], pos: usize) -> (r: Result<(EGAColor, usize), DecodeError>)
    ensures
        agrees(r, ega_color_at(input@, pos as int)),
{
    let (index, next) = meganum2(input, pos)?;
    if index > 255 {
        return Err(DecodeError::ValueOutOfRange);
    }
    match EGAColor::try_from(index as u8) {
        Ok(color) => Ok((color, next)),
        Err(_) => Err(DecodeError::ValueOutOfRange),
    }
}

/// Decodes a write mode.
pub fn write_mode(input: &[u8], pos: usize) -> (r: Result<(WriteMode, usize), DecodeError>)
    ensures
        agrees(r, write_mode_at(input@, pos as int)),
{
    let (index, next) = meganum2(input, pos)?;
    match WriteMode::try_from(index) {
        Ok(mode) => Ok((mode, next)),
        Err(_) => Err(DecodeError::ValueOutOfRange),
    }
}

/// How many decimal digits stand at `pos`, counting at most `limit`.
pub open spec fn level_digits(s: Seq<u8>, pos: int, limit: nat) -> nat
    decreases limit,
{
    if limit == 0 || pos < 0 || pos >= s.len() || !(0x30 <= s[pos] <= 0x39) {
        0
    } else {
        1 + level_digits(s, pos + 1, (limit - 1) as nat)
    }
}

/// The command level at `pos`: up to nine decimal digits, given by their
/// count. Fewer than nine digits that run to the end of the input may still
/// be followed by more.
pub open spec fn command_level_at(s: Seq<u8>, pos: int) -> Result<(usize, int), DecodeError> {
    let n = level_digits(s, pos, MAX_LEVEL_DIGITS as nat);
    if pos < 0 || (n < MAX_LEVEL_DIGITS && pos + n >= s.len()) {
        Err(DecodeError::NeedMoreInput)
    } else {
        Ok((n as usize, pos + n))
    }
}

/// The dispatch symbol at `pos`: one printable character.
pub open spec fn symbol_at(s: Seq<u8>, pos: int) -> Result<(u8, int), DecodeError> {
    if pos < 0 || pos >= s.len() {
        Err(DecodeError::NeedMoreInput)
    } else if !command_char(s[pos]) {
        Err(DecodeError::InvalidFraming)
    } else {
        Ok((s[pos], pos + 1))
    }
}

/// Decodes the command level and returns how many digits it has.
pub fn command_level(input: &[u8], pos: usize) -> (r: Result<(usize, usize), DecodeError>)
    ensures
        agrees(r, command_level_at(input@, pos as int)),
{
    if pos >= input.len() {
        return Err(DecodeError::NeedMoreInput);
    }
    let mut n: usize = 0;
    while n < MAX_LEVEL_DIGITS && pos + n < input.len() && nom::character::is_digit(input[pos + n])
        invariant
            n <= MAX_LEVEL_DIGITS,
            pos + n <= input.len(),
            level_digits(input@, pos as int, MAX_LEVEL_DIGITS as nat) == n + level_digits(
                input@,
                pos + n,
                (MAX_LEVEL_DIGITS - n) as nat,
            ),
        decreases MAX_LEVEL_DIGITS - n,
    {
        n = n + 1;
    }
    if n < MAX_LEVEL_DIGITS && pos + n >= input.len() {
        Err(DecodeError::NeedMoreInput)
    } else {
        Ok((n, pos + n))
    }
}

/// Decodes the dispatch symbol.
pub fn symbol(input: &[u8], pos: usize) -> (r: Result<(u8, usize), DecodeError>)
    ensures
        agrees(r, symbol_at(input@, pos as int)),
{
    if pos >= input.len() {
        return Err(DecodeError::NeedMoreInput);
    }
    let c: u8 = input[pos];
    if 0x20 <= c && c <= 0x7e {
        Ok((c, pos + 1))
    } else {
        Err(DecodeError::InvalidFraming)
    }
}

/// A coordinate pair at `pos`: the numeral of x, then that of y.
pub open spec fn point_at(s: Seq<u8>, pos: int) -> Result<(XY, int), DecodeError> {
    match meganum_at(s, pos) {
        Err(e) => Err(e),
        Ok((x, after_x)) => match meganum_at(s, after_x) {
            Err(e) => Err(e),
            Ok((y, next)) => Ok((XY { x, y }, next)),
        },
    }
}

/// Two coordinate pairs at `pos`: opposite corners of a rectangle.
pub open spec fn corners_at(s: Seq<u8>, pos: int) -> Result<((XY, XY), int), DecodeError> {
    match point_at(s, pos) {
        Err(e) => Err(e),
        Ok((first, after_first)) => match point_at(s, after_first) {
            Err(e) => Err(e),
            Ok((second, next)) => Ok(((first, second), next)),
        },
    }
}

/// Puts `front` before the items of a successful result.
pub open spec fn prepend<T>(front: Seq<T>, r: Result<(Seq<T>, int), DecodeError>) -> Result<
    (Seq<T>, int),
    DecodeError,
> {
    match r {
        Ok((rest, next)) => Ok((front + rest, next)),
        Err(e) => Err(e),
    }
}

/// Prepending in two steps is prepending the concatenation.
pub proof fn lemma_prepend_twice<T>(a: Seq<T>, b: Seq<T>, r: Result<(Seq<T>, int), DecodeError>)
    ensures
        prepend(a, prepend(b, r)) == prepend(a + b, r),
{
    match r {
        Ok((rest, next)) => {
            assert(a + (b + rest) =~= (a + b) + rest);
        },
        Err(_) => {},
    }
}

/// `count` hardware colours in a row, starting at `pos`.
pub open spec fn ega_colors_at(s: Seq<u8>, pos: int, count: nat) -> Result<
    (Seq<nat>, int),
    DecodeError,
>
    decreases count,
{
    if count == 0 {
        Ok((Seq::empty(), pos))
    } else {
        match ega_color_at(s, pos) {
            Err(e) => Err(e),
            Ok((c, next)) => prepend(seq![c], ega_colors_at(s, next, (count - 1) as nat)),
        }
    }
}

/// Decodes a coordinate pair.
pub fn point(input: &[u8], pos: usize) -> (r: Result<(XY, usize), DecodeError>)
    ensures
        agrees(r, point_at(input@, pos as int)),
{
    let (x, after_x) = meganum2(input, pos)?;
    let (y, next) = meganum2(input, after_x)?;
    Ok((XY { x, y }, next))
}

/// Decodes two coordinate pairs.
pub fn corners(input: &[u8], pos: usize) -> (r: Result<((XY, XY), usize), DecodeError>)
    ensures
        agrees(r, corners_at(input@, pos as int)),
{
    let (first, after_first) = point(input, pos)?;
    let (second, next) = point(input, after_first)?;
    Ok(((first, second), next))
}

/// The fields of a text window command: two corners, the wrap flag and
/// the cell size.
pub open spec fn text_window_at(s: Seq<u8>, pos: int) -> Result<(CommandView, int), DecodeError> {
    match corners_at(s, pos) {
        Err(e) => Err(e),
        Ok((corners, after_corners)) => match boolean_at(s, after_corners) {
            Err(e) => Err(e),
            Ok((wrap, after_wrap)) => match font_size_at(s, after_wrap) {
                Err(e) => Err(e),
                Ok((size, next)) => Ok((CommandView::TextWindow { corners, wrap, size }, next)),
            },
        },
    }
}

/// The fields of a viewport command: two corners.
pub open spec fn viewport_at(s: Seq<u8>, pos: int) -> Result<(CommandView, int), DecodeError> {
    match corners_at(s, pos) {
        Err(e) => Err(e),
        Ok((corners, next)) => Ok((CommandView::Viewport { corners }, next)),
    }
}

/// The fields of a cursor positioning command: one coordinate pair.
pub open spec fn gotoxy_at(s: Seq<u8>, pos: int) -> Result<(CommandView, int), DecodeError> {
    match point_at(s, pos) {
        Err(e) => Err(e),
        Ok((p, next)) => Ok((CommandView::Gotoxy(p), next)),
    }
}

/// The fields of a colour selection: one palette index.
pub open spec fn color_at(s: Seq<u8>, pos: int) -> Result<(CommandView, int), DecodeError> {
    match palette_color_at(s, pos) {
        Err(e) => Err(e),
        Ok((color, next)) => Ok((CommandView::Color { color }, next)),
    }
}

/// The fields of a palette replacement: sixteen hardware colours.
pub open spec fn set_palette_at(s: Seq<u8>, pos: int) -> Result<(CommandView, int), DecodeError> {
    match ega_colors_at(s, pos, 16) {
        Err(e) => Err(e),
        Ok((c, next)) => Ok((CommandView::SetPalette { c }, next)),
    }
}

/// The fields of a single palette change: the index, then the new colour.
pub open spec fn one_palette_at(s: Seq<u8>, pos: int) -> Result<(CommandView, int), DecodeError> {
    match palette_color_at(s, pos) {
        Err(e) => Err(e),
        Ok((color, after_color)) => match ega_color_at(s, after_color) {
            Err(e) => Err(e),
            Ok((value, next)) => Ok((CommandView::OnePalette { color, value }, next)),
        },
    }
}

/// The fields of a write mode selection: one mode numeral.
pub open spec fn set_write_mode_at(s: Seq<u8>, pos: int) -> Result<(CommandView, int), DecodeError> {
    match write_mode_at(s, pos) {
        Err(e) => Err(e),
        Ok((mode, next)) => Ok((CommandView::WriteMode { mode }, next)),
    }
}

/// What is made of a command that is not understood: everything up to the
/// end of the input belongs to it.
pub open spec fn unknown_at(s: Seq<u8>, pos: int) -> Result<(CommandView, int), DecodeError> {
    Ok((CommandView::Unknown, s.len() as int))
}

/// Decodes the fields of a text window command.
pub fn rip_text_window(input: &[u8], pos: usize) -> (r: Result<(Command, usize), DecodeError>)
    ensures
        agrees(r, text_window_at(input@, pos as int)),
{
    let (corners, after_corners) = corners(input, pos)?;
    let (wrap, after_wrap) = boolean(input, after_corners)?;
    let (size, next) = font_size(input, after_wrap)?;
    Ok((Command::TextWindow { corners, wrap, size }, next))
}

/// Decodes the fields of a viewport command.
pub fn rip_viewport(input: &[u8], pos: usize) -> (r: Result<(Command, usize), DecodeError>)
    ensures
        agrees(r, viewport_at(input@, pos as int)),
{
    let (corners, next) = corners(input, pos)?;
    Ok((Command::Viewport { corners }, next))
}

/// The reset command has no fields: nothing is read.
pub fn rip_reset_windows(input: &[u8], pos: usize) -> (r: Result<(Command, usize), DecodeError>)
    ensures
        r == Ok::<(Command, usize), DecodeError>((Command::ResetWindows, pos)),
{
    Ok((Command::ResetWindows, pos))
}

/// The command that clears the text window has no fields: nothing is read.
pub fn rip_erase_window(input: &[u8], pos: usize) -> (r: Result<(Command, usize), DecodeError>)
    ensures
        r == Ok::<(Command, usize), DecodeError>((Command::EraseWindow, pos)),
{
    Ok((Command::EraseWindow, pos))
}

/// The command that clears the viewport has no fields: nothing is read.
pub fn rip_erase_view(input: &[u8], pos: usize) -> (r: Result<(Command, usize), DecodeError>)
    ensures
        r == Ok::<(Command, usize), DecodeError>((Command::EraseView, pos)),
{
    Ok((Command::EraseView, pos))
}

/// Decodes the fields of a cursor positioning command.
pub fn rip_gotoxy(input: &[u8], pos: usize) -> (r: Result<(Command, usize), DecodeError>)
    ensures
        agrees(r, gotoxy_at(input@, pos as int)),
{
    let (p, next) = point(input, pos)?;
    Ok((Command::Gotoxy(p), next))
}

/// The home command has no fields: nothing is read.
pub fn rip_home(input: &[u8], pos: usize) -> (r: Result<(Command, usize), DecodeError>)
    ensures
        r == Ok::<(Command, usize), DecodeError>((Command::Home, pos)),
{
    Ok((Command::Home, pos))
}

/// The command that erases to the end of the line has no fields: nothing
/// is read.
pub fn rip_erase_eol(input: &[u8], pos: usize) -> (r: Result<(Command, usize), DecodeError>)
    ensures
        r == Ok::<(Command, usize), DecodeError>((Command::EraseEol, pos)),
{
    Ok((Command::EraseEol, pos))
}

/// Decodes the field of a colour selection.
pub fn rip_color(input: &[u8], pos: usize) -> (r: Result<(Command, usize), DecodeError>)
    ensures
        agrees(r, color_at(input@, pos as int)),
{
    let (color, next) = palette_color(input, pos)?;
    Ok((Command::Color { color }, next))
}

/// Decodes the sixteen entries of a palette replacement, in index order.
pub fn rip_set_palette(input: &[u8], pos: usize) -> (r: Result<(Command, usize), DecodeError>)
    ensures
        agrees(r, set_palette_at(input@, pos as int)),
{
    let mut c = [EGAColor::new();16];
    let mut next: usize = pos;
    let mut i: usize = 0;
    while i < 16
        invariant
            i <= 16,
            ega_colors_at(input@, pos as int, 16) == prepend(
                palette_view(c@.take(i as int)),
                ega_colors_at(input@, next as int, (16 - i) as nat),
            ),
        decreases 16 - i,
    {
        let ghost before = c@;
        match ega_color(input, next) {
            Err(e) => {
                return Err(e);
            },
            Ok((color, after)) => {
                c[i] = color;
                proof {
                    assert(palette_view(c@.take(i + 1)) =~= palette_view(before.take(i as int))
                        + seq![color@]);
                    lemma_prepend_twice(
                        palette_view(before.take(i as int)),
                        seq![color@],
                        ega_colors_at(input@, after as int, (15 - i) as nat),
                    );
                }
                next = after;
            },
        }
        i = i + 1;
    }
    proof {
        assert(c@.take(16) =~= c@);
        assert(palette_view(c@) + Seq::<nat>::empty() =~= palette_view(c@));
    }
    Ok((Command::SetPalette { c }, next))
}

/// Decodes the fields of a single palette change.
pub fn rip_one_palette(input: &[u8], pos: usize) -> (r: Result<(Command, usize), DecodeError>)
    ensures
        agrees(r, one_palette_at(input@, pos as int)),
{
    let (color, after_color) = palette_color(input, pos)?;
    let (value, next) = ega_color(input, after_color)?;
    Ok((Command::OnePalette { color, value }, next))
}

/// Decodes the field of a write mode selection.
pub fn rip_write_mode(input: &[u8], pos: usize) -> (r: Result<(Command, usize), DecodeError>)
    ensures
        agrees(r, set_write_mode_at(input@, pos as int)),
{
    let (mode, next) = write_mode(input, pos)?;
    Ok((Command::WriteMode { mode }, next))
}

/// Gives up on a command that is not understood, together with the rest of
/// the input.
pub fn unknown(input: &[u8], pos: usize) -> (r: Result<(Command, usize), DecodeError>)
    ensures
        agrees(r, unknown_at(input@, pos as int)),
{
    Ok((Command::Unknown, input.len()))
}

/// `w`, the symbol of the text window command.
pub const SYM_TEXT_WINDOW: u8 = 0x77;

/// `v`, the symbol of the viewport command.
pub const SYM_VIEWPORT: u8 = 0x76;

/// `*`, the symbol of the reset command.
pub const SYM_RESET_WINDOWS: u8 = 0x2a;

/// `e`, the symbol of the command that clears the text window.
pub const SYM_ERASE_WINDOW: u8 = 0x65;

/// `E`, the symbol of the command that clears the viewport.
pub const SYM_ERASE_VIEW: u8 = 0x45;

/// `g`, the symbol of the cursor positioning command.
pub const SYM_GOTOXY: u8 = 0x67;

/// `H`, the symbol of the home command.
pub const SYM_HOME: u8 = 0x48;

/// `>`, the symbol of the command that erases to the end of the line.
pub const SYM_ERASE_EOL: u8 = 0x3e;

/// `c`, the symbol of the colour selection.
pub const SYM_COLOR: u8 = 0x63;

/// `Q`, the symbol of the palette replacement.
pub const SYM_SET_PALETTE: u8 = 0x51;

/// `a`, the symbol of the single palette change.
pub const SYM_ONE_PALETTE: u8 = 0x61;

/// `W`, the symbol of the write mode selection.
pub const SYM_WRITE_MODE: u8 = 0x57;

/// Whether a level and a symbol select a command that has a field decoder.
pub open spec fn wired(level: usize, symbol: u8) -> bool {
    level == 0 && (symbol == SYM_TEXT_WINDOW || symbol == SYM_VIEWPORT || symbol
        == SYM_RESET_WINDOWS || symbol == SYM_ERASE_WINDOW || symbol == SYM_ERASE_VIEW || symbol
        == SYM_GOTOXY || symbol == SYM_HOME || symbol == SYM_ERASE_EOL || symbol == SYM_COLOR
        || symbol == SYM_SET_PALETTE || symbol == SYM_ONE_PALETTE || symbol == SYM_WRITE_MODE)
}

/// The command that a level and a symbol select, decoded from the fields
/// at `pos`. Only the base level, written with no digits, has commands;
/// every other pair selects the unknown command.
pub open spec fn fields_at(s: Seq<u8>, pos: int, level: usize, symbol: u8) -> Result<
    (CommandView, int),
    DecodeError,
> {
    if level != 0 {
        unknown_at(s, pos)
    } else if symbol == SYM_TEXT_WINDOW {
        text_window_at(s, pos)
    } else if symbol == SYM_VIEWPORT {
        viewport_at(s, pos)
    } else if symbol == SYM_RESET_WINDOWS {
        Ok((CommandView::ResetWindows, pos))
    } else if symbol == SYM_ERASE_WINDOW {
        Ok((CommandView::EraseWindow, pos))
    } else if symbol == SYM_ERASE_VIEW {
        Ok((CommandView::EraseView, pos))
    } else if symbol == SYM_GOTOXY {
        gotoxy_at(s, pos)
    } else if symbol == SYM_HOME {
        Ok((CommandView::Home, pos))
    } else if symbol == SYM_ERASE_EOL {
        Ok((CommandView::EraseEol, pos))
    } else if symbol == SYM_COLOR {
        color_at(s, pos)
    } else if symbol == SYM_SET_PALETTE {
        set_palette_at(s, pos)
    } else if symbol == SYM_ONE_PALETTE {
        one_palette_at(s, pos)
    } else if symbol == SYM_WRITE_MODE {
        set_write_mode_at(s, pos)
    } else {
        unknown_at(s, pos)
    }
}

/// A command without its marker: the level, the symbol, then the fields
/// that the two select.
pub open spec fn command_inner_at(s: Seq<u8>, pos: int) -> Result<(CommandView, int), DecodeError> {
    match command_level_at(s, pos) {
        Err(e) => Err(e),
        Ok((level, after_level)) => match symbol_at(s, after_level) {
            Err(e) => Err(e),
            Ok((symbol, after_symbol)) => fields_at(s, after_symbol, level, symbol),
        },
    }
}

/// A command at `pos`: the marker `|`, then the command itself.
pub open spec fn command_at(s: Seq<u8>, pos: int) -> Result<(CommandView, int), DecodeError> {
    if pos < 0 || pos >= s.len() {
        Err(DecodeError::NeedMoreInput)
    } else if s[pos] != COMMAND_MARK {
        Err(DecodeError::InvalidFraming)
    } else {
        command_inner_at(s, pos + 1)
    }
}

/// Decodes the level and the symbol and hands over to the field decoder
/// that they select.
pub fn command_inner(input: &[u8], pos: usize) -> (r: Result<(Command, usize), DecodeError>)
    ensures
        agrees(r, command_inner_at(input@, pos as int)),
{
    let (level, after_level) = command_level(input, pos)?;
    let (sym, rest) = symbol(input, after_level)?;
    if level != 0 {
        unknown(input, rest)
    } else if sym == SYM_TEXT_WINDOW {
        rip_text_window(input, rest)
    } else if sym == SYM_VIEWPORT {
        rip_viewport(input, rest)
    } else if sym == SYM_RESET_WINDOWS {
        rip_reset_windows(input, rest)
    } else if sym == SYM_ERASE_WINDOW {
        rip_erase_window(input, rest)
    } else if sym == SYM_ERASE_VIEW {
        rip_erase_view(input, rest)
    } else if sym == SYM_GOTOXY {
        rip_gotoxy(input, rest)
    } else if sym == SYM_HOME {
        rip_home(input, rest)
    } else if sym == SYM_ERASE_EOL {
        rip_erase_eol(input, rest)
    } else if sym == SYM_COLOR {
        rip_color(input, rest)
    } else if sym == SYM_SET_PALETTE {
        rip_set_palette(input, rest)
    } else if sym == SYM_ONE_PALETTE {
        rip_one_palette(input, rest)
    } else if sym == SYM_WRITE_MODE {
        rip_write_mode(input, rest)
    } else {
        unknown(input, rest)
    }
}

/// Decodes one command with its marker.
pub fn command(input: &[u8], pos: usize) -> (r: Result<(Command, usize), DecodeError>)
    ensures
        agrees(r, command_at(input@, pos as int)),
{
    if pos >= input.len() {
        return Err(DecodeError::NeedMoreInput);
    }
    if input[pos] != COMMAND_MARK {
        return Err(DecodeError::InvalidFraming);
    }
    command_inner(input, pos + 1)
}

/// One or more commands in a row, starting at `pos`. After each command
/// another one follows if and only if the next character is the command
/// marker; decoding stops where it is not, or where the input ends.
pub open spec fn commands_at(s: Seq<u8>, pos: int) -> Result<(Seq<CommandView>, int), DecodeError>
    decreases s.len() - pos,
{
    match command_at(s, pos) {
        Err(e) => Err(e),
        Ok((c, next)) => if pos < next && next < s.len() && s[next] == COMMAND_MARK {
            prepend(seq![c], commands_at(s, next))
        } else {
            Ok((seq![c], next))
        },
    }
}

/// A whole batch: the marker `!`, then one or more commands. The position
/// in the result is that of the first byte that belongs to no command.
pub open spec fn batch_at(s: Seq<u8>) -> Result<(Seq<CommandView>, int), DecodeError> {
    if s.len() == 0 {
        Err(DecodeError::NeedMoreInput)
    } else if s[0] != BATCH_MARK {
        Err(DecodeError::InvalidFraming)
    } else {
        commands_at(s, 1)
    }
}

/// The models of the commands of a sequence, in order.
pub open spec fn views(cmds: Seq<Command>) -> Seq<CommandView> {
    Seq::new(cmds.len(), |i: int| cmds[i]@)
}

/// A batch result agrees with its model when both fail with the same error
/// or both succeed at the same position with the same commands in order.
pub open spec fn batch_agrees(
    r: Result<(Vec<Command>, usize), DecodeError>,
    m: Result<(Seq<CommandView>, int), DecodeError>,
) -> bool {
    match r {
        Ok((cmds, next)) => m == Ok::<(Seq<CommandView>, int), DecodeError>(
            (views(cmds@), next as int),
        ),
        Err(e) => m == Err::<(Seq<CommandView>, int), DecodeError>(e),
    }
}

/// The level never reads past the end of the input.
pub proof fn lemma_level_digits_bound(s: Seq<u8>, pos: int, limit: nat)
    requires
        0 <= pos <= s.len(),
    ensures
        level_digits(s, pos, limit) <= limit,
        pos + level_digits(s, pos, limit) <= s.len(),
    decreases limit,
{
    if limit == 0 || pos >= s.len() || !(0x30 <= s[pos] <= 0x39) {
    } else {
        lemma_level_digits_bound(s, pos + 1, (limit - 1) as nat);
    }
}

/// A run of hardware colours ends inside the input and has the length that
/// was asked for.
pub proof fn lemma_ega_colors_bound(s: Seq<u8>, pos: int, count: nat)
    requires
        0 <= pos <= s.len(),
    ensures
        ega_colors_at(s, pos, count) is Ok ==> {
            &&& pos <= ega_colors_at(s, pos, count)->Ok_0.1 <= s.len()
            &&& ega_colors_at(s, pos, count)->Ok_0.0.len() == count
        },
    decreases count,
{
    if count > 0 {
        match ega_color_at(s, pos) {
            Err(_) => {},
            Ok((_, next)) => {
                lemma_ega_colors_bound(s, next, (count - 1) as nat);
            },
        }
    }
}

/// A command that decodes spans at least its marker and its symbol and ends
/// inside the input.
pub proof fn lemma_command_advances(s: Seq<u8>, pos: int)
    ensures
        command_at(s, pos) is Ok ==> pos + 2 <= command_at(s, pos)->Ok_0.1 <= s.len(),
{
    if command_at(s, pos) is Ok {
        lemma_level_digits_bound(s, pos + 1, MAX_LEVEL_DIGITS as nat);
        let after_level = command_level_at(s, pos + 1)->Ok_0.1;
        lemma_ega_colors_bound(s, after_level + 1, 16);
    }
}

/// A run of commands that decodes holds at least one command and ends
/// inside the input.
pub proof fn lemma_commands_bound(s: Seq<u8>, pos: int)
    ensures
        commands_at(s, pos) is Ok ==> {
            &&& pos + 2 <= commands_at(s, pos)->Ok_0.1 <= s.len()
            &&& commands_at(s, pos)->Ok_0.0.len() >= 1
        },
    decreases s.len() - pos,
{
    lemma_command_advances(s, pos);
    match command_at(s, pos) {
        Err(_) => {},
        Ok((c, next)) => {
            if pos < next && next < s.len() && s[next] == COMMAND_MARK {
                lemma_commands_bound(s, next);
            }
        },
    }
}

/// How a run of commands unfolds after its first command, with `front`
/// standing for the commands decoded before it.
pub proof fn lemma_commands_step(s: Seq<u8>, pos: int, front: Seq<CommandView>)
    ensures
        match command_at(s, pos) {
            Err(e) => prepend(front, commands_at(s, pos)) == Err::<(Seq<CommandView>, int), _>(e),
            Ok((c, next)) => {
                &&& pos + 2 <= next <= s.len()
                &&& prepend(front, commands_at(s, pos)) == if next < s.len() && s[next]
                    == COMMAND_MARK {
                    prepend(front + seq![c], commands_at(s, next))
                } else {
                    Ok((front + seq![c], next))
                }
            },
        },
{
    lemma_command_advances(s, pos);
    match command_at(s, pos) {
        Err(_) => {},
        Ok((c, next)) => {
            if next < s.len() && s[next] == COMMAND_MARK {
                lemma_prepend_twice(front, seq![c], commands_at(s, next));
            }
        },
    }
}

/// Decodes a batch from bytes: the marker `!`, then commands for as long as
/// each is followed by the command marker.
pub fn batch(input: &[u8]) -> (r: Result<(Vec<Command>, usize), DecodeError>)
    ensures
        batch_agrees(r, batch_at(input@)),
{
    if input.len() == 0 {
        return Err(DecodeError::NeedMoreInput);
    }
    if input[0] != BATCH_MARK {
        return Err(DecodeError::InvalidFraming);
    }
    let mut cmds: Vec<Command> = Vec::new();
    let mut start: usize = 1;
    loop
        invariant
            1 <= start <= input.len(),
            input@[0] == BATCH_MARK,
            commands_at(input@, 1) == prepend(views(cmds@), commands_at(input@, start as int)),
        decreases input.len() - start,
    {
        let ghost before = views(cmds@);
        proof {
            lemma_commands_step(input@, start as int, before);
        }
        match command(input, start) {
            Err(e) => {
                return Err(e);
            },
            Ok((c, next)) => {
                let ghost model = c@;
                cmds.push(c);
                proof {
                    assert(views(cmds@) =~= before + seq![model]);
                }
                if next < input.len() && input[next] == COMMAND_MARK {
                    start = next;
                } else {
                    return Ok((cmds, next));
                }
            },
        }
    }
}

/// The offset of the marker of the first command, from `pos` onwards, that
/// does not decode.
pub open spec fn failing_command_at(s: Seq<u8>, pos: int) -> int
    decreases s.len() - pos,
{
    match command_at(s, pos) {
        Err(_) => pos,
        Ok((_, next)) => if pos < next && next < s.len() && s[next] == COMMAND_MARK {
            failing_command_at(s, next)
        } else {
            pos
        },
    }
}

/// The dispatch symbol of the command whose marker stands at `pos`, where
/// its level and symbol can be read.
pub open spec fn symbol_of_command_at(s: Seq<u8>, pos: int) -> Option<u8> {
    if pos < 0 || pos >= s.len() || s[pos] != COMMAND_MARK {
        None
    } else {
        match command_level_at(s, pos + 1) {
            Err(_) => None,
            Ok((_, after_level)) => match symbol_at(s, after_level) {
                Err(_) => None,
                Ok((sym, _)) => Some(sym),
            },
        }
    }
}

/// Where and why a batch does not decode, if it does not.
pub open spec fn failure_of(s: Seq<u8>) -> Option<Failure> {
    match batch_at(s) {
        Ok(_) => None,
        Err(kind) => if s.len() == 0 || s[0] != BATCH_MARK {
            Some(Failure { kind, offset: 0, symbol: None })
        } else {
            Some(
                Failure {
                    kind,
                    offset: failing_command_at(s, 1) as usize,
                    symbol: symbol_of_command_at(s, failing_command_at(s, 1)),
                },
            )
        },
    }
}

/// Reads the dispatch symbol of the command whose marker stands at `pos`.
fn peek_symbol(input: &[u8], pos: usize) -> (r: Option<u8>)
    ensures
        r == symbol_of_command_at(input@, pos as int),
{
    if pos >= input.len() || input[pos] != COMMAND_MARK {
        return None;
    }
    match command_level(input, pos + 1) {
        Err(_) => None,
        Ok((_, after_level)) => match symbol(input, after_level) {
            Err(_) => None,
            Ok((sym, _)) => Some(sym),
        },
    }
}

/// Tells where and why a batch does not decode: the error, the offset of
/// the command it arose in and, where known, that command's symbol. Gives
/// nothing for a batch that decodes.
pub fn diagnose(input: &[u8]) -> (r: Option<Failure>)
    ensures
        r == failure_of(input@),
{
    if input.len() == 0 {
        return Some(Failure { kind: DecodeError::NeedMoreInput, offset: 0, symbol: None });
    }
    if input[0] != BATCH_MARK {
        return Some(Failure { kind: DecodeError::InvalidFraming, offset: 0, symbol: None });
    }
    let mut start: usize = 1;
    loop
        invariant
            1 <= start <= input.len(),
            input@[0] == BATCH_MARK,
            commands_at(input@, 1) is Ok <==> commands_at(input@, start as int) is Ok,
            commands_at(input@, start as int) is Err ==> commands_at(input@, 1)->Err_0
                == commands_at(input@, start as int)->Err_0,
            failing_command_at(input@, 1) == failing_command_at(input@, start as int),
        decreases input.len() - start,
    {
        proof {
            lemma_commands_step(input@, start as int, Seq::empty());
        }
        match command(input, start) {
            Err(kind) => {
                return Some(Failure { kind, offset: start, symbol: peek_symbol(input, start) });
            },
            Ok((_, next)) => {
                if next < input.len() && input[next] == COMMAND_MARK {
                    start = next;
                } else {
                    return None;
                }
            },
        }
    }
}

/// Decodes a batch from text. The number in the result counts the bytes of
/// `input` that the commands span.
pub fn ripscrip(input: &str) -> (r: Result<(Vec<Command>, usize), DecodeError>)
    ensures
        batch_agrees(r, batch_at(input.spec_bytes())),
{
    batch(input.as_bytes())
}

/// Reads a whole text as one boolean digit.
pub fn from_bool(input: &str) -> (r: Result<bool, DecodeError>)
    ensures
        r is Ok <==> input.spec_bytes().len() == 1 && bool_digit(input.spec_bytes()[0]),
        r is Ok ==> r->Ok_0 == (input.spec_bytes()[0] == 0x31),
        r is Err ==> r->Err_0 == DecodeError::InvalidBoolean,
{
    let bytes = input.as_bytes();
    if bytes.len() != 1 || !is_bool_digit(bytes[0]) {
        return Err(DecodeError::InvalidBoolean);
    }
    Ok(bytes[0] == 0x31)
}

/// Reads a whole text as one two-digit base-36 numeral.
pub fn from_meganum(input: &str) -> (r: Result<u32, DecodeError>)
    ensures
        r is Ok <==> input.spec_bytes().len() == 2 && meganum_digit(input.spec_bytes()[0])
            && meganum_digit(input.spec_bytes()[1]),
        r is Ok ==> r->Ok_0 as nat == meganum_value(input.spec_bytes()[0], input.spec_bytes()[1]),
        r is Err ==> r->Err_0 == DecodeError::InvalidNumeral,
{
    let bytes = input.as_bytes();
    if bytes.len() != 2 || !is_meganum_digit(bytes[0]) || !is_meganum_digit(bytes[1]) {
        return Err(DecodeError::InvalidNumeral);
    }
    Ok(digit(bytes[0]) * 36 + digit(bytes[1]))
}

/// A command whose level and symbol select no field decoder becomes the
/// unknown command and takes everything up to the end of the input with
/// it, whatever follows: it is the last command of its batch.
pub proof fn lemma_unknown_takes_the_rest(s: Seq<u8>, pos: int)
    requires
        0 <= pos < s.len(),
        s[pos] == COMMAND_MARK,
        command_level_at(s, pos + 1) is Ok,
        symbol_at(s, command_level_at(s, pos + 1)->Ok_0.1) is Ok,
        !wired(
            command_level_at(s, pos + 1)->Ok_0.0,
            symbol_at(s, command_level_at(s, pos + 1)->Ok_0.1)->Ok_0.0,
        ),
    ensures
        command_at(s, pos) == Ok::<_, DecodeError>((CommandView::Unknown, s.len() as int)),
        commands_at(s, pos) == Ok::<_, DecodeError>((seq![CommandView::Unknown], s.len() as int)),
        pos == 1 && s[0] == BATCH_MARK ==> batch_at(s) == Ok::<_, DecodeError>(
            (seq![CommandView::Unknown], s.len() as int),
        ),
{
}

/// Two base-36 digits never make more than 1295.
pub proof fn lemma_meganum_range(d0: u8, d1: u8)
    requires
        meganum_digit(d0),
        meganum_digit(d1),
    ensures
        meganum_value(d0, d1) <= 1295,
{
}

} // verus!
