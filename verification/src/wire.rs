//! The wire form of the commands that have one, and the proof that
//! decoding it gives the command back.

use vstd::prelude::*;
use crate::command::{palette_view, Command, CommandView};
use crate::error::DecodeError;
use crate::parser::{
    batch_at, command_at, command_level_at, commands_at, corners_at, ega_colors_at,
    level_digits, meganum_at, point_at, symbol_at, views, BATCH_MARK, COMMAND_MARK, SYM_COLOR,
    SYM_ERASE_EOL, SYM_ERASE_VIEW, SYM_ERASE_WINDOW, SYM_GOTOXY, SYM_HOME, SYM_ONE_PALETTE,
    SYM_RESET_WINDOWS, SYM_SET_PALETTE, SYM_TEXT_WINDOW, SYM_VIEWPORT, SYM_WRITE_MODE,
};
use crate::structs::{FontSize, WriteMode, XY};

verus! {

/// Largest number that two base-36 digits can write.
pub const MEGANUM_MAX: u32 = 1295;

/// The character that writes a digit of base 36: `0` to `9`, then the
/// capital letters.
pub open spec fn digit_char(d: nat) -> u8
    recommends
        d < 36,
{
    if d < 10 {
        (0x30 + d) as u8
    } else {
        (0x41 + d - 10) as u8
    }
}

/// A number up to 1295 as two base-36 digits.
pub open spec fn meganum_text(v: nat) -> Seq<u8> {
    seq![digit_char(v / 36), digit_char(v % 36)]
}

/// A boolean as the character `1` or `0`.
pub open spec fn bool_text(b: bool) -> Seq<u8> {
    seq![if b { 0x31u8 } else { 0x30u8 }]
}

/// The number that selects a cell size.
pub open spec fn font_size_number(size: FontSize) -> nat {
    match size {
        FontSize::Size8x8 => 0,
        FontSize::Size7x8 => 1,
        FontSize::Size8x14 => 2,
        FontSize::Size7x14 => 3,
        FontSize::Size16x14 => 4,
    }
}

/// The number that selects a write mode.
pub open spec fn write_mode_number(mode: WriteMode) -> nat {
    match mode {
        WriteMode::Normal => 0,
        WriteMode::Xor => 1,
    }
}

/// A coordinate pair as two numerals.
pub open spec fn point_text(p: XY) -> Seq<u8> {
    meganum_text(p.x as nat) + meganum_text(p.y as nat)
}

/// Two coordinate pairs as four numerals.
pub open spec fn corners_text(c: (XY, XY)) -> Seq<u8> {
    point_text(c.0) + point_text(c.1)
}

/// A list of colours as one numeral each.
pub open spec fn colors_text(c: Seq<nat>) -> Seq<u8>
    decreases c.len(),
{
    if c.len() == 0 {
        Seq::empty()
    } else {
        meganum_text(c.first()) + colors_text(c.drop_first())
    }
}

/// Whether both coordinates of a pair can be written as a numeral.
pub open spec fn point_fits(p: XY) -> bool {
    p.x <= MEGANUM_MAX && p.y <= MEGANUM_MAX
}

/// The commands that have a wire form, with fields that fit it.
pub open spec fn encodable(cmd: CommandView) -> bool {
    match cmd {
        CommandView::TextWindow { corners, .. } => point_fits(corners.0) && point_fits(corners.1),
        CommandView::Viewport { corners } => point_fits(corners.0) && point_fits(corners.1),
        CommandView::ResetWindows => true,
        CommandView::EraseWindow => true,
        CommandView::EraseView => true,
        CommandView::Gotoxy(p) => point_fits(p),
        CommandView::Home => true,
        CommandView::EraseEol => true,
        CommandView::Color { color } => color < 16,
        CommandView::SetPalette { c } => c.len() == 16 && forall|i: int|
            0 <= i < 16 ==> #[trigger] c[i] < 64,
        CommandView::OnePalette { color, value } => color < 16 && value < 64,
        CommandView::WriteMode { .. } => true,
        _ => false,
    }
}

/// The dispatch symbol of a command that has a wire form.
pub open spec fn symbol_of(cmd: CommandView) -> u8 {
    match cmd {
        CommandView::TextWindow { .. } => SYM_TEXT_WINDOW,
        CommandView::Viewport { .. } => SYM_VIEWPORT,
        CommandView::ResetWindows => SYM_RESET_WINDOWS,
        CommandView::EraseWindow => SYM_ERASE_WINDOW,
        CommandView::EraseView => SYM_ERASE_VIEW,
        CommandView::Gotoxy(_) => SYM_GOTOXY,
        CommandView::Home => SYM_HOME,
        CommandView::EraseEol => SYM_ERASE_EOL,
        CommandView::Color { .. } => SYM_COLOR,
        CommandView::SetPalette { .. } => SYM_SET_PALETTE,
        CommandView::OnePalette { .. } => SYM_ONE_PALETTE,
        _ => SYM_WRITE_MODE,
    }
}

/// The fields of a command in wire form, in the order they are decoded.
pub open spec fn fields_text(cmd: CommandView) -> Seq<u8> {
    match cmd {
        CommandView::TextWindow { corners, wrap, size } => corners_text(corners) + bool_text(wrap)
            + seq![digit_char(font_size_number(size))],
        CommandView::Viewport { corners } => corners_text(corners),
        CommandView::Gotoxy(p) => point_text(p),
        CommandView::Color { color } => meganum_text(color),
        CommandView::SetPalette { c } => colors_text(c),
        CommandView::OnePalette { color, value } => meganum_text(color) + meganum_text(value),
        CommandView::WriteMode { mode } => meganum_text(write_mode_number(mode)),
        _ => Seq::empty(),
    }
}

/// A command in wire form: the command marker, the symbol at the base
/// level, then the fields.
pub open spec fn encoding(cmd: CommandView) -> Seq<u8> {
    seq![COMMAND_MARK, symbol_of(cmd)] + fields_text(cmd)
}

/// Whether `text` stands in `s` from `pos` onwards.
pub open spec fn holds(s: Seq<u8>, pos: int, text: Seq<u8>) -> bool {
    &&& 0 <= pos
    &&& pos + text.len() <= s.len()
    &&& forall|i: int| 0 <= i < text.len() ==> s[pos + i] == #[trigger] text[i]
}

/// Where a concatenation stands, its parts stand one after the other.
pub proof fn lemma_holds_split(s: Seq<u8>, pos: int, a: Seq<u8>, b: Seq<u8>)
    requires
        holds(s, pos, a + b),
    ensures
        holds(s, pos, a),
        holds(s, pos + a.len(), b),
{
    assert forall|i: int| 0 <= i < a.len() implies s[pos + i] == #[trigger] a[i] by {
        assert((a + b)[i] == a[i]);
    }
    assert forall|i: int| 0 <= i < b.len() implies s[pos + a.len() + i] == #[trigger] b[i] by {
        assert((a + b)[a.len() + i] == b[i]);
    }
}

/// A numeral in wire form decodes to its number.
pub proof fn lemma_meganum_round_trip(s: Seq<u8>, pos: int, v: nat)
    requires
        v <= MEGANUM_MAX,
        holds(s, pos, meganum_text(v)),
    ensures
        meganum_at(s, pos) == Ok::<_, DecodeError>((v as u32, pos + 2)),
{
    let text = meganum_text(v);
    assert(s[pos + 0] == text[0]);
    assert(s[pos + 1] == text[1]);
    assert(v / 36 < 36 && v % 36 < 36 && (v / 36) * 36 + v % 36 == v) by (nonlinear_arith)
        requires
            v <= 1295,
    ;
}

/// A coordinate pair in wire form decodes to itself.
pub proof fn lemma_point_round_trip(s: Seq<u8>, pos: int, p: XY)
    requires
        point_fits(p),
        holds(s, pos, point_text(p)),
    ensures
        point_at(s, pos) == Ok::<_, DecodeError>((p, pos + 4)),
{
    lemma_holds_split(s, pos, meganum_text(p.x as nat), meganum_text(p.y as nat));
    lemma_meganum_round_trip(s, pos, p.x as nat);
    lemma_meganum_round_trip(s, pos + 2, p.y as nat);
}

/// Two coordinate pairs in wire form decode to themselves.
pub proof fn lemma_corners_round_trip(s: Seq<u8>, pos: int, c: (XY, XY))
    requires
        point_fits(c.0),
        point_fits(c.1),
        holds(s, pos, corners_text(c)),
    ensures
        corners_at(s, pos) == Ok::<_, DecodeError>((c, pos + 8)),
{
    lemma_holds_split(s, pos, point_text(c.0), point_text(c.1));
    lemma_point_round_trip(s, pos, c.0);
    lemma_point_round_trip(s, pos + 4, c.1);
}

/// A list of colours in wire form decodes to itself.
pub proof fn lemma_colors_round_trip(s: Seq<u8>, pos: int, c: Seq<nat>)
    requires
        forall|i: int| 0 <= i < c.len() ==> #[trigger] c[i] < 64,
        holds(s, pos, colors_text(c)),
    ensures
        colors_text(c).len() == 2 * c.len(),
        ega_colors_at(s, pos, c.len()) == Ok::<_, DecodeError>((c, pos + 2 * c.len())),
    decreases c.len(),
{
    if c.len() == 0 {
        assert(c =~= Seq::<nat>::empty());
    } else {
        let rest = c.drop_first();
        assert(c.first() == c[0]);
        assert forall|i: int| 0 <= i < rest.len() implies #[trigger] rest[i] < 64 by {
            assert(rest[i] == c[i + 1]);
        }
        lemma_holds_split(s, pos, meganum_text(c.first()), colors_text(rest));
        lemma_meganum_round_trip(s, pos, c.first());
        lemma_colors_round_trip(s, pos + 2, rest);
        assert(seq![c.first()] + rest =~= c);
    }
}

/// Decoding the wire form of a command gives the command back, wherever
/// the wire form stands and whatever surrounds it.
pub proof fn lemma_round_trip(s: Seq<u8>, pos: int, cmd: CommandView)
    requires
        encodable(cmd),
        holds(s, pos, encoding(cmd)),
    ensures
        command_at(s, pos) == Ok::<_, DecodeError>((cmd, pos + encoding(cmd).len())),
{
    let head = seq![COMMAND_MARK, symbol_of(cmd)];
    let fields = fields_text(cmd);
    lemma_holds_split(s, pos, head, fields);
    assert(s[pos + 0] == head[0]);
    assert(s[pos + 1] == head[1]);
    assert(level_digits(s, pos + 1, 9) == 0);
    assert(command_level_at(s, pos + 1) == Ok::<_, DecodeError>((0usize, pos + 1)));
    assert(symbol_at(s, pos + 1) == Ok::<_, DecodeError>((symbol_of(cmd), pos + 2)));
    let at = pos + 2;
    match cmd {
        CommandView::TextWindow { corners, wrap, size } => {
            let tail = seq![digit_char(font_size_number(size))];
            lemma_holds_split(s, at, corners_text(corners) + bool_text(wrap), tail);
            lemma_holds_split(s, at, corners_text(corners), bool_text(wrap));
            lemma_corners_round_trip(s, at, corners);
            assert(s[at + 8 + 0] == bool_text(wrap)[0]);
            assert(s[at + 9 + 0] == tail[0]);
        },
        CommandView::Viewport { corners } => {
            lemma_corners_round_trip(s, at, corners);
        },
        CommandView::Gotoxy(p) => {
            lemma_point_round_trip(s, at, p);
        },
        CommandView::Color { color } => {
            lemma_meganum_round_trip(s, at, color);
        },
        CommandView::SetPalette { c } => {
            lemma_colors_round_trip(s, at, c);
        },
        CommandView::OnePalette { color, value } => {
            lemma_holds_split(s, at, meganum_text(color), meganum_text(value));
            lemma_meganum_round_trip(s, at, color);
            lemma_meganum_round_trip(s, at + 2, value);
        },
        CommandView::WriteMode { mode } => {
            lemma_meganum_round_trip(s, at, write_mode_number(mode));
        },
        _ => {},
    }
}

/// The wire forms of a run of commands, one after the other.
pub open spec fn run_text(cmds: Seq<CommandView>) -> Seq<u8>
    decreases cmds.len(),
{
    if cmds.len() == 0 {
        Seq::empty()
    } else {
        encoding(cmds.first()) + run_text(cmds.drop_first())
    }
}

/// A batch in wire form: the batch marker, then the commands.
pub open spec fn batch_text(cmds: Seq<CommandView>) -> Seq<u8> {
    seq![BATCH_MARK] + run_text(cmds)
}

/// Whether every command of a run has a wire form.
pub open spec fn all_encodable(cmds: Seq<CommandView>) -> bool {
    forall|i: int| 0 <= i < cmds.len() ==> encodable(#[trigger] cmds[i])
}

/// A run of commands in wire form that ends where the input ends decodes
/// to the same commands in the same order.
pub proof fn lemma_run_round_trip(s: Seq<u8>, pos: int, cmds: Seq<CommandView>)
    requires
        cmds.len() >= 1,
        all_encodable(cmds),
        holds(s, pos, run_text(cmds)),
        pos + run_text(cmds).len() == s.len(),
    ensures
        commands_at(s, pos) == Ok::<_, DecodeError>((cmds, s.len() as int)),
    decreases cmds.len(),
{
    let first = cmds.first();
    let rest = cmds.drop_first();
    assert(first == cmds[0]);
    lemma_holds_split(s, pos, encoding(first), run_text(rest));
    lemma_round_trip(s, pos, first);
    let next = pos + encoding(first).len();
    if rest.len() == 0 {
        assert(cmds =~= seq![first]);
    } else {
        assert forall|i: int| 0 <= i < rest.len() implies encodable(#[trigger] rest[i]) by {
            assert(rest[i] == cmds[i + 1]);
        }
        assert(run_text(rest)[0] == COMMAND_MARK) by {
            assert(encoding(rest.first())[0] == COMMAND_MARK);
        }
        assert(s[next + 0] == run_text(rest)[0]);
        lemma_run_round_trip(s, next, rest);
        assert(seq![first] + rest =~= cmds);
    }
}

/// Round trip: the wire form of a batch of one or more commands decodes
/// to those commands, and the decoder reads all of it.
pub proof fn lemma_batch_round_trip(cmds: Seq<CommandView>)
    requires
        cmds.len() >= 1,
        all_encodable(cmds),
    ensures
        batch_at(batch_text(cmds)) == Ok::<_, DecodeError>(
            (cmds, batch_text(cmds).len() as int),
        ),
{
    let s = batch_text(cmds);
    assert(s[0] == BATCH_MARK);
    assert forall|i: int| 0 <= i < run_text(cmds).len() implies s[1 + i] == #[trigger] run_text(
        cmds,
    )[i] by {}
    lemma_run_round_trip(s, 1, cmds);
}

/// The wire form of a list of colours grows at its end as the list does.
pub proof fn lemma_colors_text_push(c: Seq<nat>, last: nat)
    ensures
        colors_text(c.push(last)) == colors_text(c) + meganum_text(last),
    decreases c.len(),
{
    let all = c.push(last);
    if c.len() == 0 {
        assert(all.drop_first() =~= Seq::<nat>::empty());
        assert(all.first() == last);
        assert(colors_text(c) =~= Seq::<u8>::empty());
        assert(colors_text(all.drop_first()) =~= Seq::<u8>::empty());
        assert(colors_text(all) =~= meganum_text(last));
        assert(colors_text(c) + meganum_text(last) =~= meganum_text(last));
    } else {
        assert(all.first() == c.first());
        assert(all.drop_first() =~= c.drop_first().push(last));
        lemma_colors_text_push(c.drop_first(), last);
        assert(colors_text(all) =~= colors_text(c) + meganum_text(last));
    }
}

/// The wire form of a run grows at its end as the run does.
pub proof fn lemma_run_text_push(cmds: Seq<CommandView>, last: CommandView)
    ensures
        run_text(cmds.push(last)) == run_text(cmds) + encoding(last),
    decreases cmds.len(),
{
    let all = cmds.push(last);
    if cmds.len() == 0 {
        assert(all.drop_first() =~= Seq::<CommandView>::empty());
        assert(all.first() == last);
        assert(run_text(cmds) =~= Seq::<u8>::empty());
        assert(run_text(all.drop_first()) =~= Seq::<u8>::empty());
        assert(run_text(all) =~= encoding(last));
        assert(run_text(cmds) + encoding(last) =~= encoding(last));
    } else {
        assert(all.first() == cmds.first());
        assert(all.drop_first() =~= cmds.drop_first().push(last));
        lemma_run_text_push(cmds.drop_first(), last);
        assert(run_text(all) =~= run_text(cmds) + encoding(last));
    }
}

/// The character of one base-36 digit.
fn digit_byte(d: u32) -> (c: u8)
    requires
        d < 36,
    ensures
        c == digit_char(d as nat),
{
    if d < 10 {
        0x30 + d as u8
    } else {
        0x41 + (d - 10) as u8
    }
}

/// Writes a numeral after what `out` holds.
fn push_meganum(out: &mut Vec<u8>, v: u32)
    requires
        v <= MEGANUM_MAX,
    ensures
        final(out)@ == old(out)@ + meganum_text(v as nat),
{
    out.push(digit_byte(v / 36));
    out.push(digit_byte(v % 36));
    proof {
        assert(out@ =~= old(out)@ + meganum_text(v as nat));
    }
}

/// Writes a coordinate pair after what `out` holds.
fn push_point(out: &mut Vec<u8>, p: XY)
    requires
        point_fits(p),
    ensures
        final(out)@ == old(out)@ + point_text(p),
{
    push_meganum(out, p.x);
    push_meganum(out, p.y);
    proof {
        assert(out@ =~= old(out)@ + point_text(p));
    }
}

/// Writes two coordinate pairs after what `out` holds.
fn push_corners(out: &mut Vec<u8>, c: (XY, XY))
    requires
        point_fits(c.0),
        point_fits(c.1),
    ensures
        final(out)@ == old(out)@ + corners_text(c),
{
    push_point(out, c.0);
    push_point(out, c.1);
    proof {
        assert(out@ =~= old(out)@ + corners_text(c));
    }
}

/// Tells whether both coordinates of a pair can be written as a numeral.
fn fits(p: XY) -> (r: bool)
    ensures
        r == point_fits(p),
{
    p.x <= MEGANUM_MAX && p.y <= MEGANUM_MAX
}

/// The wire form of a command, for the commands that have one and whose
/// coordinates can be written as numerals.
pub fn encode(cmd: &Command) -> (r: Option<Vec<u8>>)
    ensures
        match r {
            Some(bytes) => encodable(cmd@) && bytes@ == encoding(cmd@),
            None => !encodable(cmd@),
        },
{
    let mut out: Vec<u8> = Vec::new();
    out.push(COMMAND_MARK);
    match cmd {
        Command::TextWindow { corners, wrap, size } => {
            if !fits(corners.0) || !fits(corners.1) {
                return None;
            }
            out.push(SYM_TEXT_WINDOW);
            push_corners(&mut out, *corners);
            out.push(if *wrap { 0x31 } else { 0x30 });
            let number: u32 = match size {
                FontSize::Size8x8 => 0,
                FontSize::Size7x8 => 1,
                FontSize::Size8x14 => 2,
                FontSize::Size7x14 => 3,
                FontSize::Size16x14 => 4,
            };
            out.push(digit_byte(number));
        },
        Command::Viewport { corners } => {
            if !fits(corners.0) || !fits(corners.1) {
                return None;
            }
            out.push(SYM_VIEWPORT);
            push_corners(&mut out, *corners);
        },
        Command::ResetWindows => {
            out.push(SYM_RESET_WINDOWS);
        },
        Command::EraseWindow => {
            out.push(SYM_ERASE_WINDOW);
        },
        Command::EraseView => {
            out.push(SYM_ERASE_VIEW);
        },
        Command::Gotoxy(p) => {
            if !fits(*p) {
                return None;
            }
            out.push(SYM_GOTOXY);
            push_point(&mut out, *p);
        },
        Command::Home => {
            out.push(SYM_HOME);
        },
        Command::EraseEol => {
            out.push(SYM_ERASE_EOL);
        },
        Command::Color { color } => {
            out.push(SYM_COLOR);
            push_meganum(&mut out, color.value() as u32);
        },
        Command::SetPalette { c } => {
            out.push(SYM_SET_PALETTE);
            let ghost head = out@;
            let ghost model = palette_view(c@);
            proof {
                assert(model.take(0) =~= Seq::<nat>::empty());
                assert(out@ =~= head + colors_text(model.take(0)));
            }
            let mut i: usize = 0;
            while i < 16
                invariant
                    i <= 16,
                    model == palette_view(c@),
                    out@ == head + colors_text(model.take(i as int)),
                decreases 16 - i,
            {
                let ghost before = out@;
                push_meganum(&mut out, c[i].value() as u32);
                proof {
                    lemma_colors_text_push(model.take(i as int), model[i as int]);
                    assert(model.take(i + 1) =~= model.take(i as int).push(model[i as int]));
                    assert(out@ =~= head + colors_text(model.take(i + 1)));
                }
                i = i + 1;
            }
            proof {
                assert(model.take(16) =~= model);
                assert forall|j: int| 0 <= j < 16 implies #[trigger] model[j] < 64 by {
                    c@[j].lemma_in_range();
                }
            }
        },
        Command::OnePalette { color, value } => {
            out.push(SYM_ONE_PALETTE);
            push_meganum(&mut out, color.value() as u32);
            push_meganum(&mut out, value.value() as u32);
        },
        Command::WriteMode { mode } => {
            out.push(SYM_WRITE_MODE);
            let number: u32 = match mode {
                WriteMode::Normal => 0,
                WriteMode::Xor => 1,
            };
            push_meganum(&mut out, number);
        },
        _ => {
            return None;
        },
    }
    proof {
        assert(out@ =~= encoding(cmd@));
    }
    Some(out)
}

/// The wire form of a batch of one or more commands, where each command
/// has one. Decoding it gives the commands back.
pub fn encode_batch(cmds: &[Command]) -> (r: Option<Vec<u8>>)
    ensures
        match r {
            Some(bytes) => {
                &&& cmds@.len() >= 1
                &&& all_encodable(views(cmds@))
                &&& bytes@ == batch_text(views(cmds@))
                &&& batch_at(bytes@) == Ok::<_, DecodeError>(
                    (views(cmds@), bytes@.len() as int),
                )
            },
            None => cmds@.len() == 0 || !all_encodable(views(cmds@)),
        },
{
    if cmds.len() == 0 {
        return None;
    }
    let ghost all = views(cmds@);
    let mut out: Vec<u8> = Vec::new();
    out.push(BATCH_MARK);
    proof {
        assert(all.take(0) =~= Seq::<CommandView>::empty());
        assert(out@ =~= seq![BATCH_MARK] + run_text(all.take(0)));
    }
    let mut i: usize = 0;
    while i < cmds.len()
        invariant
            i <= cmds.len(),
            all == views(cmds@),
            forall|j: int| 0 <= j < i ==> encodable(#[trigger] all[j]),
            out@ == seq![BATCH_MARK] + run_text(all.take(i as int)),
        decreases cmds.len() - i,
    {
        match encode(&cmds[i]) {
            None => {
                proof {
                    assert(!encodable(all[i as int]));
                }
                return None;
            },
            Some(mut bytes) => {
                proof {
                    lemma_run_text_push(all.take(i as int), all[i as int]);
                    assert(all.take(i + 1) =~= all.take(i as int).push(all[i as int]));
                }
                let ghost before = out@;
                let ghost added = bytes@;
                out.append(&mut bytes);
                proof {
                    assert(out@ =~= seq![BATCH_MARK] + run_text(all.take(i + 1)));
                }
            },
        }
        i = i + 1;
    }
    proof {
        assert(all.take(cmds@.len() as int) =~= all);
        lemma_batch_round_trip(all);
    }
    Some(out)
}

} // verus!
