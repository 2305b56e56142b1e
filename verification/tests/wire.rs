use riprs::command::Command;
use riprs::parser::{batch, command};
use riprs::structs::{EGAColor, FontSize, PaletteColor, WriteMode, XY};
use riprs::wire::{encode, encode_batch};

fn pc(v: u8) -> PaletteColor {
    PaletteColor::try_from(v).unwrap()
}

fn ega(v: u8) -> EGAColor {
    EGAColor::try_from(v).unwrap()
}

fn xy(x: u32, y: u32) -> XY {
    XY { x, y }
}

fn default_palette() -> [EGAColor; 16] {
    let values = [0u8, 1, 2, 3, 4, 5, 20, 7, 56, 57, 58, 59, 60, 61, 62, 63];
    let mut c = [ega(0); 16];
    for i in 0..16 {
        c[i] = ega(values[i]);
    }
    c
}

fn wired_commands() -> Vec<(Command, &'static str)> {
    vec![
        (
            Command::TextWindow {
                corners: (xy(0, 0), xy(79, 42)),
                wrap: true,
                size: FontSize::Size8x8,
            },
            "|w0000271610",
        ),
        (
            Command::TextWindow {
                corners: (xy(1295, 0), xy(0, 1295)),
                wrap: false,
                size: FontSize::Size16x14,
            },
            "|wZZ0000ZZ04",
        ),
        (Command::Viewport { corners: (xy(0, 0), xy(35, 35)) }, "|v00000Z0Z"),
        (Command::ResetWindows, "|*"),
        (Command::EraseWindow, "|e"),
        (Command::EraseView, "|E"),
        (Command::Gotoxy(xy(36, 349)), "|g109P"),
        (Command::Home, "|H"),
        (Command::EraseEol, "|>"),
        (Command::Color { color: pc(3) }, "|c03"),
        (Command::Color { color: pc(15) }, "|c0F"),
        (Command::SetPalette { c: default_palette() }, "|Q0001020304050K071K1L1M1N1O1P1Q1R"),
        (Command::OnePalette { color: pc(10), value: ega(63) }, "|a0A1R"),
        (Command::WriteMode { mode: WriteMode::Normal }, "|W00"),
        (Command::WriteMode { mode: WriteMode::Xor }, "|W01"),
    ]
}

#[test]
fn wire_form_of_each_command() {
    for (cmd, text) in wired_commands() {
        assert_eq!(encode(&cmd), Some(text.as_bytes().to_vec()), "{:?}", cmd);
    }
}

#[test]
fn each_command_comes_back_from_its_wire_form() {
    for (cmd, text) in wired_commands() {
        let bytes = encode(&cmd).unwrap();
        assert_eq!(command(&bytes, 0), Ok((cmd, text.len())));
    }
}

#[test]
fn a_command_comes_back_whatever_surrounds_it() {
    for (cmd, _) in wired_commands() {
        let wire = encode(&cmd).unwrap();
        let mut bytes = b"junk".to_vec();
        bytes.extend_from_slice(&wire);
        bytes.extend_from_slice(b"0Z|more");
        assert_eq!(command(&bytes, 4), Ok((cmd, 4 + wire.len())));
    }
}

#[test]
fn a_batch_comes_back_from_its_wire_form() {
    let cmds: Vec<Command> = wired_commands().into_iter().map(|(c, _)| c).collect();
    let bytes = encode_batch(&cmds).unwrap();
    assert_eq!(bytes[0], b'!');
    let used = bytes.len();
    assert_eq!(batch(&bytes), Ok((cmds, used)));
}

#[test]
fn viewport_round_trip_recovers_the_corners() {
    let cmd = Command::Viewport { corners: (xy(0, 0), xy(35, 35)) };
    let bytes = encode_batch(&[cmd]).unwrap();
    assert_eq!(bytes, b"!|v00000Z0Z".to_vec());
    let (cmds, used) = batch(&bytes).unwrap();
    assert_eq!(used, 11);
    assert_eq!(cmds, vec![Command::Viewport { corners: (xy(0, 0), xy(35, 35)) }]);
}

#[test]
fn every_numeral_round_trips() {
    for v in 0..=1295u32 {
        let cmd = Command::Gotoxy(xy(v, 1295 - v));
        let bytes = encode(&cmd).unwrap();
        assert_eq!(bytes.len(), 6);
        assert_eq!(command(&bytes, 0), Ok((cmd, 6)));
    }
}

#[test]
fn every_colour_round_trips() {
    for p in 0..16u8 {
        for e in 0..64u8 {
            let cmd = Command::OnePalette { color: pc(p), value: ega(e) };
            let bytes = encode(&cmd).unwrap();
            assert_eq!(command(&bytes, 0), Ok((cmd, 6)));
        }
    }
}

#[test]
fn what_has_no_wire_form_is_not_encoded() {
    assert_eq!(encode(&Command::Unknown), None);
    assert_eq!(encode(&Command::NoMore), None);
    assert_eq!(encode(&Command::Pixel { position: xy(1, 1) }), None);
    assert_eq!(encode(&Command::Move(xy(1, 1))), None);
    assert_eq!(encode(&Command::Gotoxy(xy(1296, 0))), None);
    assert_eq!(encode(&Command::Gotoxy(xy(0, 1296))), None);
    assert_eq!(encode(&Command::Viewport { corners: (xy(0, 0), xy(0, u32::MAX)) }), None);
    let wide = Command::TextWindow {
        corners: (xy(1296, 0), xy(0, 0)),
        wrap: true,
        size: FontSize::Size8x8,
    };
    assert_eq!(encode(&wide), None);
}

#[test]
fn a_batch_needs_a_command_and_only_encodable_ones() {
    assert_eq!(encode_batch(&[]), None);
    assert_eq!(encode_batch(&[Command::Home, Command::Unknown]), None);
    assert_eq!(encode_batch(&[Command::Home, Command::Gotoxy(xy(2000, 0))]), None);
    assert_eq!(encode_batch(&[Command::Home]), Some(b"!|H".to_vec()));
}
