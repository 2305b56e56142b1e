use riprs::command::Command;
use riprs::error::InterpretError;
use riprs::parser::ripscrip;
use riprs::render::{place, place_point, place_points, draws, CanvasOp, CommandHandler, DisplayState};
use riprs::structs::{
    EGAColor, FillPattern, Font, FontDirection, FontSize, LineStyle, PaletteColor, Rgb, WriteMode,
    XY,
};

fn pc(v: u8) -> PaletteColor {
    PaletteColor::try_from(v).unwrap()
}

fn ega(v: u8) -> EGAColor {
    EGAColor::try_from(v).unwrap()
}

fn xy(x: u32, y: u32) -> XY {
    XY { x, y }
}

const BLACK: Rgb = Rgb { r: 0, g: 0, b: 0 };
const WHITE: Rgb = Rgb { r: 255, g: 255, b: 255 };

#[test]
fn starting_state() {
    let state = DisplayState::new();
    assert_eq!(state.viewport(), (xy(0, 0), xy(640, 350)));
    assert_eq!(state.text_window(), (xy(0, 0), xy(79, 42)));
    assert!(state.text_wrap());
    assert_eq!(state.text_size(), FontSize::Size8x8);
    assert_eq!(state.cursor(), xy(0, 0));
    assert_eq!(state.write_mode(), WriteMode::Normal);
    assert_eq!(state.line(), (LineStyle::Solid, 0xffff, 1));
    assert_eq!(state.fill(), (FillPattern::Solid, pc(15)));
    assert_eq!(state.color(), pc(15));
    assert_eq!(state.background(), pc(0));
    let want = [0u8, 1, 2, 3, 4, 5, 20, 7, 56, 57, 58, 59, 60, 61, 62, 63];
    for i in 0..16u8 {
        assert_eq!(state.palette_entry(pc(i)), ega(want[i as usize]));
    }
    assert_eq!(state.resolve(pc(0)), BLACK);
    assert_eq!(state.resolve(pc(15)), WHITE);
    assert_eq!(state.resolve(pc(6)), Rgb { r: 170, g: 85, b: 0 });
}

#[test]
fn reset_windows_on_a_fresh_interpreter() {
    let (cmds, _) = ripscrip("!|*").unwrap();
    let mut handler = CommandHandler::new();
    let (ops, skipped) = handler.run(cmds);
    assert_eq!(handler.state().viewport(), (xy(0, 0), xy(640, 350)));
    assert_eq!(
        ops,
        vec![
            CanvasOp::CreateOrResize { width: 640, height: 350 },
            CanvasOp::Clear { color: BLACK },
            CanvasOp::Present,
        ]
    );
    let clears = ops.iter().filter(|op| matches!(op, CanvasOp::Clear { .. })).count();
    let presents = ops.iter().filter(|op| matches!(op, CanvasOp::Present)).count();
    assert_eq!((clears, presents), (1, 1));
    assert!(skipped.is_empty());
}

#[test]
fn reset_windows_restores_the_viewport() {
    let mut handler = CommandHandler::new();
    handler.viewport(10, 20, 110, 220).unwrap();
    handler.apply(Command::Gotoxy(xy(5, 6))).unwrap();
    let ops = handler.reset_windows();
    assert_eq!(handler.state().viewport(), (xy(0, 0), xy(640, 350)));
    assert_eq!(handler.state().cursor(), xy(5, 6));
    assert_eq!(ops.len(), 3);
}

#[test]
fn color_sets_the_drawing_colour() {
    let (mut cmds, _) = ripscrip("!|c03").unwrap();
    let mut handler = CommandHandler::new();
    let ops = handler.apply(cmds.remove(0)).unwrap();
    assert!(ops.is_empty());
    assert_eq!(handler.state().color(), pc(3));
    assert_eq!(handler.state().background(), pc(0));
}

#[test]
fn viewport_sizes_the_surface() {
    let mut handler = CommandHandler::new();
    let ops = handler.viewport(10, 20, 110, 220).unwrap();
    assert_eq!(ops, vec![CanvasOp::CreateOrResize { width: 100, height: 200 }]);
    assert_eq!(handler.state().viewport(), (xy(10, 20), xy(110, 220)));
    let same = handler.apply(Command::Viewport { corners: (xy(7, 7), xy(7, 7)) }).unwrap();
    assert_eq!(same, vec![CanvasOp::CreateOrResize { width: 0, height: 0 }]);
}

#[test]
fn viewport_with_corners_out_of_order_is_refused() {
    let mut handler = CommandHandler::new();
    handler.viewport(1, 2, 3, 4).unwrap();
    assert_eq!(handler.viewport(10, 0, 9, 5), Err(InterpretError::InvalidGeometry));
    assert_eq!(handler.viewport(0, 10, 5, 9), Err(InterpretError::InvalidGeometry));
    assert_eq!(handler.state().viewport(), (xy(1, 2), xy(3, 4)));
}

#[test]
fn text_window_sets_its_three_fields() {
    let mut handler = CommandHandler::new();
    let cmd = Command::TextWindow {
        corners: (xy(1, 2), xy(41, 27)),
        wrap: false,
        size: FontSize::Size7x14,
    };
    let ops = handler.apply(cmd).unwrap();
    assert_eq!(ops, vec![CanvasOp::CreateOrResize { width: 40, height: 25 }]);
    assert_eq!(handler.state().text_window(), (xy(1, 2), xy(41, 27)));
    assert!(!handler.state().text_wrap());
    assert_eq!(handler.state().text_size(), FontSize::Size7x14);
    let bad = Command::TextWindow {
        corners: (xy(5, 5), xy(4, 9)),
        wrap: true,
        size: FontSize::Size8x8,
    };
    assert_eq!(handler.apply(bad), Err(InterpretError::InvalidGeometry));
    assert_eq!(handler.state().text_window(), (xy(1, 2), xy(41, 27)));
    assert!(!handler.state().text_wrap());
    assert_eq!(handler.state().text_size(), FontSize::Size7x14);
}

#[test]
fn cursor_commands() {
    let mut handler = CommandHandler::new();
    assert!(handler.apply(Command::Gotoxy(xy(12, 34))).unwrap().is_empty());
    assert_eq!(handler.state().cursor(), xy(12, 34));
    assert!(handler.apply(Command::Home).unwrap().is_empty());
    assert_eq!(handler.state().cursor(), xy(0, 0));
}

#[test]
fn palette_commands() {
    let mut handler = CommandHandler::new();
    handler.apply(Command::OnePalette { color: pc(0), value: ega(63) }).unwrap();
    assert_eq!(handler.state().palette_entry(pc(0)), ega(63));
    assert_eq!(handler.state().palette_entry(pc(1)), ega(1));
    assert_eq!(handler.state().resolve(pc(0)), WHITE);
    let mut c = [ega(0); 16];
    c[15] = ega(4);
    handler.apply(Command::SetPalette { c }).unwrap();
    for i in 0..15 {
        assert_eq!(handler.state().palette_entry(pc(i)), ega(0));
    }
    assert_eq!(handler.state().resolve(pc(15)), Rgb { r: 170, g: 0, b: 0 });
}

#[test]
fn clearing_uses_the_background_colour() {
    let mut handler = CommandHandler::new();
    handler.apply(Command::OnePalette { color: pc(0), value: ega(1) }).unwrap();
    let blue = Rgb { r: 0, g: 0, b: 170 };
    let want = vec![CanvasOp::Clear { color: blue }, CanvasOp::Present];
    assert_eq!(handler.erase_view(), want);
    assert_eq!(handler.erase_window(), want);
    assert_eq!(handler.apply(Command::EraseView).unwrap(), want);
    assert_eq!(handler.apply(Command::EraseWindow).unwrap(), want);
    assert_eq!(handler.state().viewport(), (xy(0, 0), xy(640, 350)));
}

#[test]
fn mode_and_style_commands() {
    let mut handler = CommandHandler::new();
    handler.apply(Command::WriteMode { mode: WriteMode::Xor }).unwrap();
    assert_eq!(handler.state().write_mode(), WriteMode::Xor);
    handler
        .apply(Command::LineStyle { style: LineStyle::Dashed, user_pat: 0x0f0f, thick: 3 })
        .unwrap();
    assert_eq!(handler.state().line(), (LineStyle::Dashed, 0x0f0f, 3));
    handler
        .apply(Command::FillStyle { pattern: FillPattern::LightHatch, color: pc(9) })
        .unwrap();
    assert_eq!(handler.state().fill(), (FillPattern::LightHatch, pc(9)));
}

#[test]
fn drawing_is_placed_in_the_viewport() {
    let mut handler = CommandHandler::new();
    handler.viewport(10, 20, 110, 220).unwrap();
    handler.apply(Command::Color { color: pc(4) }).unwrap();
    handler.apply(Command::WriteMode { mode: WriteMode::Xor }).unwrap();
    let ops = handler.apply(Command::Pixel { position: xy(1, 2) }).unwrap();
    let red = Rgb { r: 170, g: 0, b: 0 };
    assert_eq!(
        ops,
        vec![CanvasOp::Draw {
            primitive: Command::Pixel { position: xy(11, 22) },
            color: red,
            mode: WriteMode::Xor,
        }]
    );
    assert_eq!(handler.state().viewport(), (xy(10, 20), xy(110, 220)));
}

#[test]
fn every_shape_moves_its_positions_only() {
    let o = xy(100, 200);
    let cases = vec![
        (Command::Line { ends: (xy(1, 2), xy(3, 4)) }, Command::Line { ends: (xy(101, 202), xy(103, 204)) }),
        (
            Command::Rectangle { corners: (xy(0, 0), xy(5, 6)) },
            Command::Rectangle { corners: (xy(100, 200), xy(105, 206)) },
        ),
        (Command::Bar { corners: (xy(9, 9), xy(1, 1)) }, Command::Bar { corners: (xy(109, 209), xy(101, 201)) }),
        (Command::Circle { center: xy(1, 1), radius: 50 }, Command::Circle { center: xy(101, 201), radius: 50 }),
        (
            Command::Oval { center: xy(1, 1), start_angle: 10, end_angle: 20, rad: xy(3, 4) },
            Command::Oval { center: xy(101, 201), start_angle: 10, end_angle: 20, rad: xy(3, 4) },
        ),
        (
            Command::FilledOval { center: xy(1, 1), rad: xy(3, 4) },
            Command::FilledOval { center: xy(101, 201), rad: xy(3, 4) },
        ),
        (
            Command::Arc { center: xy(2, 3), start_angle: 0, end_angle: 90, radius: 7 },
            Command::Arc { center: xy(102, 203), start_angle: 0, end_angle: 90, radius: 7 },
        ),
        (
            Command::OvalArc { center: xy(2, 3), start_angle: 0, end_angle: 90, rad: xy(7, 8) },
            Command::OvalArc { center: xy(102, 203), start_angle: 0, end_angle: 90, rad: xy(7, 8) },
        ),
        (
            Command::PieSlice { center: xy(2, 3), start_angle: 0, end_angle: 90, radius: 7 },
            Command::PieSlice { center: xy(102, 203), start_angle: 0, end_angle: 90, radius: 7 },
        ),
        (
            Command::OvalPieSlice { center: xy(2, 3), start_angle: 0, end_angle: 90, rad: xy(7, 8) },
            Command::OvalPieSlice { center: xy(102, 203), start_angle: 0, end_angle: 90, rad: xy(7, 8) },
        ),
        (
            Command::Bezier { control_points: [xy(0, 0), xy(1, 1), xy(2, 2), xy(3, 3)], cnt: 9 },
            Command::Bezier {
                control_points: [xy(100, 200), xy(101, 201), xy(102, 202), xy(103, 203)],
                cnt: 9,
            },
        ),
        (
            Command::Polygon { npoints: 3, points: vec![xy(0, 0), xy(4, 0), xy(0, 4)] },
            Command::Polygon { npoints: 3, points: vec![xy(100, 200), xy(104, 200), xy(100, 204)] },
        ),
        (
            Command::FillPolygon { npoints: 2, points: vec![xy(1, 0), xy(0, 1)] },
            Command::FillPolygon { npoints: 2, points: vec![xy(101, 200), xy(100, 201)] },
        ),
        (
            Command::Polyline { npoints: 0, points: vec![] },
            Command::Polyline { npoints: 0, points: vec![] },
        ),
        (Command::Fill { start: xy(5, 5), border: ega(9) }, Command::Fill { start: xy(105, 205), border: ega(9) }),
    ];
    for (cmd, want) in cases {
        assert!(draws(&cmd));
        assert_eq!(place(&cmd, o), Some(want));
    }
}

#[test]
fn a_position_off_the_surface_is_refused() {
    let mut handler = CommandHandler::new();
    handler.viewport(10, 10, 20, 20).unwrap();
    let far = Command::Pixel { position: xy(u32::MAX - 9, 0) };
    assert_eq!(handler.apply(far), Err(InterpretError::InvalidGeometry));
    let edge = Command::Pixel { position: xy(u32::MAX - 10, u32::MAX - 10) };
    assert_eq!(place(&edge, xy(10, 10)), Some(Command::Pixel { position: xy(u32::MAX, u32::MAX) }));
    let poly = Command::Polygon { npoints: 2, points: vec![xy(0, 0), xy(0, u32::MAX)] };
    assert_eq!(handler.apply(poly), Err(InterpretError::InvalidGeometry));
    assert_eq!(place_point(xy(1, 2), xy(3, 4)), Some(xy(4, 6)));
    assert_eq!(place_point(xy(u32::MAX, 0), xy(1, 0)), None);
    assert_eq!(place_points(&[xy(1, 1), xy(2, 2)], xy(1, 0)), Some(vec![xy(2, 1), xy(3, 2)]));
    assert_eq!(place_points(&[xy(1, 1), xy(2, u32::MAX)], xy(0, 1)), None);
}

#[test]
fn commands_that_are_not_executed_change_nothing() {
    let cmds = vec![
        Command::Unknown,
        Command::NoMore,
        Command::EraseEol,
        Command::Move(xy(3, 3)),
        Command::Text { text_string: String::from("hello") },
        Command::TextXy { position: xy(1, 1), text: String::from("hi") },
        Command::FontStyle { font: Font::Gothic, direction: FontDirection::Vertical },
        Command::FillPattern { data: [1, 2, 3, 4, 5, 6, 7, 8], color: pc(2) },
        Command::KillMouseFields,
        Command::EndText,
        Command::ReadScene { filename: String::from("a.rip") },
    ];
    let mut handler = CommandHandler::new();
    for cmd in cmds {
        assert!(!draws(&cmd));
        assert_eq!(place(&cmd, xy(0, 0)), None);
        assert_eq!(handler.apply(cmd), Ok(vec![]));
    }
    assert_eq!(handler.state().cursor(), xy(0, 0));
    assert_eq!(handler.state().color(), pc(15));
    assert_eq!(handler.state().viewport(), (xy(0, 0), xy(640, 350)));
}

#[test]
fn a_run_skips_refused_commands_and_goes_on() {
    let cmds = vec![
        Command::Color { color: pc(2) },
        Command::Viewport { corners: (xy(9, 9), xy(1, 1)) },
        Command::Gotoxy(xy(4, 5)),
        Command::Pixel { position: xy(u32::MAX, 0) },
        Command::Viewport { corners: (xy(1, 1), xy(9, 9)) },
        Command::Pixel { position: xy(2, 3) },
        Command::EraseView,
    ];
    let mut handler = CommandHandler::new();
    let (ops, skipped) = handler.run(cmds);
    assert_eq!(skipped, vec![1]);
    assert_eq!(handler.state().color(), pc(2));
    assert_eq!(handler.state().cursor(), xy(4, 5));
    assert_eq!(handler.state().viewport(), (xy(1, 1), xy(9, 9)));
    assert_eq!(
        ops,
        vec![
            CanvasOp::Draw {
                primitive: Command::Pixel { position: xy(u32::MAX, 0) },
                color: Rgb { r: 0, g: 170, b: 0 },
                mode: WriteMode::Normal,
            },
            CanvasOp::CreateOrResize { width: 8, height: 8 },
            CanvasOp::Draw {
                primitive: Command::Pixel { position: xy(3, 4) },
                color: Rgb { r: 0, g: 170, b: 0 },
                mode: WriteMode::Normal,
            },
            CanvasOp::Clear { color: BLACK },
            CanvasOp::Present,
        ]
    );
}

#[test]
fn a_run_of_nothing_does_nothing() {
    let mut handler = CommandHandler::new();
    assert_eq!(handler.run(vec![]), (vec![], vec![]));
    assert_eq!(handler.state().viewport(), (xy(0, 0), xy(640, 350)));
}

#[test]
fn perform_borrows_what_apply_consumes() {
    let cmd = Command::Gotoxy(xy(8, 9));
    let mut a = CommandHandler::new();
    let mut b = CommandHandler::new();
    assert_eq!(a.perform(&cmd), Ok(vec![]));
    assert_eq!(b.apply(cmd), Ok(vec![]));
    assert_eq!(a.state().cursor(), b.state().cursor());
    let line = Command::Line { ends: (xy(0, 0), xy(1, 1)) };
    assert_eq!(a.draw(&line), b.perform(&line));
}
