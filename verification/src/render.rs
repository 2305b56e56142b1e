//! The display interpreter: the state that commands act on, and the
//! operations that each command asks of the canvas.

use vstd::prelude::*;
use crate::command::{palette_view, Command, CommandView};
use crate::error::InterpretError;
use crate::parser::views;
use crate::structs::{
    rgb_of, EGAColor, FillPattern, FontSize, LineStyle, PaletteColor, Rgb, WriteMode, XY,
};

verus! {

/// Width of the full screen in pixels.
pub const SCREEN_WIDTH: u32 = 640;

/// Height of the full screen in pixels.
pub const SCREEN_HEIGHT: u32 = 350;

/// One request to the canvas.
#[derive(Debug, PartialEq, Eq)]
pub enum CanvasOp {
    /// Create the surface, or give it a new size.
    CreateOrResize { width: u32, height: u32 },
    /// Fill the whole surface with one colour.
    Clear { color: Rgb },
    /// Show what has been drawn.
    Present,
    /// Draw a shape, given as the drawing command with its positions made
    /// absolute.
    Draw { primitive: Command, color: Rgb, mode: WriteMode },
}

/// What a [`CanvasOp`] stands for.
pub enum CanvasOpView {
    CreateOrResize { width: u32, height: u32 },
    Clear { color: Rgb },
    Present,
    Draw { primitive: CommandView, color: Rgb, mode: WriteMode },
}

impl View for CanvasOp {
    type V = CanvasOpView;

    open spec fn view(&self) -> CanvasOpView {
        match *self {
            CanvasOp::CreateOrResize { width, height } => CanvasOpView::CreateOrResize {
                width,
                height,
            },
            CanvasOp::Clear { color } => CanvasOpView::Clear { color },
            CanvasOp::Present => CanvasOpView::Present,
            CanvasOp::Draw { primitive, color, mode } => CanvasOpView::Draw {
                primitive: primitive@,
                color,
                mode,
            },
        }
    }
}

/// The models of a sequence of canvas requests, in order.
pub open spec fn op_views(ops: Seq<CanvasOp>) -> Seq<CanvasOpView> {
    Seq::new(ops.len(), |i: int| ops[i]@)
}

/// What a [`DisplayState`] stands for.
pub struct DisplayStateView {
    pub viewport: (XY, XY),
    pub text_window: (XY, XY),
    pub text_wrap: bool,
    pub text_size: FontSize,
    pub palette: Seq<nat>,
    pub cursor: XY,
    pub write_mode: WriteMode,
    pub line_style: LineStyle,
    pub line_pattern: u16,
    pub line_thickness: u32,
    pub fill_pattern: FillPattern,
    pub fill_color: nat,
    pub color: nat,
    pub background: nat,
}

/// The rectangle that covers the whole screen.
pub open spec fn full_screen() -> (XY, XY) {
    (XY { x: 0, y: 0 }, XY { x: SCREEN_WIDTH, y: SCREEN_HEIGHT })
}

/// The palette in force before any command changes it.
pub open spec fn default_palette() -> Seq<nat> {
    seq![0, 1, 2, 3, 4, 5, 20, 7, 56, 57, 58, 59, 60, 61, 62, 63]
}

/// The state a session starts in: the viewport covers the screen, the
/// palette is the default one, the cursor is at the origin and drawing
/// overwrites.
pub open spec fn initial_state() -> DisplayStateView {
    DisplayStateView {
        viewport: full_screen(),
        text_window: (XY { x: 0, y: 0 }, XY { x: 79, y: 42 }),
        text_wrap: true,
        text_size: FontSize::Size8x8,
        palette: default_palette(),
        cursor: XY { x: 0, y: 0 },
        write_mode: WriteMode::Normal,
        line_style: LineStyle::Solid,
        line_pattern: 0xffff,
        line_thickness: 1,
        fill_pattern: FillPattern::Solid,
        fill_color: 15,
        color: 15,
        background: 0,
    }
}

impl DisplayStateView {
    /// Every colour is in range and the palette has its sixteen entries.
    pub open spec fn wf(self) -> bool {
        &&& self.palette.len() == 16
        &&& forall|i: int| 0 <= i < 16 ==> self.palette[i] < 64
        &&& self.fill_color < 16
        &&& self.color < 16
        &&& self.background < 16
    }

    /// The displayable colour behind a palette index.
    pub open spec fn resolve(self, index: nat) -> Rgb {
        rgb_of(self.palette[index as int])
    }
}

/// The cumulative state of the display.
#[derive(Debug)]
pub struct DisplayState {
    viewport: (XY, XY),
    text_window: (XY, XY),
    text_wrap: bool,
    text_size: FontSize,
    palette: [EGAColor; 16],
    cursor: XY,
    write_mode: WriteMode,
    line_style: LineStyle,
    line_pattern: u16,
    line_thickness: u32,
    fill_pattern: FillPattern,
    fill_color: PaletteColor,
    color: PaletteColor,
    background: PaletteColor,
}

impl View for DisplayState {
    type V = DisplayStateView;

    closed spec fn view(&self) -> DisplayStateView {
        DisplayStateView {
            viewport: self.viewport,
            text_window: self.text_window,
            text_wrap: self.text_wrap,
            text_size: self.text_size,
            palette: palette_view(self.palette@),
            cursor: self.cursor,
            write_mode: self.write_mode,
            line_style: self.line_style,
            line_pattern: self.line_pattern,
            line_thickness: self.line_thickness,
            fill_pattern: self.fill_pattern,
            fill_color: self.fill_color@,
            color: self.color@,
            background: self.background@,
        }
    }
}

impl DisplayState {
    /// The state a session starts in.
    pub fn new() -> (state: Self)
        ensures
            state@ == initial_state(),
    {
        let palette = [
            EGAColor::from_value(0),
            EGAColor::from_value(1),
            EGAColor::from_value(2),
            EGAColor::from_value(3),
            EGAColor::from_value(4),
            EGAColor::from_value(5),
            EGAColor::from_value(20),
            EGAColor::from_value(7),
            EGAColor::from_value(56),
            EGAColor::from_value(57),
            EGAColor::from_value(58),
            EGAColor::from_value(59),
            EGAColor::from_value(60),
            EGAColor::from_value(61),
            EGAColor::from_value(62),
            EGAColor::from_value(63),
        ];
        let state = DisplayState {
            viewport: (XY { x: 0, y: 0 }, XY { x: SCREEN_WIDTH, y: SCREEN_HEIGHT }),
            text_window: (XY { x: 0, y: 0 }, XY { x: 79, y: 42 }),
            text_wrap: true,
            text_size: FontSize::Size8x8,
            palette,
            cursor: XY { x: 0, y: 0 },
            write_mode: WriteMode::Normal,
            line_style: LineStyle::Solid,
            line_pattern: 0xffff,
            line_thickness: 1,
            fill_pattern: FillPattern::Solid,
            fill_color: PaletteColor::from_index(15),
            color: PaletteColor::from_index(15),
            background: PaletteColor::from_index(0),
        };
        proof {
            assert(state@.palette =~= default_palette());
        }
        state
    }
}

/// Whether `p`, moved by `origin`, is still a coordinate pair.
pub open spec fn fits(p: XY, origin: XY) -> bool {
    p.x + origin.x <= u32::MAX && p.y + origin.y <= u32::MAX
}

/// The point `p` moved by `origin`.
pub open spec fn moved(p: XY, origin: XY) -> XY {
    XY { x: (p.x + origin.x) as u32, y: (p.y + origin.y) as u32 }
}

/// Whether every point of a list fits once moved.
pub open spec fn all_fit(points: Seq<XY>, origin: XY) -> bool {
    forall|i: int| 0 <= i < points.len() ==> fits(#[trigger] points[i], origin)
}

/// The points of a list, each moved by `origin`.
pub open spec fn moved_all(points: Seq<XY>, origin: XY) -> Seq<XY> {
    Seq::new(points.len(), |i: int| moved(points[i], origin))
}

/// The commands that draw a shape.
pub open spec fn is_drawing(cmd: CommandView) -> bool {
    match cmd {
        CommandView::Pixel { .. }
        | CommandView::Line { .. }
        | CommandView::Rectangle { .. }
        | CommandView::Bar { .. }
        | CommandView::Circle { .. }
        | CommandView::Oval { .. }
        | CommandView::FilledOval { .. }
        | CommandView::Arc { .. }
        | CommandView::OvalArc { .. }
        | CommandView::PieSlice { .. }
        | CommandView::OvalPieSlice { .. }
        | CommandView::Bezier { .. }
        | CommandView::Polygon { .. }
        | CommandView::FillPolygon { .. }
        | CommandView::Polyline { .. }
        | CommandView::Fill { .. } => true,
        _ => false,
    }
}

/// A drawing command with each of its positions moved from the viewport's
/// coordinates to those of the surface, where all of them fit. Radii,
/// angles and counts are sizes, not positions, and stay as they are.
pub open spec fn placed(cmd: CommandView, o: XY) -> Option<CommandView> {
    match cmd {
        CommandView::Pixel { position } => if fits(position, o) {
            Some(CommandView::Pixel { position: moved(position, o) })
        } else {
            None
        },
        CommandView::Line { ends } => if fits(ends.0, o) && fits(ends.1, o) {
            Some(CommandView::Line { ends: (moved(ends.0, o), moved(ends.1, o)) })
        } else {
            None
        },
        CommandView::Rectangle { corners } => if fits(corners.0, o) && fits(corners.1, o) {
            Some(CommandView::Rectangle { corners: (moved(corners.0, o), moved(corners.1, o)) })
        } else {
            None
        },
        CommandView::Bar { corners } => if fits(corners.0, o) && fits(corners.1, o) {
            Some(CommandView::Bar { corners: (moved(corners.0, o), moved(corners.1, o)) })
        } else {
            None
        },
        CommandView::Circle { center, radius } => if fits(center, o) {
            Some(CommandView::Circle { center: moved(center, o), radius })
        } else {
            None
        },
        CommandView::Oval { center, start_angle, end_angle, rad } => if fits(center, o) {
            Some(CommandView::Oval { center: moved(center, o), start_angle, end_angle, rad })
        } else {
            None
        },
        CommandView::FilledOval { center, rad } => if fits(center, o) {
            Some(CommandView::FilledOval { center: moved(center, o), rad })
        } else {
            None
        },
        CommandView::Arc { center, start_angle, end_angle, radius } => if fits(center, o) {
            Some(CommandView::Arc { center: moved(center, o), start_angle, end_angle, radius })
        } else {
            None
        },
        CommandView::OvalArc { center, start_angle, end_angle, rad } => if fits(center, o) {
            Some(CommandView::OvalArc { center: moved(center, o), start_angle, end_angle, rad })
        } else {
            None
        },
        CommandView::PieSlice { center, start_angle, end_angle, radius } => if fits(center, o) {
            Some(
                CommandView::PieSlice { center: moved(center, o), start_angle, end_angle, radius },
            )
        } else {
            None
        },
        CommandView::OvalPieSlice { center, start_angle, end_angle, rad } => if fits(center, o) {
            Some(
                CommandView::OvalPieSlice { center: moved(center, o), start_angle, end_angle, rad },
            )
        } else {
            None
        },
        CommandView::Bezier { control_points, cnt } => if all_fit(control_points, o) {
            Some(CommandView::Bezier { control_points: moved_all(control_points, o), cnt })
        } else {
            None
        },
        CommandView::Polygon { npoints, points } => if all_fit(points, o) {
            Some(CommandView::Polygon { npoints, points: moved_all(points, o) })
        } else {
            None
        },
        CommandView::FillPolygon { npoints, points } => if all_fit(points, o) {
            Some(CommandView::FillPolygon { npoints, points: moved_all(points, o) })
        } else {
            None
        },
        CommandView::Polyline { npoints, points } => if all_fit(points, o) {
            Some(CommandView::Polyline { npoints, points: moved_all(points, o) })
        } else {
            None
        },
        CommandView::Fill { start, border } => if fits(start, o) {
            Some(CommandView::Fill { start: moved(start, o), border })
        } else {
            None
        },
        _ => None,
    }
}

/// Moves one point, where it fits.
pub fn place_point(p: XY, origin: XY) -> (r: Option<XY>)
    ensures
        r == if fits(p, origin) {
            Some(moved(p, origin))
        } else {
            None
        },
{
    match (p.x.checked_add(origin.x), p.y.checked_add(origin.y)) {
        (Some(x), Some(y)) => Some(XY { x, y }),
        _ => None,
    }
}

/// Moves every point of a list, where all of them fit.
pub fn place_points(points: &[XY], origin: XY) -> (r: Option<Vec<XY>>)
    ensures
        match r {
            Some(out) => all_fit(points@, origin) && out@ == moved_all(points@, origin),
            None => !all_fit(points@, origin),
        },
{
    let mut out: Vec<XY> = Vec::new();
    let mut i: usize = 0;
    while i < points.len()
        invariant
            i <= points.len(),
            out@.len() == i,
            forall|j: int| 0 <= j < i ==> fits(#[trigger] points@[j], origin),
            forall|j: int| 0 <= j < i ==> out@[j] == moved(points@[j], origin),
        decreases points.len() - i,
    {
        match place_point(points[i], origin) {
            Some(p) => {
                out.push(p);
            },
            None => {
                return None;
            },
        }
        i = i + 1;
    }
    proof {
        assert(out@ =~= moved_all(points@, origin));
    }
    Some(out)
}

/// Tells whether a command draws a shape.
pub fn draws(cmd: &Command) -> (r: bool)
    ensures
        r == is_drawing(cmd@),
{
    match cmd {
        Command::Pixel { .. }
        | Command::Line { .. }
        | Command::Rectangle { .. }
        | Command::Bar { .. }
        | Command::Circle { .. }
        | Command::Oval { .. }
        | Command::FilledOval { .. }
        | Command::Arc { .. }
        | Command::OvalArc { .. }
        | Command::PieSlice { .. }
        | Command::OvalPieSlice { .. }
        | Command::Bezier { .. }
        | Command::Polygon { .. }
        | Command::FillPolygon { .. }
        | Command::Polyline { .. }
        | Command::Fill { .. } => true,
        _ => false,
    }
}

/// Moves the positions of a drawing command from the viewport's coordinates
/// to those of the surface. Gives nothing for a command that draws no shape
/// and for one with a position that does not fit.
pub fn place(cmd: &Command, origin: XY) -> (r: Option<Command>)
    ensures
        match r {
            Some(c) => placed(cmd@, origin) == Some(c@),
            None => placed(cmd@, origin) is None,
        },
{
    match cmd {
        Command::Pixel { position } => match place_point(*position, origin) {
            Some(p) => Some(Command::Pixel { position: p }),
            None => None,
        },
        Command::Line { ends } => match (place_point(ends.0, origin), place_point(ends.1, origin)) {
            (Some(a), Some(b)) => Some(Command::Line { ends: (a, b) }),
            _ => None,
        },
        Command::Rectangle { corners } => match (place_point(corners.0, origin), place_point(corners.1, origin)) {
            (Some(a), Some(b)) => Some(Command::Rectangle { corners: (a, b) }),
            _ => None,
        },
        Command::Bar { corners } => match (place_point(corners.0, origin), place_point(corners.1, origin)) {
            (Some(a), Some(b)) => Some(Command::Bar { corners: (a, b) }),
            _ => None,
        },
        Command::Circle { center, radius } => match place_point(*center, origin) {
            Some(c) => Some(Command::Circle { center: c, radius: *radius }),
            None => None,
        },
        Command::Oval { center, start_angle, end_angle, rad } => match place_point(*center, origin) {
            Some(c) => Some(Command::Oval { center: c, start_angle: *start_angle, end_angle: *end_angle, rad: *rad }),
            None => None,
        },
        Command::FilledOval { center, rad } => match place_point(*center, origin) {
            Some(c) => Some(Command::FilledOval { center: c, rad: *rad }),
            None => None,
        },
        Command::Arc { center, start_angle, end_angle, radius } => match place_point(*center, origin) {
            Some(c) => Some(Command::Arc { center: c, start_angle: *start_angle, end_angle: *end_angle, radius: *radius }),
            None => None,
        },
        Command::OvalArc { center, start_angle, end_angle, rad } => match place_point(*center, origin) {
            Some(c) => Some(Command::OvalArc { center: c, start_angle: *start_angle, end_angle: *end_angle, rad: *rad }),
            None => None,
        },
        Command::PieSlice { center, start_angle, end_angle, radius } => match place_point(*center, origin) {
            Some(c) => Some(Command::PieSlice { center: c, start_angle: *start_angle, end_angle: *end_angle, radius: *radius }),
            None => None,
        },
        Command::OvalPieSlice { center, start_angle, end_angle, rad } => match place_point(*center, origin) {
            Some(c) => Some(Command::OvalPieSlice { center: c, start_angle: *start_angle, end_angle: *end_angle, rad: *rad }),
            None => None,
        },
        Command::Bezier { control_points, cnt } => match place_points(
            control_points.as_slice(),
            origin,
        ) {
            Some(p) => {
                let moved_points = [p[0], p[1], p[2], p[3]];
                proof {
                    assert(moved_points@ =~= p@);
                }
                Some(Command::Bezier { control_points: moved_points, cnt: *cnt })
            },
            None => None,
        },
        Command::Polygon { npoints, points } => match place_points(points.as_slice(), origin) {
            Some(moved_points) => Some(Command::Polygon { npoints: *npoints, points: moved_points }),
            None => None,
        },
        Command::FillPolygon { npoints, points } => match place_points(points.as_slice(), origin) {
            Some(moved_points) => Some(Command::FillPolygon { npoints: *npoints, points: moved_points }),
            None => None,
        },
        Command::Polyline { npoints, points } => match place_points(points.as_slice(), origin) {
            Some(moved_points) => Some(Command::Polyline { npoints: *npoints, points: moved_points }),
            None => None,
        },
        Command::Fill { start, border } => match place_point(*start, origin) {
            Some(p) => Some(Command::Fill { start: p, border: *border }),
            None => None,
        },
        _ => None,
    }
}

/// Whether the second corner of a rectangle is neither left of nor above
/// the first.
pub open spec fn ordered(corners: (XY, XY)) -> bool {
    corners.0.x <= corners.1.x && corners.0.y <= corners.1.y
}

/// The request that gives the surface the size of a rectangle.
pub open spec fn resize_op(corners: (XY, XY)) -> CanvasOpView {
    CanvasOpView::CreateOrResize {
        width: (corners.1.x - corners.0.x) as u32,
        height: (corners.1.y - corners.0.y) as u32,
    }
}

/// The requests that clear the surface to the background colour and show it.
pub open spec fn clear_ops(st: DisplayStateView) -> Seq<CanvasOpView> {
    seq![CanvasOpView::Clear { color: st.resolve(st.background) }, CanvasOpView::Present]
}

/// What a command asks the canvas to draw: one shape for a drawing command
/// whose positions fit, in the current colour and write mode; nothing for a
/// command that draws no shape.
pub open spec fn drawing_of(st: DisplayStateView, cmd: CommandView) -> Result<
    Seq<CanvasOpView>,
    InterpretError,
> {
    if !is_drawing(cmd) {
        Ok(Seq::empty())
    } else {
        match placed(cmd, st.viewport.0) {
            Some(primitive) => Ok(
                seq![
                    CanvasOpView::Draw {
                        primitive,
                        color: st.resolve(st.color),
                        mode: st.write_mode,
                    },
                ],
            ),
            None => Err(InterpretError::InvalidGeometry),
        }
    }
}

/// The effect of one command: the state after it and the requests to the
/// canvas, in order; or the error, in which case nothing changes.
pub open spec fn step(st: DisplayStateView, cmd: CommandView) -> Result<
    (DisplayStateView, Seq<CanvasOpView>),
    InterpretError,
> {
    match cmd {
        CommandView::ResetWindows => {
            let next = DisplayStateView { viewport: full_screen(), ..st };
            Ok((next, seq![resize_op(full_screen())] + clear_ops(next)))
        },
        CommandView::EraseWindow => Ok((st, clear_ops(st))),
        CommandView::EraseView => Ok((st, clear_ops(st))),
        CommandView::Viewport { corners } => if ordered(corners) {
            Ok((DisplayStateView { viewport: corners, ..st }, seq![resize_op(corners)]))
        } else {
            Err(InterpretError::InvalidGeometry)
        },
        CommandView::TextWindow { corners, wrap, size } => if ordered(corners) {
            Ok(
                (
                    DisplayStateView {
                        text_window: corners,
                        text_wrap: wrap,
                        text_size: size,
                        ..st
                    },
                    seq![resize_op(corners)],
                ),
            )
        } else {
            Err(InterpretError::InvalidGeometry)
        },
        CommandView::Gotoxy(p) => Ok((DisplayStateView { cursor: p, ..st }, Seq::empty())),
        CommandView::Home => Ok(
            (DisplayStateView { cursor: XY { x: 0, y: 0 }, ..st }, Seq::empty()),
        ),
        CommandView::Color { color } => Ok((DisplayStateView { color, ..st }, Seq::empty())),
        CommandView::SetPalette { c } => Ok((DisplayStateView { palette: c, ..st }, Seq::empty())),
        CommandView::OnePalette { color, value } => Ok(
            (
                DisplayStateView {
                    palette: if color < st.palette.len() {
                        st.palette.update(color as int, value)
                    } else {
                        st.palette
                    },
                    ..st
                },
                Seq::empty(),
            ),
        ),
        CommandView::WriteMode { mode } => Ok(
            (DisplayStateView { write_mode: mode, ..st }, Seq::empty()),
        ),
        CommandView::LineStyle { style, user_pat, thick } => Ok(
            (
                DisplayStateView {
                    line_style: style,
                    line_pattern: user_pat,
                    line_thickness: thick,
                    ..st
                },
                Seq::empty(),
            ),
        ),
        CommandView::FillStyle { pattern, color } => Ok(
            (DisplayStateView { fill_pattern: pattern, fill_color: color, ..st }, Seq::empty()),
        ),
        _ => match drawing_of(st, cmd) {
            Ok(ops) => Ok((st, ops)),
            Err(e) => Err(e),
        },
    }
}

/// Whether a call that took the state from `before` to `after` and returned
/// `r` did what `cmd` asks: on success the state and the requests are those
/// of [`step`]; on failure the error is that of [`step`] and the state is
/// untouched.
pub open spec fn applied(
    before: DisplayStateView,
    cmd: CommandView,
    after: DisplayStateView,
    r: Result<Vec<CanvasOp>, InterpretError>,
) -> bool {
    match step(before, cmd) {
        Ok((next, ops)) => r is Ok && after == next && op_views(r->Ok_0@) == ops,
        Err(e) => r is Err && r->Err_0 == e && after == before,
    }
}

/// Whether the colours that a command carries are in range.
pub open spec fn in_range(cmd: CommandView) -> bool {
    match cmd {
        CommandView::Color { color } => color < 16,
        CommandView::SetPalette { c } => c.len() == 16 && forall|i: int|
            0 <= i < 16 ==> #[trigger] c[i] < 64,
        CommandView::OnePalette { color, value } => color < 16 && value < 64,
        CommandView::FillStyle { color, .. } => color < 16,
        _ => true,
    }
}

/// A command with colours in range leaves a well-formed state well-formed.
pub proof fn lemma_step_keeps_wf(st: DisplayStateView, cmd: CommandView)
    requires
        st.wf(),
        in_range(cmd),
    ensures
        step(st, cmd) is Ok ==> step(st, cmd)->Ok_0.0.wf(),
{
}

/// Resetting the windows gives the full-screen viewport, whatever it was
/// before, changes nothing else, and asks for the surface at full size, one
/// clear to the background colour and one presentation, in this order.
pub proof fn lemma_reset_windows(st: DisplayStateView)
    ensures
        step(st, CommandView::ResetWindows) == Ok::<_, InterpretError>(
            (
                DisplayStateView { viewport: full_screen(), ..st },
                seq![
                    CanvasOpView::CreateOrResize { width: SCREEN_WIDTH, height: SCREEN_HEIGHT },
                    CanvasOpView::Clear { color: st.resolve(st.background) },
                    CanvasOpView::Present,
                ],
            ),
        ),
{
    let next = DisplayStateView { viewport: full_screen(), ..st };
    assert(seq![resize_op(full_screen())] + clear_ops(next) =~= seq![
        CanvasOpView::CreateOrResize { width: SCREEN_WIDTH, height: SCREEN_HEIGHT },
        CanvasOpView::Clear { color: st.resolve(st.background) },
        CanvasOpView::Present,
    ]);
}

/// The unknown command and the end-of-scene mark change nothing and ask
/// for nothing.
pub proof fn lemma_sentinels_do_nothing(st: DisplayStateView)
    ensures
        step(st, CommandView::Unknown) == Ok::<_, InterpretError>(
            (st, Seq::<CanvasOpView>::empty()),
        ),
        step(st, CommandView::NoMore) == Ok::<_, InterpretError>(
            (st, Seq::<CanvasOpView>::empty()),
        ),
{
}

/// Only a rectangle with corners out of order, or a shape with a position
/// that leaves the surface, is refused; every other command is applied.
pub proof fn lemma_refused_only_for_geometry(st: DisplayStateView, cmd: CommandView)
    ensures
        step(st, cmd) is Err <==> match cmd {
            CommandView::Viewport { corners } => !ordered(corners),
            CommandView::TextWindow { corners, .. } => !ordered(corners),
            _ => is_drawing(cmd) && placed(cmd, st.viewport.0) is None,
        },
{
}

/// What a run of commands leaves behind.
pub struct Outcome {
    /// The state after the last command.
    pub state: DisplayStateView,
    /// The requests of all commands that were applied, in order.
    pub ops: Seq<CanvasOpView>,
    /// The positions, in the run, of the commands that were refused.
    pub skipped: Seq<usize>,
}

/// The outcome of applying commands one after the other, each to the state
/// that the one before it left. A command that is refused is skipped: it
/// changes nothing and asks for nothing, and the run goes on after it.
pub open spec fn run_of(st: DisplayStateView, cmds: Seq<CommandView>) -> Outcome
    decreases cmds.len(),
{
    if cmds.len() == 0 {
        Outcome { state: st, ops: Seq::empty(), skipped: Seq::empty() }
    } else {
        let before = run_of(st, cmds.drop_last());
        match step(before.state, cmds.last()) {
            Ok((next, ops)) => Outcome {
                state: next,
                ops: before.ops + ops,
                skipped: before.skipped,
            },
            Err(_) => Outcome {
                skipped: before.skipped.push((cmds.len() - 1) as usize),
                ..before
            },
        }
    }
}

impl DisplayState {
    /// Every state has a full palette and colours in range.
    pub proof fn lemma_wf(self)
        ensures
            self@.wf(),
    {
        assert forall|i: int| 0 <= i < 16 implies self@.palette[i] < 64 by {
            self.palette@[i].lemma_in_range();
        }
        self.fill_color.lemma_in_range();
        self.color.lemma_in_range();
        self.background.lemma_in_range();
    }

    /// The active viewport, as its two corners.
    pub fn viewport(&self) -> (r: (XY, XY))
        ensures
            r == self@.viewport,
    {
        self.viewport
    }

    /// The text window, as its two corners.
    pub fn text_window(&self) -> (r: (XY, XY))
        ensures
            r == self@.text_window,
    {
        self.text_window
    }

    /// Whether text wraps at the edge of the text window.
    pub fn text_wrap(&self) -> (r: bool)
        ensures
            r == self@.text_wrap,
    {
        self.text_wrap
    }

    /// The cell size of the text window.
    pub fn text_size(&self) -> (r: FontSize)
        ensures
            r == self@.text_size,
    {
        self.text_size
    }

    /// The hardware colour behind a palette index.
    pub fn palette_entry(&self, index: PaletteColor) -> (r: EGAColor)
        ensures
            r@ == self@.palette[index@ as int],
    {
        self.palette[index.value() as usize]
    }

    /// The displayable colour behind a palette index.
    pub fn resolve(&self, index: PaletteColor) -> (r: Rgb)
        ensures
            r == self@.resolve(index@),
    {
        Rgb::from(self.palette_entry(index))
    }

    /// The text cursor.
    pub fn cursor(&self) -> (r: XY)
        ensures
            r == self@.cursor,
    {
        self.cursor
    }

    /// The current write mode.
    pub fn write_mode(&self) -> (r: WriteMode)
        ensures
            r == self@.write_mode,
    {
        self.write_mode
    }

    /// The current line style, pattern and thickness.
    pub fn line(&self) -> (r: (LineStyle, u16, u32))
        ensures
            r == (self@.line_style, self@.line_pattern, self@.line_thickness),
    {
        (self.line_style, self.line_pattern, self.line_thickness)
    }

    /// The current fill pattern and its colour.
    pub fn fill(&self) -> (r: (FillPattern, PaletteColor))
        ensures
            r.0 == self@.fill_pattern,
            r.1@ == self@.fill_color,
    {
        (self.fill_pattern, self.fill_color)
    }

    /// The current drawing colour.
    pub fn color(&self) -> (r: PaletteColor)
        ensures
            r@ == self@.color,
    {
        self.color
    }

    /// The current background colour.
    pub fn background(&self) -> (r: PaletteColor)
        ensures
            r@ == self@.background,
    {
        self.background
    }
}

/// The interpreter: it owns the display state and turns each command into
/// a change of that state and a list of requests to the canvas.
#[derive(Debug)]
pub struct CommandHandler {
    state: DisplayState,
}

impl View for CommandHandler {
    type V = DisplayStateView;

    closed spec fn view(&self) -> DisplayStateView {
        self.state@
    }
}

impl CommandHandler {
    /// An interpreter at the start of a session.
    pub fn new() -> (handler: Self)
        ensures
            handler@ == initial_state(),
    {
        CommandHandler { state: DisplayState::new() }
    }

    /// The display state as it stands.
    pub fn state(&self) -> (st: &DisplayState)
        ensures
            st@ == self@,
    {
        &self.state
    }

    /// The requests that clear the surface to the background colour.
    fn clear(&self) -> (ops: Vec<CanvasOp>)
        ensures
            op_views(ops@) == clear_ops(self@),
    {
        let mut ops: Vec<CanvasOp> = Vec::new();
        ops.push(CanvasOp::Clear { color: self.state.resolve(self.state.background) });
        ops.push(CanvasOp::Present);
        proof {
            assert(op_views(ops@) =~= clear_ops(self@));
        }
        ops
    }

    /// The request that gives the surface the size of a rectangle.
    fn resize(corners: (XY, XY)) -> (ops: Vec<CanvasOp>)
        requires
            ordered(corners),
        ensures
            op_views(ops@) == seq![resize_op(corners)],
    {
        let mut ops: Vec<CanvasOp> = Vec::new();
        ops.push(
            CanvasOp::CreateOrResize {
                width: corners.1.x - corners.0.x,
                height: corners.1.y - corners.0.y,
            },
        );
        proof {
            assert(op_views(ops@) =~= seq![resize_op(corners)]);
        }
        ops
    }

    /// No request at all.
    fn nothing() -> (ops: Vec<CanvasOp>)
        ensures
            op_views(ops@) == Seq::<CanvasOpView>::empty(),
    {
        let ops: Vec<CanvasOp> = Vec::new();
        proof {
            assert(op_views(ops@) =~= Seq::<CanvasOpView>::empty());
        }
        ops
    }

    /// Makes the rectangle from (`x0`, `y0`) to (`x1`, `y1`) the viewport
    /// and sizes the surface to it. A rectangle whose second corner lies
    /// before its first is refused and changes nothing.
    pub fn viewport(&mut self, x0: u32, y0: u32, x1: u32, y1: u32) -> (r: Result<
        Vec<CanvasOp>,
        InterpretError,
    >)
        ensures
            applied(
                old(self)@,
                (CommandView::Viewport { corners: (XY { x: x0, y: y0 }, XY { x: x1, y: y1 }) }),
                final(self)@,
                r,
            ),
    {
        if x1 < x0 || y1 < y0 {
            return Err(InterpretError::InvalidGeometry);
        }
        let corners = (XY { x: x0, y: y0 }, XY { x: x1, y: y1 });
        self.state.viewport = corners;
        Ok(Self::resize(corners))
    }

    /// Makes a rectangle the text window, with its wrapping and cell size,
    /// and sizes the surface to it. A rectangle whose second corner lies
    /// before its first is refused and changes nothing.
    pub fn text_window(&mut self, corners: (XY, XY), wrap: bool, size: FontSize) -> (r: Result<
        Vec<CanvasOp>,
        InterpretError,
    >)
        ensures
            applied(
                old(self)@,
                (CommandView::TextWindow { corners, wrap, size }),
                final(self)@,
                r,
            ),
    {
        if corners.1.x < corners.0.x || corners.1.y < corners.0.y {
            return Err(InterpretError::InvalidGeometry);
        }
        self.state.text_window = corners;
        self.state.text_wrap = wrap;
        self.state.text_size = size;
        Ok(Self::resize(corners))
    }

    /// Restores the full-screen viewport, then clears it.
    pub fn reset_windows(&mut self) -> (ops: Vec<CanvasOp>)
        ensures
            step(old(self)@, CommandView::ResetWindows) == Ok::<_, InterpretError>(
                (final(self)@, op_views(ops@)),
            ),
    {
        let corners = (XY { x: 0, y: 0 }, XY { x: SCREEN_WIDTH, y: SCREEN_HEIGHT });
        self.state.viewport = corners;
        let mut ops = Self::resize(corners);
        let mut clearing = self.clear();
        let ghost first = op_views(ops@);
        let ghost second = op_views(clearing@);
        ops.append(&mut clearing);
        proof {
            assert(op_views(ops@) =~= first + second);
        }
        ops
    }

    /// Clears the text window to the background colour.
    pub fn erase_window(&mut self) -> (ops: Vec<CanvasOp>)
        ensures
            step(old(self)@, CommandView::EraseWindow) == Ok::<_, InterpretError>(
                (final(self)@, op_views(ops@)),
            ),
    {
        self.clear()
    }

    /// Clears the viewport to the background colour.
    pub fn erase_view(&mut self) -> (ops: Vec<CanvasOp>)
        ensures
            step(old(self)@, CommandView::EraseView) == Ok::<_, InterpretError>(
                (final(self)@, op_views(ops@)),
            ),
    {
        self.clear()
    }

    /// Asks the canvas for the shape of a drawing command, in the current
    /// colour and write mode; asks for nothing where the command draws no
    /// shape. The state is only read.
    pub fn draw(&self, cmd: &Command) -> (r: Result<Vec<CanvasOp>, InterpretError>)
        ensures
            match drawing_of(self@, cmd@) {
                Ok(ops) => r is Ok && op_views(r->Ok_0@) == ops,
                Err(e) => r is Err && r->Err_0 == e,
            },
    {
        if !draws(cmd) {
            return Ok(Self::nothing());
        }
        match place(cmd, self.state.viewport.0) {
            Some(primitive) => {
                let mut ops: Vec<CanvasOp> = Vec::new();
                ops.push(
                    CanvasOp::Draw {
                        primitive,
                        color: self.state.resolve(self.state.color),
                        mode: self.state.write_mode,
                    },
                );
                proof {
                    assert(op_views(ops@) =~= drawing_of(self@, cmd@)->Ok_0);
                }
                Ok(ops)
            },
            None => Err(InterpretError::InvalidGeometry),
        }
    }

    /// Applies one command: changes the state as the command says and
    /// returns the requests to hand to the canvas, in order. A command that
    /// is refused changes nothing.
    pub fn apply(&mut self, cmd: Command) -> (r: Result<Vec<CanvasOp>, InterpretError>)
        ensures
            applied(old(self)@, cmd@, final(self)@, r),
    {
        self.perform(&cmd)
    }

    /// Applies a command that the caller keeps.
    pub fn perform(&mut self, cmd: &Command) -> (r: Result<Vec<CanvasOp>, InterpretError>)
        ensures
            applied(old(self)@, cmd@, final(self)@, r),
    {
        match cmd {
            Command::ResetWindows => Ok(self.reset_windows()),
            Command::EraseWindow => Ok(self.erase_window()),
            Command::EraseView => Ok(self.erase_view()),
            Command::Viewport { corners } => self.viewport(
                corners.0.x,
                corners.0.y,
                corners.1.x,
                corners.1.y,
            ),
            Command::TextWindow { corners, wrap, size } => self.text_window(*corners, *wrap, *size),
            Command::Gotoxy(p) => {
                self.state.cursor = *p;
                Ok(Self::nothing())
            },
            Command::Home => {
                self.state.cursor = XY { x: 0, y: 0 };
                Ok(Self::nothing())
            },
            Command::Color { color } => {
                self.state.color = *color;
                Ok(Self::nothing())
            },
            Command::SetPalette { c } => {
                self.state.palette = *c;
                Ok(Self::nothing())
            },
            Command::OnePalette { color, value } => {
                let ghost before = self.state.palette@;
                self.state.palette[color.value() as usize] = *value;
                proof {
                    color.lemma_in_range();
                    assert(palette_view(self.state.palette@) =~= palette_view(before).update(
                        color@ as int,
                        value@,
                    ));
                }
                Ok(Self::nothing())
            },
            Command::WriteMode { mode } => {
                self.state.write_mode = *mode;
                Ok(Self::nothing())
            },
            Command::LineStyle { style, user_pat, thick } => {
                self.state.line_style = *style;
                self.state.line_pattern = *user_pat;
                self.state.line_thickness = *thick;
                Ok(Self::nothing())
            },
            Command::FillStyle { pattern, color } => {
                self.state.fill_pattern = *pattern;
                self.state.fill_color = *color;
                Ok(Self::nothing())
            },
            other => self.draw(other),
        }
    }

    /// Applies the commands of a batch in order and returns all requests to
    /// the canvas, in order, with the positions of the commands that were
    /// refused.
    pub fn run(&mut self, cmds: Vec<Command>) -> (r: (Vec<CanvasOp>, Vec<usize>))
        ensures
            run_of(old(self)@, views(cmds@)) == (Outcome {
                state: final(self)@,
                ops: op_views(r.0@),
                skipped: r.1@,
            }),
    {
        let mut ops: Vec<CanvasOp> = Vec::new();
        let mut skipped: Vec<usize> = Vec::new();
        let ghost start = self@;
        let ghost all = views(cmds@);
        proof {
            assert(op_views(ops@) =~= Seq::<CanvasOpView>::empty());
            assert(all.take(0) =~= Seq::<CommandView>::empty());
        }
        let mut i: usize = 0;
        while i < cmds.len()
            invariant
                i <= cmds.len(),
                all == views(cmds@),
                run_of(start, all.take(i as int)) == (Outcome {
                    state: self@,
                    ops: op_views(ops@),
                    skipped: skipped@,
                }),
            decreases cmds.len() - i,
        {
            let ghost before = op_views(ops@);
            proof {
                assert(all.take(i + 1).drop_last() =~= all.take(i as int));
                assert(all.take(i + 1).last() == cmds@[i as int]@);
            }
            match self.perform(&cmds[i]) {
                Ok(mut more) => {
                    let ghost added = op_views(more@);
                    ops.append(&mut more);
                    proof {
                        assert(op_views(ops@) =~= before + added);
                    }
                },
                Err(_) => {
                    skipped.push(i);
                },
            }
            i = i + 1;
        }
        proof {
            assert(all.take(cmds@.len() as int) =~= all);
        }
        (ops, skipped)
    }
}

} // verus!
