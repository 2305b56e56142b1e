//! The closed set of commands and its mathematical model.

use vstd::prelude::*;
use crate::flags::{ButtonFlags, ButtonStyleFlags, ButtonStyleFlags2, DefineFlags, FlagSet};
use crate::structs::{
    BlockMode, EGAColor, FileQueryMode, FileType, FillPattern, Font, FontDirection, FontSize,
    LabelOrientation, LineStyle, PaletteColor, PasteMode, Protocol, QueryMode, WriteMode, XY,
};

verus! {

/// One decoded protocol command with the fields needed to apply it.
#[allow(inconsistent_fields)]
#[derive(Debug, PartialEq, Eq)]
pub enum Command {
    /// Sets the text window, its wrapping and its cell size.
    TextWindow {
        corners: (XY, XY),
        wrap: bool,
        size: FontSize,
    },
    /// Sets the graphics viewport.
    Viewport {
        corners: (XY, XY),
    },
    /// Restores the full-screen viewport and clears it.
    ResetWindows,
    /// Clears the text window.
    EraseWindow,
    /// Clears the graphics viewport.
    EraseView,
    /// Moves the text cursor.
    Gotoxy(XY),
    /// Moves the text cursor to the origin.
    Home,
    /// Erases from the text cursor to the end of its line.
    EraseEol,
    /// Selects the drawing colour.
    Color {
        color: PaletteColor,
    },
    /// Replaces the whole palette table.
    SetPalette {
        c: [EGAColor; 16],
    },
    /// Replaces one palette entry.
    OnePalette {
        color: PaletteColor,
        value: EGAColor,
    },
    /// Selects how drawn pixels combine with the surface.
    WriteMode {
        mode: WriteMode,
    },
    /// Moves the drawing position.
    Move(XY),
    /// Draws text at the drawing position.
    Text {
        text_string: String,
    },
    /// Draws text at a given position.
    TextXy {
        position: XY,
        text: String,
    },
    /// Selects the typeface and direction of drawn text.
    FontStyle {
        font: Font,
        direction: FontDirection,
    },
    /// Draws one pixel.
    Pixel {
        position: XY,
    },
    /// Draws a line between two points.
    Line {
        ends: (XY, XY),
    },
    /// Draws the outline of a rectangle.
    Rectangle {
        corners: (XY, XY),
    },
    /// Draws a filled rectangle.
    Bar {
        corners: (XY, XY),
    },
    /// Draws a circle.
    Circle {
        center: XY,
        radius: u32,
    },
    /// Draws an elliptical arc.
    Oval {
        center: XY,
        start_angle: u32,
        end_angle: u32,
        rad: XY,
    },
    /// Draws a filled ellipse.
    FilledOval {
        center: XY,
        rad: XY,
    },
    /// Draws a circular arc.
    Arc {
        center: XY,
        start_angle: u32,
        end_angle: u32,
        radius: u32,
    },
    /// Draws an elliptical arc.
    OvalArc {
        center: XY,
        start_angle: u32,
        end_angle: u32,
        rad: XY,
    },
    /// Draws a filled circular sector.
    PieSlice {
        center: XY,
        start_angle: u32,
        end_angle: u32,
        radius: u32,
    },
    /// Draws a filled elliptical sector.
    OvalPieSlice {
        center: XY,
        start_angle: u32,
        end_angle: u32,
        rad: XY,
    },
    /// Draws a cubic curve through four control points.
    Bezier {
        control_points: [XY; 4],
        cnt: u32,
    },
    /// Draws the outline of a closed polygon.
    Polygon {
        npoints: u32,
        points: Vec<XY>,
    },
    /// Draws a filled polygon.
    FillPolygon {
        npoints: u32,
        points: Vec<XY>,
    },
    /// Draws an open chain of line segments.
    Polyline {
        npoints: u32,
        points: Vec<XY>,
    },
    /// Flood-fills from a point up to a border colour.
    Fill {
        start: XY,
        border: EGAColor,
    },
    /// Selects the dash pattern and thickness of lines.
    LineStyle {
        style: LineStyle,
        user_pat: u16,
        thick: u32,
    },
    /// Selects a predefined fill pattern and its colour.
    FillStyle {
        pattern: FillPattern,
        color: PaletteColor,
    },
    /// Selects a custom fill pattern and its colour.
    FillPattern {
        data: [u8; 8],
        color: PaletteColor,
    },
    /// Defines a clickable region.
    Mouse {
        num: u32,
        corners: (XY, XY),
        clk: bool,
        clr: bool,
        text: String,
    },
    /// Removes every clickable region.
    KillMouseFields,
    /// Opens a formatted text region.
    BeginText {
        corners: (XY, XY),
    },
    /// Adds a line to the open text region.
    RegionText {
        justify: bool,
        text: String,
    },
    /// Closes the open text region.
    EndText,
    /// Copies a rectangle of the surface to the clipboard.
    GetImage {
        corners: (XY, XY),
    },
    /// Pastes the clipboard onto the surface.
    PutImage {
        position: XY,
        mode: PasteMode,
    },
    /// Saves the clipboard to an icon file.
    WriteIcon {
        filename: String,
    },
    /// Pastes an icon file onto the surface.
    LoadIcon {
        position: XY,
        mode: PasteMode,
        clipboard: bool,
        filename: String,
    },
    /// Sets the look of the buttons that follow.
    ButtonStyle {
        dimensions: XY,
        orient: LabelOrientation,
        flags: FlagSet<ButtonStyleFlags>,
        bevsize: u32,
        dfore: PaletteColor,
        dback: PaletteColor,
        bright: PaletteColor,
        dark: PaletteColor,
        surface: PaletteColor,
        grp_no: u32,
        flags2: FlagSet<ButtonStyleFlags2>,
        uline_color: PaletteColor,
        corner_color: PaletteColor,
    },
    /// Places a button.
    Button {
        corners: (XY, XY),
        hotkey: u8,
        flags: FlagSet<ButtonFlags>,
        icon_file: Option<String>,
        text_label: Option<String>,
        host_command: Option<String>,
    },
    /// Defines a text variable.
    Define {
        flags: FlagSet<DefineFlags>,
        variable_identifier: String,
        field_width: u32,
        question_text: String,
        default: String,
    },
    /// Asks for the contents of a text variable.
    Query {
        mode: QueryMode,
        text: String,
    },
    /// Copies a band of the surface to another line.
    CopyRegion {
        corners: (XY, XY),
        dest_line: u32,
    },
    /// Plays back a scene file.
    ReadScene {
        filename: String,
    },
    /// Asks whether a file exists.
    FileQuery {
        mode: FileQueryMode,
        filename: String,
    },
    /// Starts a block transfer.
    EnterBlockMode {
        mode: BlockMode,
        proto: Protocol,
        file_type: FileType,
        filename: String,
    },
    /// Marks the end of a scene.
    NoMore,
    /// Stands for protocol text that was not understood.
    Unknown,
}

/// What a [`Command`] stands for: the same variants, with every container
/// replaced by the sequence or set it holds and every colour by its number.
#[allow(inconsistent_fields)]
pub enum CommandView {
    TextWindow {
        corners: (XY, XY),
        wrap: bool,
        size: FontSize,
    },
    Viewport {
        corners: (XY, XY),
    },
    ResetWindows,
    EraseWindow,
    EraseView,
    Gotoxy(XY),
    Home,
    EraseEol,
    Color {
        color: nat,
    },
    SetPalette {
        c: Seq<nat>,
    },
    OnePalette {
        color: nat,
        value: nat,
    },
    WriteMode {
        mode: WriteMode,
    },
    Move(XY),
    Text {
        text_string: Seq<char>,
    },
    TextXy {
        position: XY,
        text: Seq<char>,
    },
    FontStyle {
        font: Font,
        direction: FontDirection,
    },
    Pixel {
        position: XY,
    },
    Line {
        ends: (XY, XY),
    },
    Rectangle {
        corners: (XY, XY),
    },
    Bar {
        corners: (XY, XY),
    },
    Circle {
        center: XY,
        radius: u32,
    },
    Oval {
        center: XY,
        start_angle: u32,
        end_angle: u32,
        rad: XY,
    },
    FilledOval {
        center: XY,
        rad: XY,
    },
    Arc {
        center: XY,
        start_angle: u32,
        end_angle: u32,
        radius: u32,
    },
    OvalArc {
        center: XY,
        start_angle: u32,
        end_angle: u32,
        rad: XY,
    },
    PieSlice {
        center: XY,
        start_angle: u32,
        end_angle: u32,
        radius: u32,
    },
    OvalPieSlice {
        center: XY,
        start_angle: u32,
        end_angle: u32,
        rad: XY,
    },
    Bezier {
        control_points: Seq<XY>,
        cnt: u32,
    },
    Polygon {
        npoints: u32,
        points: Seq<XY>,
    },
    FillPolygon {
        npoints: u32,
        points: Seq<XY>,
    },
    Polyline {
        npoints: u32,
        points: Seq<XY>,
    },
    Fill {
        start: XY,
        border: nat,
    },
    LineStyle {
        style: LineStyle,
        user_pat: u16,
        thick: u32,
    },
    FillStyle {
        pattern: FillPattern,
        color: nat,
    },
    FillPattern {
        data: Seq<u8>,
        color: nat,
    },
    Mouse {
        num: u32,
        corners: (XY, XY),
        clk: bool,
        clr: bool,
        text: Seq<char>,
    },
    KillMouseFields,
    BeginText {
        corners: (XY, XY),
    },
    RegionText {
        justify: bool,
        text: Seq<char>,
    },
    EndText,
    GetImage {
        corners: (XY, XY),
    },
    PutImage {
        position: XY,
        mode: PasteMode,
    },
    WriteIcon {
        filename: Seq<char>,
    },
    LoadIcon {
        position: XY,
        mode: PasteMode,
        clipboard: bool,
        filename: Seq<char>,
    },
    ButtonStyle {
        dimensions: XY,
        orient: LabelOrientation,
        flags: Set<ButtonStyleFlags>,
        bevsize: u32,
        dfore: nat,
        dback: nat,
        bright: nat,
        dark: nat,
        surface: nat,
        grp_no: u32,
        flags2: Set<ButtonStyleFlags2>,
        uline_color: nat,
        corner_color: nat,
    },
    Button {
        corners: (XY, XY),
        hotkey: u8,
        flags: Set<ButtonFlags>,
        icon_file: Option<Seq<char>>,
        text_label: Option<Seq<char>>,
        host_command: Option<Seq<char>>,
    },
    Define {
        flags: Set<DefineFlags>,
        variable_identifier: Seq<char>,
        field_width: u32,
        question_text: Seq<char>,
        default: Seq<char>,
    },
    Query {
        mode: QueryMode,
        text: Seq<char>,
    },
    CopyRegion {
        corners: (XY, XY),
        dest_line: u32,
    },
    ReadScene {
        filename: Seq<char>,
    },
    FileQuery {
        mode: FileQueryMode,
        filename: Seq<char>,
    },
    EnterBlockMode {
        mode: BlockMode,
        proto: Protocol,
        file_type: FileType,
        filename: Seq<char>,
    },
    NoMore,
    Unknown,
}

/// The numbers of a palette table's entries, in index order.
pub open spec fn palette_view(entries: Seq<EGAColor>) -> Seq<nat> {
    Seq::new(entries.len(), |i: int| entries[i]@)
}

/// The characters of an optional text.
pub open spec fn text_view(text: Option<String>) -> Option<Seq<char>> {
    match text {
        Some(s) => Some(s@),
        None => None,
    }
}

impl View for Command {
    type V = CommandView;

    open spec fn view(&self) -> CommandView {
        match *self {
            Command::TextWindow { corners, wrap, size } => CommandView::TextWindow { corners, wrap, size },
            Command::Viewport { corners } => CommandView::Viewport { corners },
            Command::ResetWindows => CommandView::ResetWindows,
            Command::EraseWindow => CommandView::EraseWindow,
            Command::EraseView => CommandView::EraseView,
            Command::Gotoxy(p) => CommandView::Gotoxy(p),
            Command::Home => CommandView::Home,
            Command::EraseEol => CommandView::EraseEol,
            Command::Color { color } => CommandView::Color { color: color@ },
            Command::SetPalette { c } => CommandView::SetPalette { c: palette_view(c@) },
            Command::OnePalette { color, value } => CommandView::OnePalette { color: color@, value: value@ },
            Command::WriteMode { mode } => CommandView::WriteMode { mode },
            Command::Move(p) => CommandView::Move(p),
            Command::Text { text_string } => CommandView::Text { text_string: text_string@ },
            Command::TextXy { position, text } => CommandView::TextXy { position, text: text@ },
            Command::FontStyle { font, direction } => CommandView::FontStyle { font, direction },
            Command::Pixel { position } => CommandView::Pixel { position },
            Command::Line { ends } => CommandView::Line { ends },
            Command::Rectangle { corners } => CommandView::Rectangle { corners },
            Command::Bar { corners } => CommandView::Bar { corners },
            Command::Circle { center, radius } => CommandView::Circle { center, radius },
            Command::Oval { center, start_angle, end_angle, rad } => CommandView::Oval { center, start_angle, end_angle, rad },
            Command::FilledOval { center, rad } => CommandView::FilledOval { center, rad },
            Command::Arc { center, start_angle, end_angle, radius } => CommandView::Arc { center, start_angle, end_angle, radius },
            Command::OvalArc { center, start_angle, end_angle, rad } => CommandView::OvalArc { center, start_angle, end_angle, rad },
            Command::PieSlice { center, start_angle, end_angle, radius } => CommandView::PieSlice { center, start_angle, end_angle, radius },
            Command::OvalPieSlice { center, start_angle, end_angle, rad } => CommandView::OvalPieSlice { center, start_angle, end_angle, rad },
            Command::Bezier { control_points, cnt } => CommandView::Bezier { control_points: control_points@, cnt },
            Command::Polygon { npoints, points } => CommandView::Polygon { npoints, points: points@ },
            Command::FillPolygon { npoints, points } => CommandView::FillPolygon { npoints, points: points@ },
            Command::Polyline { npoints, points } => CommandView::Polyline { npoints, points: points@ },
            Command::Fill { start, border } => CommandView::Fill { start, border: border@ },
            Command::LineStyle { style, user_pat, thick } => CommandView::LineStyle { style, user_pat, thick },
            Command::FillStyle { pattern, color } => CommandView::FillStyle { pattern, color: color@ },
            Command::FillPattern { data, color } => CommandView::FillPattern { data: data@, color: color@ },
            Command::Mouse { num, corners, clk, clr, text } => CommandView::Mouse { num, corners, clk, clr, text: text@ },
            Command::KillMouseFields => CommandView::KillMouseFields,
            Command::BeginText { corners } => CommandView::BeginText { corners },
            Command::RegionText { justify, text } => CommandView::RegionText { justify, text: text@ },
            Command::EndText => CommandView::EndText,
            Command::GetImage { corners } => CommandView::GetImage { corners },
            Command::PutImage { position, mode } => CommandView::PutImage { position, mode },
            Command::WriteIcon { filename } => CommandView::WriteIcon { filename: filename@ },
            Command::LoadIcon { position, mode, clipboard, filename } => CommandView::LoadIcon { position, mode, clipboard, filename: filename@ },
            Command::ButtonStyle { dimensions, orient, flags, bevsize, dfore, dback, bright, dark, surface, grp_no, flags2, uline_color, corner_color } => CommandView::ButtonStyle { dimensions, orient, flags: flags@, bevsize, dfore: dfore@, dback: dback@, bright: bright@, dark: dark@, surface: surface@, grp_no, flags2: flags2@, uline_color: uline_color@, corner_color: corner_color@ },
            Command::Button { corners, hotkey, flags, icon_file, text_label, host_command } => CommandView::Button { corners, hotkey, flags: flags@, icon_file: text_view(icon_file), text_label: text_view(text_label), host_command: text_view(host_command) },
            Command::Define { flags, variable_identifier, field_width, question_text, default } => CommandView::Define { flags: flags@, variable_identifier: variable_identifier@, field_width, question_text: question_text@, default: default@ },
            Command::Query { mode, text } => CommandView::Query { mode, text: text@ },
            Command::CopyRegion { corners, dest_line } => CommandView::CopyRegion { corners, dest_line },
            Command::ReadScene { filename } => CommandView::ReadScene { filename: filename@ },
            Command::FileQuery { mode, filename } => CommandView::FileQuery { mode, filename: filename@ },
            Command::EnterBlockMode { mode, proto, file_type, filename } => CommandView::EnterBlockMode { mode, proto, file_type, filename: filename@ },
            Command::NoMore => CommandView::NoMore,
            Command::Unknown => CommandView::Unknown,
        }
    }
}

} // verus!
