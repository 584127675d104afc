//! What the gauge draws: the fixed parts of the screen, drawn once, and the
//! two gauge values, redrawn on every display tick.

use vstd::prelude::*;

use crate::constants::display_config::{
    BORDER_MARGIN_X, BORDER_MARGIN_Y, DISPLAY_HEIGHT, DISPLAY_WIDTH, DIVIDER_Y, GAUGE_FONT_HEIGHT,
    GAUGE_NAME_X, GAUGE_VALUE_WIDTH, GAUGE_VALUE_X, ROW_0_Y, ROW_1_Y,
};
use crate::constants::LAST_RECEIVED_THRESHOLD_MS;
use crate::text::{
    all_digits, decimal_chars, decimal_value, empty_value_text, lemma_decimal_is_numeral, value_text,
    GaugeText, EMPTY_VALUE,
};

verus! {

/// A pixel position; `y` grows downwards.
#[derive(Clone, Copy, Debug, PartialEq, Eq, Structural)]
pub struct Point {
    pub x: i32,
    pub y: i32,
}

/// A width and a height, in pixels.
#[derive(Clone, Copy, Debug, PartialEq, Eq, Structural)]
pub struct Size {
    pub width: u32,
    pub height: u32,
}

/// An axis-aligned rectangle given by its top-left corner and its size.
#[derive(Clone, Copy, Debug, PartialEq, Eq, Structural)]
pub struct Rect {
    pub top_left: Point,
    pub size: Size,
}

/// The colours that the gauge uses.
#[derive(Clone, Copy, Debug, PartialEq, Eq, Structural)]
pub enum Color {
    Black,
    White,
    Orange,
}

/// A colour as the panel's RGB565 components, red and blue on five bits and
/// green on six.
#[derive(Clone, Copy, Debug, PartialEq, Eq, Structural)]
pub struct Rgb565Value {
    pub r: u8,
    pub g: u8,
    pub b: u8,
}

/// The RGB565 components of each colour, in the order the panel driver's
/// `Rgb565::new` takes them; orange is the triple (0, 33, 31).
pub open spec fn color_components(c: Color) -> Rgb565Value {
    match c {
        Color::Black => Rgb565Value { r: 0, g: 0, b: 0 },
        Color::White => Rgb565Value { r: 31, g: 63, b: 31 },
        Color::Orange => Rgb565Value { r: 0, g: 33, b: 31 },
    }
}

/// The RGB565 components of `c`.
pub fn color_rgb565(c: Color) -> (rgb: Rgb565Value)
    ensures
        rgb == color_components(c),
{
    match c {
        Color::Black => Rgb565Value { r: 0, g: 0, b: 0 },
        Color::White => Rgb565Value { r: 31, g: 63, b: 31 },
        Color::Orange => Rgb565Value { r: 0, g: 33, b: 31 },
    }
}

/// The monospace fonts the gauge uses.
#[derive(Clone, Copy, Debug, PartialEq, Eq, Structural)]
pub enum MonoFont {
    /// ASCII glyphs in cells 10 pixels wide and 20 high.
    Font10x20,
}

/// Width and height of a character cell of `font`.
pub open spec fn font_cell(font: MonoFont) -> (u32, u32) {
    match font {
        MonoFont::Font10x20 => (10, 20),
    }
}

/// Width and height of a character cell of `font`.
pub fn font_character_size(font: MonoFont) -> (size: (u32, u32))
    ensures
        size == font_cell(font),
{
    match font {
        MonoFont::Font10x20 => (10, 20),
    }
}

/// How a text is drawn: its font, its colour, and the colour of the cells
/// behind the glyphs (`None`: transparent, the pixels there are kept).
#[derive(Clone, Copy, Debug, PartialEq, Eq, Structural)]
pub struct TextStyle {
    pub font: MonoFont,
    pub text_color: Color,
    pub background: Option<Color>,
}

/// The style of every text of the gauge: the 10x20 font in `color`, on a
/// transparent background.
pub open spec fn gauge_text_style(color: Color) -> TextStyle {
    TextStyle { font: MonoFont::Font10x20, text_color: color, background: None }
}

/// The style of every text of the gauge: the 10x20 font in `color`, on a
/// transparent background.
pub fn text_style(color: Color) -> (style: TextStyle)
    ensures
        style == gauge_text_style(color),
{
    TextStyle { font: MonoFont::Font10x20, text_color: color, background: None }
}

/// The fixed texts of the screen.
#[derive(Clone, Copy, Debug, PartialEq, Eq, Structural)]
pub enum Label {
    Title,
    OilPressureName,
    OilTempName,
    OilPressurePlaceholder,
    OilTempPlaceholder,
}

/// One drawing operation on the fixed parts of the screen. Texts use the
/// 10x20 monospace font, positioned by the left end of their baseline.
#[derive(Clone, Copy, Debug, PartialEq, Eq, Structural)]
pub enum DrawCommand {
    /// Fill the whole screen.
    Clear(Color),
    /// Draw the outline of a rectangle.
    StrokeRect { rect: Rect, color: Color, stroke_width: u32 },
    /// Draw a straight line.
    StrokeLine { start: Point, end: Point, color: Color, stroke_width: u32 },
    /// Draw a fixed text.
    Text { label: Label, position: Point, style: TextStyle },
}

/// The redraw of one gauge value: fill `clear` with `fill` (no outline), then
/// draw `text` at `position` in `style`.
pub struct ValueUpdate {
    pub clear: Rect,
    pub fill: Color,
    pub text: GaugeText,
    pub position: Point,
    pub style: TextStyle,
}

/// The values the gauge shows, with the time, in milliseconds, at which each
/// was last received; `u32::MAX` marks a value never received.
#[derive(Clone, Copy, Debug, PartialEq, Eq, Structural)]
pub struct GaugeReadings {
    pub oil_temp_f: u16,
    pub oil_temp_last_rcvd_ms: u32,
    pub oil_pressure_psi: u16,
    pub oil_pressure_last_rcvd_ms: u32,
}

/// The two gauge redraws of one display tick.
pub struct DisplayFrame {
    pub oil_temp: ValueUpdate,
    pub oil_pressure: ValueUpdate,
}

/// The characters of a fixed label.
pub open spec fn label_chars(label: Label) -> Seq<char> {
    match label {
        Label::Title => "CANBUS Gauge v0.0.1"@,
        Label::OilPressureName => "Oil pressure:"@,
        Label::OilTempName => "Oil temp:"@,
        Label::OilPressurePlaceholder => "--- psi"@,
        Label::OilTempPlaceholder => "--- f"@,
    }
}

/// The text of a fixed label.
pub fn label_text(label: Label) -> (text: &'static str)
    ensures
        text@ == label_chars(label),
{
    match label {
        Label::Title => "CANBUS Gauge v0.0.1",
        Label::OilPressureName => "Oil pressure:",
        Label::OilTempName => "Oil temp:",
        Label::OilPressurePlaceholder => "--- psi",
        Label::OilTempPlaceholder => "--- f",
    }
}

/// Whether a value last received at `last_ms` is too old, or was never
/// received, at time `now_ms`.
pub open spec fn stale(now_ms: u32, last_ms: u32) -> bool {
    last_ms == u32::MAX || now_ms - last_ms > LAST_RECEIVED_THRESHOLD_MS
}

/// Whether `last_ms` marks a value never received or lies no later than `now_ms`.
pub open spec fn time_consistent(now_ms: u32, last_ms: u32) -> bool {
    last_ms == u32::MAX || last_ms <= now_ms
}

/// Whether the value last received at `last_ms` is no longer to be shown at `now_ms`.
pub fn value_is_stale(now_ms: u32, last_ms: u32) -> (res: bool)
    requires
        time_consistent(now_ms, last_ms),
    ensures
        res == stale(now_ms, last_ms),
        res == (last_ms == u32::MAX || now_ms - last_ms > 1000),
{
    last_ms == u32::MAX || now_ms - last_ms > LAST_RECEIVED_THRESHOLD_MS
}

/// A value that is stale stays stale as time goes on, until it is received again.
pub proof fn lemma_stale_persists(now_ms: u32, later_ms: u32, last_ms: u32)
    requires
        time_consistent(now_ms, last_ms),
        now_ms <= later_ms,
        stale(now_ms, last_ms),
    ensures
        stale(later_ms, last_ms),
{
}

/// A value never received is never shown.
pub proof fn lemma_never_received_is_stale(now_ms: u32)
    ensures
        stale(now_ms, u32::MAX),
{
}

/// The characters shown for a value `value` last received at `last_ms`, at `now_ms`.
pub open spec fn shown_chars(now_ms: u32, last_ms: u32, value: u16) -> Seq<char> {
    if stale(now_ms, last_ms) {
        EMPTY_VALUE@
    } else {
        decimal_chars(value as nat)
    }
}

/// A stale or never received value shows as three dashes; any other value, zero
/// included, shows as its decimal numeral.
pub proof fn lemma_shown_chars(now_ms: u32, last_ms: u32, value: u16)
    ensures
        (last_ms == u32::MAX || now_ms - last_ms > 1000) ==> shown_chars(now_ms, last_ms, value)
            == seq!['-', '-', '-'],
        !(last_ms == u32::MAX || now_ms - last_ms > 1000) ==> {
            let s = shown_chars(now_ms, last_ms, value);
            &&& all_digits(s)
            &&& 1 <= s.len()
            &&& decimal_value(s) == value
            &&& s.len() > 1 ==> s[0] != '0'
        },
{
    reveal_strlit("---");
    lemma_decimal_is_numeral(value as nat);
}

/// Whether a reading's reception time is consistent with the clock: exactly
/// when it was never received or was received no later than the 32-bit clock;
/// an old reading is consistent, it is only stale.
pub proof fn lemma_readings_consistent_exactly(now_ms: u64, readings: GaugeReadings)
    ensures
        readings_consistent(now_ms, readings) <==> ((readings.oil_temp_last_rcvd_ms == u32::MAX
            || readings.oil_temp_last_rcvd_ms <= now_ms % 0x1_0000_0000) && (
        readings.oil_pressure_last_rcvd_ms == u32::MAX || readings.oil_pressure_last_rcvd_ms
            <= now_ms % 0x1_0000_0000)),
{
}

/// The blanked box of a value redraw has the given corner and the given width
/// and height, in that order, and the text goes at the given position.
pub proof fn lemma_value_update_geometry(
    u: ValueUpdate,
    text_x: i32,
    text_y: i32,
    bbox_x: i32,
    bbox_y: i32,
    width: u32,
    height: u32,
    chars: Seq<char>,
)
    requires
        is_value_update(u, text_x, text_y, bbox_x, bbox_y, width, height, chars),
    ensures
        u.clear.top_left.x == bbox_x,
        u.clear.top_left.y == bbox_y,
        u.clear.size.width == width,
        u.clear.size.height == height,
        u.position.x == text_x,
        u.position.y == text_y,
        u.text@ == chars,
{
}

/// The text shown for a value `value` last received at `last_ms`, at `now_ms`:
/// the placeholder when the value is stale, the value in decimal otherwise.
pub fn gauge_text(now_ms: u32, last_ms: u32, value: u16) -> (text: GaugeText)
    requires
        time_consistent(now_ms, last_ms),
    ensures
        text@ == shown_chars(now_ms, last_ms, value),
        (last_ms == u32::MAX || now_ms - last_ms > 1000) ==> text@ == seq!['-', '-', '-'],
        !(last_ms == u32::MAX || now_ms - last_ms > 1000) ==> {
            &&& all_digits(text@)
            &&& 1 <= text@.len()
            &&& decimal_value(text@) == value
            &&& text@.len() > 1 ==> text@[0] != '0'
        },
{
    proof {
        lemma_shown_chars(now_ms, last_ms, value);
    }
    if value_is_stale(now_ms, last_ms) {
        empty_value_text()
    } else {
        value_text(value)
    }
}

/// A rectangle from its corner coordinates and size.
pub open spec fn rect(x: i32, y: i32, width: u32, height: u32) -> Rect {
    Rect { top_left: Point { x, y }, size: Size { width, height } }
}

/// Whether `u` blanks the `width` x `height` box at (`bbox_x`, `bbox_y`) in
/// black and then draws the characters `chars` at (`text_x`, `text_y`) in the
/// 10x20 font, white, on a transparent background.
pub open spec fn is_value_update(
    u: ValueUpdate,
    text_x: i32,
    text_y: i32,
    bbox_x: i32,
    bbox_y: i32,
    width: u32,
    height: u32,
    chars: Seq<char>,
) -> bool {
    &&& u.clear == rect(bbox_x, bbox_y, width, height)
    &&& u.fill == Color::Black
    &&& u.text@ == chars
    &&& u.position == (Point { x: text_x, y: text_y })
    &&& u.style == gauge_text_style(Color::White)
}

/// The redraw of a gauge value: blank the box over the previous value, then
/// draw `value` in white.
pub fn update_value(
    text_x: i32,
    text_y: i32,
    bounding_box_x: i32,
    bounding_box_y: i32,
    width: u32,
    height: u32,
    value: GaugeText,
) -> (u: ValueUpdate)
    ensures
        is_value_update(u, text_x, text_y, bounding_box_x, bounding_box_y, width, height, value@),
        u.clear.top_left.x == bounding_box_x,
        u.clear.top_left.y == bounding_box_y,
        u.clear.size.width == width,
        u.clear.size.height == height,
        u.fill == Color::Black,
        u.text@ == value@,
        u.position.x == text_x,
        u.position.y == text_y,
        u.style.font == MonoFont::Font10x20,
        u.style.text_color == Color::White,
        u.style.background is None,
{
    ValueUpdate {
        clear: Rect {
            top_left: Point { x: bounding_box_x, y: bounding_box_y },
            size: Size { width, height },
        },
        fill: Color::Black,
        text: value,
        position: Point { x: text_x, y: text_y },
        style: text_style(Color::White),
    }
}

/// The millisecond clock reduced to 32 bits, as the display compares times.
pub open spec fn clock_ms32(now_ms: u64) -> u32 {
    (now_ms % 0x1_0000_0000) as u32
}

/// Whether both reception times are consistent with the clock `now_ms`.
pub open spec fn readings_consistent(now_ms: u64, readings: GaugeReadings) -> bool {
    &&& time_consistent(clock_ms32(now_ms), readings.oil_temp_last_rcvd_ms)
    &&& time_consistent(clock_ms32(now_ms), readings.oil_pressure_last_rcvd_ms)
}

/// Whether no reception time lies after the clock `now_ms`, reduced to 32 bits.
pub fn readings_are_consistent(now_ms: u64, readings: &GaugeReadings) -> (res: bool)
    ensures
        res == readings_consistent(now_ms, *readings),
        res <==> ((readings.oil_temp_last_rcvd_ms == u32::MAX
            || readings.oil_temp_last_rcvd_ms <= now_ms % 0x1_0000_0000) && (
        readings.oil_pressure_last_rcvd_ms == u32::MAX || readings.oil_pressure_last_rcvd_ms
            <= now_ms % 0x1_0000_0000)),
{
    let now = (now_ms % 0x1_0000_0000u64) as u32;
    (readings.oil_temp_last_rcvd_ms == u32::MAX || readings.oil_temp_last_rcvd_ms <= now)
        && (readings.oil_pressure_last_rcvd_ms == u32::MAX || readings.oil_pressure_last_rcvd_ms <= now)
}

/// The redraws of one display tick at clock `now_ms` (milliseconds since boot):
/// the oil temperature in the first row, the oil pressure in the second, each
/// over a blanked square whose top is one font height above the text baseline.
pub fn display_tick(now_ms: u64, readings: &GaugeReadings) -> (frame: DisplayFrame)
    requires
        readings_consistent(now_ms, *readings),
    ensures
        is_value_update(
            frame.oil_temp,
            GAUGE_VALUE_X,
            ROW_0_Y,
            GAUGE_VALUE_X,
            (ROW_0_Y - GAUGE_FONT_HEIGHT) as i32,
            GAUGE_VALUE_WIDTH,
            GAUGE_VALUE_WIDTH,
            shown_chars(clock_ms32(now_ms), readings.oil_temp_last_rcvd_ms, readings.oil_temp_f),
        ),
        is_value_update(
            frame.oil_pressure,
            GAUGE_VALUE_X,
            ROW_1_Y,
            GAUGE_VALUE_X,
            (ROW_1_Y - GAUGE_FONT_HEIGHT) as i32,
            GAUGE_VALUE_WIDTH,
            GAUGE_VALUE_WIDTH,
            shown_chars(clock_ms32(now_ms), readings.oil_pressure_last_rcvd_ms, readings.oil_pressure_psi),
        ),
        rect_inside(frame.oil_temp.clear, border_rect()),
        rect_inside(frame.oil_pressure.clear, border_rect()),
        frame.oil_temp.clear.top_left.x == GAUGE_VALUE_X,
        frame.oil_temp.clear.top_left.y == ROW_0_Y - GAUGE_FONT_HEIGHT,
        frame.oil_temp.clear.size.width == GAUGE_VALUE_WIDTH,
        frame.oil_temp.clear.size.height == GAUGE_VALUE_WIDTH,
        frame.oil_temp.position.x == GAUGE_VALUE_X,
        frame.oil_temp.position.y == ROW_0_Y,
        frame.oil_pressure.clear.top_left.x == GAUGE_VALUE_X,
        frame.oil_pressure.clear.top_left.y == ROW_1_Y - GAUGE_FONT_HEIGHT,
        frame.oil_pressure.clear.size.width == GAUGE_VALUE_WIDTH,
        frame.oil_pressure.clear.size.height == GAUGE_VALUE_WIDTH,
        frame.oil_pressure.position.x == GAUGE_VALUE_X,
        frame.oil_pressure.position.y == ROW_1_Y,
        ({
            let now = (now_ms % 0x1_0000_0000) as int;
            let last = readings.oil_temp_last_rcvd_ms;
            let s = frame.oil_temp.text@;
            if last == u32::MAX || now - last > 1000 {
                s == seq!['-', '-', '-']
            } else {
                all_digits(s) && 1 <= s.len() && decimal_value(s) == readings.oil_temp_f
                    && (s.len() > 1 ==> s[0] != '0')
            }
        }),
        ({
            let now = (now_ms % 0x1_0000_0000) as int;
            let last = readings.oil_pressure_last_rcvd_ms;
            let s = frame.oil_pressure.text@;
            if last == u32::MAX || now - last > 1000 {
                s == seq!['-', '-', '-']
            } else {
                all_digits(s) && 1 <= s.len() && decimal_value(s) == readings.oil_pressure_psi
                    && (s.len() > 1 ==> s[0] != '0')
            }
        }),
{
    let now = (now_ms % 0x1_0000_0000u64) as u32;
    let oil_temp_str = gauge_text(now, readings.oil_temp_last_rcvd_ms, readings.oil_temp_f);
    let oil_pressure_str = gauge_text(now, readings.oil_pressure_last_rcvd_ms, readings.oil_pressure_psi);
    let oil_temp = update_value(
        GAUGE_VALUE_X,
        ROW_0_Y,
        GAUGE_VALUE_X,
        ROW_0_Y - GAUGE_FONT_HEIGHT as i32,
        GAUGE_VALUE_WIDTH,
        GAUGE_VALUE_WIDTH,
        oil_temp_str,
    );
    let oil_pressure = update_value(
        GAUGE_VALUE_X,
        ROW_1_Y,
        GAUGE_VALUE_X,
        ROW_1_Y - GAUGE_FONT_HEIGHT as i32,
        GAUGE_VALUE_WIDTH,
        GAUGE_VALUE_WIDTH,
        oil_pressure_str,
    );
    DisplayFrame { oil_temp, oil_pressure }
}

/// The border drawn around the screen, inset by the margins.
pub open spec fn border_rect() -> Rect {
    rect(
        BORDER_MARGIN_X as i32,
        BORDER_MARGIN_Y as i32,
        (DISPLAY_WIDTH - 2 * BORDER_MARGIN_X) as u32,
        (DISPLAY_HEIGHT - 2 * BORDER_MARGIN_Y) as u32,
    )
}

/// Whether `inner` lies within `outer`.
pub open spec fn rect_inside(inner: Rect, outer: Rect) -> bool {
    &&& outer.top_left.x <= inner.top_left.x
    &&& outer.top_left.y <= inner.top_left.y
    &&& inner.top_left.x + inner.size.width <= outer.top_left.x + outer.size.width
    &&& inner.top_left.y + inner.size.height <= outer.top_left.y + outer.size.height
}

/// Whether `p` is a pixel of the screen.
pub open spec fn on_screen(p: Point) -> bool {
    0 <= p.x < DISPLAY_WIDTH && 0 <= p.y < DISPLAY_HEIGHT
}

/// Whether everything a command names lies on the screen.
pub open spec fn command_on_screen(cmd: DrawCommand) -> bool {
    match cmd {
        DrawCommand::Clear(_) => true,
        DrawCommand::StrokeRect { rect, .. } => rect_inside(
            rect,
            Rect { top_left: Point { x: 0, y: 0 }, size: Size { width: DISPLAY_WIDTH as u32, height: DISPLAY_HEIGHT as u32 } },
        ),
        DrawCommand::StrokeLine { start, end, .. } => on_screen(start) && on_screen(end),
        DrawCommand::Text { position, .. } => on_screen(position),
    }
}

/// The fixed parts of the screen, in drawing order: black background, white
/// border, orange title, white divider, orange gauge names, white placeholders.
pub open spec fn initial_ui_spec() -> Seq<DrawCommand> {
    seq![
        DrawCommand::Clear(Color::Black),
        DrawCommand::StrokeRect { rect: border_rect(), color: Color::White, stroke_width: 2 },
        DrawCommand::Text { label: Label::Title, position: Point { x: 16, y: 35 }, style: gauge_text_style(Color::Orange) },
        DrawCommand::StrokeLine {
            start: Point { x: BORDER_MARGIN_X as i32, y: DIVIDER_Y },
            end: Point { x: (DISPLAY_WIDTH - BORDER_MARGIN_X) as i32, y: DIVIDER_Y },
            color: Color::White,
            stroke_width: 1,
        },
        DrawCommand::Text {
            label: Label::OilPressureName,
            position: Point { x: GAUGE_NAME_X, y: ROW_0_Y },
            style: gauge_text_style(Color::Orange),
        },
        DrawCommand::Text {
            label: Label::OilTempName,
            position: Point { x: GAUGE_NAME_X, y: ROW_1_Y },
            style: gauge_text_style(Color::Orange),
        },
        DrawCommand::Text {
            label: Label::OilPressurePlaceholder,
            position: Point { x: GAUGE_VALUE_X, y: ROW_0_Y },
            style: gauge_text_style(Color::White),
        },
        DrawCommand::Text {
            label: Label::OilTempPlaceholder,
            position: Point { x: GAUGE_VALUE_X, y: ROW_1_Y },
            style: gauge_text_style(Color::White),
        },
    ]
}

/// The drawing commands for the fixed parts of the screen.
pub fn draw_initial_ui() -> (cmds: [DrawCommand; 8])
    ensures
        cmds@ == initial_ui_spec(),
        forall|i: int| 0 <= i < 8 ==> command_on_screen(#[trigger] cmds@[i]),
{
    let border = Rect {
        top_left: Point { x: BORDER_MARGIN_X as i32, y: BORDER_MARGIN_Y as i32 },
        size: Size {
            width: (DISPLAY_WIDTH - (2 * BORDER_MARGIN_X)) as u32,
            height: (DISPLAY_HEIGHT - (2 * BORDER_MARGIN_Y)) as u32,
        },
    };
    let cmds = [
        DrawCommand::Clear(Color::Black),
        DrawCommand::StrokeRect { rect: border, color: Color::White, stroke_width: 2 },
        DrawCommand::Text { label: Label::Title, position: Point { x: 16, y: 35 }, style: text_style(Color::Orange) },
        DrawCommand::StrokeLine {
            start: Point { x: BORDER_MARGIN_X as i32, y: DIVIDER_Y },
            end: Point { x: (DISPLAY_WIDTH - BORDER_MARGIN_X) as i32, y: DIVIDER_Y },
            color: Color::White,
            stroke_width: 1,
        },
        DrawCommand::Text {
            label: Label::OilPressureName,
            position: Point { x: GAUGE_NAME_X, y: ROW_0_Y },
            style: text_style(Color::Orange),
        },
        DrawCommand::Text {
            label: Label::OilTempName,
            position: Point { x: GAUGE_NAME_X, y: ROW_1_Y },
            style: text_style(Color::Orange),
        },
        DrawCommand::Text {
            label: Label::OilPressurePlaceholder,
            position: Point { x: GAUGE_VALUE_X, y: ROW_0_Y },
            style: text_style(Color::White),
        },
        DrawCommand::Text {
            label: Label::OilTempPlaceholder,
            position: Point { x: GAUGE_VALUE_X, y: ROW_1_Y },
            style: text_style(Color::White),
        },
    ];
    assert(cmds@ =~= initial_ui_spec());
    cmds
}

} // verus!
