use vstd::prelude::*;

verus! {

/// Height of the panel in landscape orientation, in pixels.
pub const DISPLAY_HEIGHT: u16 = 240;

/// Width of the panel in landscape orientation, in pixels.
pub const DISPLAY_WIDTH: u16 = 320;

/// Horizontal gap between the panel edge and the border rectangle.
pub const BORDER_MARGIN_X: u16 = 4;

/// Vertical gap between the panel edge and the border rectangle.
pub const BORDER_MARGIN_Y: u16 = 4;

/// Left edge of the gauge names.
pub const GAUGE_NAME_X: i32 = 16;

/// Left edge of the gauge values.
pub const GAUGE_VALUE_X: i32 = 160;

/// Text baseline of the first gauge row.
pub const ROW_0_Y: i32 = 80;

/// Text baseline of the second gauge row.
pub const ROW_1_Y: i32 = 110;

/// Height of the gauge font (10x20 monospace), in pixels.
pub const GAUGE_FONT_HEIGHT: u16 = 20;

/// Side of the square that is blanked before a gauge value is redrawn.
pub const GAUGE_VALUE_WIDTH: u32 = 100;

/// Rate, in updates per second, at which both gauge values are redrawn.
pub const DISPLAY_UPDATE_HZ: u64 = 10;

/// Period of the display ticker, in milliseconds: every tick redraws both
/// gauge values.
pub const DISPLAY_TICK_MS: u64 = 1000 / DISPLAY_UPDATE_HZ;

/// The display ticker fires every 100 ms, so the gauge updates at 10 Hz.
pub proof fn lemma_display_tick_period()
    ensures
        DISPLAY_TICK_MS == 100,
        DISPLAY_TICK_MS * DISPLAY_UPDATE_HZ == 1000,
{
}

/// Vertical position of the divider under the title.
pub const DIVIDER_Y: i32 = 45;

} // verus!
