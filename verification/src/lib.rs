//! Decision logic of a CAN bus oil gauge: decoding of ECU frames, the
//! acceptance filter set up in the CAN controller, the text shown for each
//! gauge value and the layout of everything drawn on the screen.

pub mod canbus;
pub mod constants;
pub mod display;
pub mod filter;
pub mod raster;
pub mod text;
