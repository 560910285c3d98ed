//! Control logic for a touch-screen function row: button layout and
//! hit-testing, touch sessions and virtual key presses, redraw planning,
//! and the idle-driven backlight state machine.

pub mod text;
pub mod config;
pub mod event;
pub mod backlight;
pub mod metrics;
pub mod widget;
pub mod layout;
pub mod pixel_shift;
pub mod redraw;
pub mod controller;
pub mod display;
