//! The sizes the window is laid out with, in device-independent pixels.

use vstd::prelude::*;

verus! {

/// Where the graph begins, below the heading and the picker.
pub const CANVAS_TOP: u32 = 88;

/// What is kept below the graph for the axis and the buttons.
pub const CANVAS_BOTTOM_GAP: u32 = 96;

/// The narrowest and the lowest the graph becomes, in a window that is smaller
/// than it should be.
pub const CANVAS_MIN_WIDTH: u32 = 120;

pub const CANVAS_MIN_HEIGHT: u32 = 80;

/// The width of the readings column.
pub const READOUT_WIDTH: u32 = 248;

/// The width of the settings column beyond it.
pub const TUNING_WIDTH: u32 = 248;

/// The size the window opens at.
pub const DEFAULT_WIDTH: u32 = 1244;

pub const DEFAULT_HEIGHT: u32 = 720;

/// The smallest the window may be dragged to, at which the layout still holds.
pub const MIN_WIDTH: u32 = 900;

pub const MIN_HEIGHT: u32 = 648;

/// Room kept for the heading, so that the picker never takes it.
pub const TITLE_WIDTH: u32 = 110;

/// The buttons under the graph.
pub const SAVE_WIDTH: u32 = 132;

pub const SAVE_HEIGHT: u32 = 34;

/// The profile picker: the width it would like and the least it takes.
pub const PICKER_WIDTH: u32 = 216;

pub const PICKER_MIN_WIDTH: u32 = 120;

pub const PICKER_HEIGHT: u32 = 32;

pub const PICKER_TOP: u32 = 16;

/// The height of a row of a label and a value.
pub const ROW_HEIGHT: u32 = 24;

} // verus!
