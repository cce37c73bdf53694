use vstd::prelude::*;

verus! {

// All screen geometry in this crate is measured on a half-pixel grid: one
// unit is half a pixel, so layouts that sit between two pixels (checkbox
// columns, for instance) still have exact integer coordinates. The embedding
// renderer halves these values when it positions sprites.

/// Height of the mouse cursor graphic (half-pixel units).
pub const MOUSE_GFX_HEIGHT: i32 = 32;

/// Width of the mouse cursor graphic (half-pixel units).
pub const MOUSE_GFX_WIDTH: i32 = 56;

/// Height of one dialog choice row (half-pixel units).
pub const DIALOG_CHOICE_HEIGHT: i32 = 24;

/// Width of the clickable band of a dialog choice (half-pixel units).
pub const DIALOG_CHOICE_WIDTH: i32 = 800;

/// Font size used by dialog text (half-pixel units).
pub const DIALOG_FONT_SIZE: i32 = 40;

// Depth is an integer layer index; a larger layer is drawn above a smaller
// one, and the renderer maps layers to its own depth range.

/// Layer of the mouse cursor, above everything else.
pub const Z_VALUE_CURSOR: i32 = 300;

/// Layer of menu and dialog elements (buttons, text, checkboxes).
pub const Z_VALUE_MENU_ELEMENTS: i32 = 200;

/// Layer of the menu and dialog background panels.
pub const Z_VALUE_MENU: i32 = 100;

/// Layer of decals and creatures, above the terrain.
pub const Z_VALUE_DECAL: i32 = 2;

/// Layer of the terrain tiles, at the bottom.
pub const Z_VALUE_TILE: i32 = 1;

} // verus!
