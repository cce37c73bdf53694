pub mod constants;
pub mod creature;
pub mod decal;
pub mod dialog;
pub mod digits;
pub mod gamestate;
pub mod level;
pub mod menu;
pub mod options;
pub mod tile;
pub mod text;
pub mod ui;
pub mod utils;
