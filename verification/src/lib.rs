//! Forma Fractalis: the verified core of an interactive fractal explorer.
//!
//! The library holds what the explorer decides on plain values: the catalogue
//! of fractal types and their names, the text grammar of the values it reads
//! back (decimal and hexadecimal integers, booleans, float literals), the hex
//! colour field of the colour picker, and the layout of the settings that an
//! exported PNG carries in its text chunks.

pub mod text;
pub mod color_picker;
pub mod filtering;
pub mod app_state;
pub mod fractals;
pub mod fractal_gui;
pub mod gpu;
pub mod colorschemes;
pub mod gui;
pub mod export;
