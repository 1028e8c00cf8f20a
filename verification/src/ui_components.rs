//! The rules of the console's widgets.

pub mod input_area;
