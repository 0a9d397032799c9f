//! Terminal text styling: colours and attributes encoded as ANSI SGR
//! escape sequences, with a chainable builder for styled text.

mod attribute;
mod color;
mod console;
pub mod laws;
mod style;

pub use attribute::{attr_code, Attribute};
pub use color::{bg_code, color_code, decimal, digit_char, fg_code, Color};
pub use console::{Console, ConsoleView};
pub use style::{join_params, sgr_open, sgr_reset, string_views, Style, StyleView, STYLING_ENABLED};
