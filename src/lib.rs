//! A hierarchical, filterable console logger: labels are matched against a
//! filter expression, decorated according to the terminal's color tier, and
//! messages have their emoji shortcodes resolved.

pub mod color;
pub mod debugger;
pub mod emoji;
pub mod pattern;
pub mod text;

pub use color::{ColorSupportLevel, get_ansi_color_sequence, get_color_support_level};
pub use debugger::RsDebugger;
pub use emoji::{resolve_emojis, resolve_shortcode};
pub use pattern::{is_match_with_pattern, is_permitted_to_write};
