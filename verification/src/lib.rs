//! Small pieces of desktop-application logic, each with a verified contract: menu labels
//! that carry a shortcut, spoken-form durations, DPI scaling arithmetic, the decisions
//! behind the standard prompts, and keymap conflict detection.

pub mod dialogs;
pub mod duration;
pub mod i18n;
pub mod menu;

pub mod dpi;
pub mod shortcuts;
pub mod text;

pub use dialogs::{DIALOG_PADDING, confirmed, entered_number, entered_text, spin_range};
pub use duration::{format_duration_ms, format_duration_seconds, spell_duration};
pub use menu::menu_label;
pub mod about;
