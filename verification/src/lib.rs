//! Decision logic of a desktop utility that hides desktop icons and the
//! taskbar: settings, the toggle state machine, taskbar auto-hide control,
//! hotkey handling, tray menus and boot-time readiness polling.
//!
//! Every operating-system call lives outside this library; the functions here
//! decide what to do and take back what the system answered.

pub mod settings;
pub mod app_state;
pub mod taskbar;
pub mod toggle;
pub mod text;
pub mod hotkey;
pub mod click;
pub mod positions;
pub mod tray;
pub mod boot;
pub mod ui_state;
pub mod theme;
