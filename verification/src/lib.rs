//! Nib: the decision logic of a desktop host that streams a GNOME display to an Android device.

pub mod config;
pub mod daemon;
pub mod text;
pub mod ui;
pub mod i18n;
pub mod indicator;
