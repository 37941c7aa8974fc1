//! State behind the user interface: the connection page's bookkeeping and the settings
//! page's choices.

pub mod status_page;
pub mod display_settings;
