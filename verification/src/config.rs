//! Application identity.

use vstd::prelude::*;

verus! {

/// Freedesktop application ID used for GTK/GIO application registration and the About dialog.
pub const APP_ID: &'static str = "dev.victorcarreras.Nib";

/// Gettext translation domain name.
pub const GETTEXT_PACKAGE: &'static str = "nib";

/// Filesystem path where compiled gettext locale files are installed.
pub const LOCALEDIR: &'static str = "/usr/share/locale";

} // verus!
