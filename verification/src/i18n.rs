//! User-interface strings in English and Spanish.
//!
//! A lightweight alternative to gettext for in-code UI strings: each key maps to an English
//! and a Spanish text, picked by whether the user's locales include Spanish.

use vstd::prelude::*;
use crate::text::{starts_with, str_eq, str_starts_with};

verus! {

/// Whether a locale name is Spanish (`es`, `es_ES`, `es_MX.UTF-8`, ...).
pub open spec fn is_spanish_locale(name: Seq<char>) -> bool {
    starts_with(name, "es"@)
}

/// Whether any of the user's configured locales is Spanish.
pub fn is_spanish(languages: &Vec<String>) -> (r: bool)
    ensures
        r == exists|i: int| 0 <= i < languages@.len() && is_spanish_locale(#[trigger] languages@[i]@),
{
    let mut i: usize = 0;
    while i < languages.len()
        invariant
            i <= languages@.len(),
            forall|j: int| 0 <= j < i ==> !is_spanish_locale(#[trigger] languages@[j]@),
        decreases languages@.len() - i,
    {
        if str_starts_with(languages[i].as_str(), "es") {
            return true;
        }
        i = i + 1;
    }
    false
}

/// The text of a UI string key: its Spanish text when `spanish`, else its English text; the
/// empty string for an unknown key.
pub open spec fn translation(key: Seq<char>, spanish: bool) -> Seq<char> {
    if key == "app_title"@ {
        "Nib Display"@
    } else if key == "devices_group_title"@ {
        if spanish { "Dispositivos Conectados"@ } else { "Connected Devices"@ }
    } else if key == "no_devices_title"@ {
        if spanish { "No hay dispositivos Android/iOS conectados"@ } else { "No Android/iOS devices connected"@ }
    } else if key == "no_devices_subtitle"@ {
        if spanish { "Conecta mediante USB-C con Depuraci\u{f3}n USB habilitada o por Wi-Fi"@ } else { "Connect via USB-C with USB Debugging enabled or over Wi-Fi"@ }
    } else if key == "gestures_group_title"@ {
        if spanish { "Gestos y Controles de la Pantalla T\u{e1}ctil"@ } else { "Trackpad &amp; Gesture Controls"@ }
    } else if key == "row1_title"@ {
        if spanish { "1 Dedo: Clic Izquierdo y Modo Selecci\u{f3}n"@ } else { "1 Finger: Left Click &amp; Selection Mode"@ }
    } else if key == "row1_subtitle"@ {
        if spanish { "Toca para clic simple \u{2022} Doble toque para activar modo selecci\u{f3}n (toca otra vez para soltar)"@ } else { "Tap for single click \u{2022} Double-tap to activate selection mode (tap again to release)"@ }
    } else if key == "row2_title"@ {
        if spanish { "2 Dedos (Toque): Clic Derecho (Men\u{fa} Contextual)"@ } else { "2 Fingers Tap: Right Click (Context Menu)"@ }
    } else if key == "row2_subtitle"@ {
        if spanish { "Toca con 2 dedos simult\u{e1}neamente para abrir men\u{fa} contextual"@ } else { "Tap with 2 fingers simultaneously to open right-click context menu"@ }
    } else if key == "row3_title"@ {
        if spanish { "2 Dedos (Desplazamiento): Desplazamiento Suave"@ } else { "2 Fingers Swipe: Smooth Scroll"@ }
    } else if key == "row3_subtitle"@ {
        if spanish { "Desliza arriba, abajo, izquierda o derecha para scroll continuo"@ } else { "Swipe up, down, left, or right for smooth 2-axis scrolling"@ }
    } else if key == "row4_title"@ {
        if spanish { "3 Dedos: Escritorios Virtuales y Vista General de GNOME"@ } else { "3 Fingers Swipe: Virtual Desktops &amp; Overview"@ }
    } else if key == "row4_subtitle"@ {
        if spanish { "Desliza arriba o abajo para alternar Espacios de Trabajo y Vista General de GNOME"@ } else { "Swipe up or down to toggle GNOME Workspaces &amp; Activities Overview"@ }
    } else if key == "start_stream"@ {
        if spanish { "Iniciar transmisi\u{f3}n"@ } else { "Start Stream"@ }
    } else if key == "stop_stream"@ {
        if spanish { "Detener transmisi\u{f3}n"@ } else { "Stop Stream"@ }
    } else if key == "device_disconnected"@ {
        if spanish { "Dispositivo desconectado"@ } else { "Device disconnected"@ }
    } else if key == "stream_cancelled"@ {
        if spanish { "Transmisi\u{f3}n cancelada por el usuario"@ } else { "Stream request cancelled by user"@ }
    } else if key == "stream_error"@ {
        if spanish { "Error al iniciar transmisi\u{f3}n"@ } else { "Failed to start stream"@ }
    } else if key == "tray_show"@ {
        if spanish { "Mostrar ventana principal"@ } else { "Show Main Window"@ }
    } else if key == "tray_quit"@ {
        if spanish { "Salir"@ } else { "Quit"@ }
    } else if key == "tray_no_devices"@ {
        if spanish { "No hay dispositivos conectados"@ } else { "No devices connected"@ }
    } else if key == "tray_streaming_active"@ {
        if spanish { "Transmitiendo a"@ } else { "Streaming active to"@ }
    } else if key == "tray_devices_connected"@ {
        if spanish { "Dispositivos conectados:"@ } else { "Devices connected:"@ }
    } else if key == "settings_title"@ {
        if spanish { "Configuraci\u{f3}n de Pantalla y Transmisi\u{f3}n"@ } else { "Display and Stream Settings"@ }
    } else if key == "settings_desc"@ {
        if spanish { "Configura c\u{f3}mo la tablet muestra el escritorio GNOME"@ } else { "Configure how your tablet displays your GNOME desktop"@ }
    } else if key == "mode_title"@ {
        if spanish { "Modo de Pantalla"@ } else { "Display Mode"@ }
    } else if key == "mode_subtitle"@ {
        if spanish { "Extender escritorio como monitor secundario o duplicar pantalla principal"@ } else { "Extend desktop as secondary monitor or mirror main screen"@ }
    } else if key == "mode_extend"@ {
        if spanish { "Extender escritorio (Monitor secundario)"@ } else { "Extend Desktop (Secondary Monitor)"@ }
    } else if key == "mode_mirror"@ {
        if spanish { "Duplicar pantalla principal"@ } else { "Mirror Main Display"@ }
    } else if key == "res_title"@ {
        if spanish { "Resoluci\u{f3}n"@ } else { "Resolution"@ }
    } else if key == "res_subtitle"@ {
        if spanish { "Resoluci\u{f3}n del monitor virtual"@ } else { "Virtual monitor resolution"@ }
    } else if key == "res_native"@ {
        if spanish { "2560x1600 (Nativa Tablet)"@ } else { "2560x1600 (Native Tablet)"@ }
    } else if key == "fps_title"@ {
        if spanish { "Tasa de Refresco (FPS)"@ } else { "Framerate"@ }
    } else if key == "fps_subtitle"@ {
        if spanish { "Tasa de refresco objetivo de la transmisi\u{f3}n"@ } else { "Target stream refresh rate"@ }
    } else if key == "fps_60"@ {
        if spanish { "60 FPS (Fluido)"@ } else { "60 FPS (Smooth)"@ }
    } else if key == "fps_120"@ {
        if spanish { "120 FPS (Ultra Fluido)"@ } else { "120 FPS (Ultra Smooth)"@ }
    } else if key == "fps_30"@ {
        if spanish { "30 FPS (Ahorro de energ\u{ed}a)"@ } else { "30 FPS (Power Saver)"@ }
    } else if key == "stylus_title"@ {
        if spanish { "Habilitar L\u{e1}piz T\u{e1}ctil y Presi\u{f3}n"@ } else { "Enable Stylus and Pressure Input"@ }
    } else if key == "stylus_subtitle"@ {
        if spanish { "Mapear l\u{e1}piz \u{f3}ptico directamente como digitalizador virtual de GNOME"@ } else { "Map tablet pen directly to GNOME virtual digitizer"@ }
    } else {
        ""@
    }
}

/// Translates a UI string key into English or Spanish (`spanish`: the user's locale is
/// Spanish, see `is_spanish`); returns an empty string for unknown keys.
#[verifier::rlimit(50)]
pub fn tr(key: &str, spanish: bool) -> (r: &'static str)
    ensures
        r@ == translation(key@, spanish),
{
    if str_eq(key, "app_title") {
        "Nib Display"
    } else if str_eq(key, "devices_group_title") {
        if spanish { "Dispositivos Conectados" } else { "Connected Devices" }
    } else if str_eq(key, "no_devices_title") {
        if spanish { "No hay dispositivos Android/iOS conectados" } else { "No Android/iOS devices connected" }
    } else if str_eq(key, "no_devices_subtitle") {
        if spanish { "Conecta mediante USB-C con Depuraci\u{f3}n USB habilitada o por Wi-Fi" } else { "Connect via USB-C with USB Debugging enabled or over Wi-Fi" }
    } else if str_eq(key, "gestures_group_title") {
        if spanish { "Gestos y Controles de la Pantalla T\u{e1}ctil" } else { "Trackpad &amp; Gesture Controls" }
    } else if str_eq(key, "row1_title") {
        if spanish { "1 Dedo: Clic Izquierdo y Modo Selecci\u{f3}n" } else { "1 Finger: Left Click &amp; Selection Mode" }
    } else if str_eq(key, "row1_subtitle") {
        if spanish { "Toca para clic simple \u{2022} Doble toque para activar modo selecci\u{f3}n (toca otra vez para soltar)" } else { "Tap for single click \u{2022} Double-tap to activate selection mode (tap again to release)" }
    } else if str_eq(key, "row2_title") {
        if spanish { "2 Dedos (Toque): Clic Derecho (Men\u{fa} Contextual)" } else { "2 Fingers Tap: Right Click (Context Menu)" }
    } else if str_eq(key, "row2_subtitle") {
        if spanish { "Toca con 2 dedos simult\u{e1}neamente para abrir men\u{fa} contextual" } else { "Tap with 2 fingers simultaneously to open right-click context menu" }
    } else if str_eq(key, "row3_title") {
        if spanish { "2 Dedos (Desplazamiento): Desplazamiento Suave" } else { "2 Fingers Swipe: Smooth Scroll" }
    } else if str_eq(key, "row3_subtitle") {
        if spanish { "Desliza arriba, abajo, izquierda o derecha para scroll continuo" } else { "Swipe up, down, left, or right for smooth 2-axis scrolling" }
    } else if str_eq(key, "row4_title") {
        if spanish { "3 Dedos: Escritorios Virtuales y Vista General de GNOME" } else { "3 Fingers Swipe: Virtual Desktops &amp; Overview" }
    } else if str_eq(key, "row4_subtitle") {
        if spanish { "Desliza arriba o abajo para alternar Espacios de Trabajo y Vista General de GNOME" } else { "Swipe up or down to toggle GNOME Workspaces &amp; Activities Overview" }
    } else if str_eq(key, "start_stream") {
        if spanish { "Iniciar transmisi\u{f3}n" } else { "Start Stream" }
    } else if str_eq(key, "stop_stream") {
        if spanish { "Detener transmisi\u{f3}n" } else { "Stop Stream" }
    } else if str_eq(key, "device_disconnected") {
        if spanish { "Dispositivo desconectado" } else { "Device disconnected" }
    } else if str_eq(key, "stream_cancelled") {
        if spanish { "Transmisi\u{f3}n cancelada por el usuario" } else { "Stream request cancelled by user" }
    } else if str_eq(key, "stream_error") {
        if spanish { "Error al iniciar transmisi\u{f3}n" } else { "Failed to start stream" }
    } else if str_eq(key, "tray_show") {
        if spanish { "Mostrar ventana principal" } else { "Show Main Window" }
    } else if str_eq(key, "tray_quit") {
        if spanish { "Salir" } else { "Quit" }
    } else if str_eq(key, "tray_no_devices") {
        if spanish { "No hay dispositivos conectados" } else { "No devices connected" }
    } else if str_eq(key, "tray_streaming_active") {
        if spanish { "Transmitiendo a" } else { "Streaming active to" }
    } else if str_eq(key, "tray_devices_connected") {
        if spanish { "Dispositivos conectados:" } else { "Devices connected:" }
    } else if str_eq(key, "settings_title") {
        if spanish { "Configuraci\u{f3}n de Pantalla y Transmisi\u{f3}n" } else { "Display and Stream Settings" }
    } else if str_eq(key, "settings_desc") {
        if spanish { "Configura c\u{f3}mo la tablet muestra el escritorio GNOME" } else { "Configure how your tablet displays your GNOME desktop" }
    } else if str_eq(key, "mode_title") {
        if spanish { "Modo de Pantalla" } else { "Display Mode" }
    } else if str_eq(key, "mode_subtitle") {
        if spanish { "Extender escritorio como monitor secundario o duplicar pantalla principal" } else { "Extend desktop as secondary monitor or mirror main screen" }
    } else if str_eq(key, "mode_extend") {
        if spanish { "Extender escritorio (Monitor secundario)" } else { "Extend Desktop (Secondary Monitor)" }
    } else if str_eq(key, "mode_mirror") {
        if spanish { "Duplicar pantalla principal" } else { "Mirror Main Display" }
    } else if str_eq(key, "res_title") {
        if spanish { "Resoluci\u{f3}n" } else { "Resolution" }
    } else if str_eq(key, "res_subtitle") {
        if spanish { "Resoluci\u{f3}n del monitor virtual" } else { "Virtual monitor resolution" }
    } else if str_eq(key, "res_native") {
        if spanish { "2560x1600 (Nativa Tablet)" } else { "2560x1600 (Native Tablet)" }
    } else if str_eq(key, "fps_title") {
        if spanish { "Tasa de Refresco (FPS)" } else { "Framerate" }
    } else if str_eq(key, "fps_subtitle") {
        if spanish { "Tasa de refresco objetivo de la transmisi\u{f3}n" } else { "Target stream refresh rate" }
    } else if str_eq(key, "fps_60") {
        if spanish { "60 FPS (Fluido)" } else { "60 FPS (Smooth)" }
    } else if str_eq(key, "fps_120") {
        if spanish { "120 FPS (Ultra Fluido)" } else { "120 FPS (Ultra Smooth)" }
    } else if str_eq(key, "fps_30") {
        if spanish { "30 FPS (Ahorro de energ\u{ed}a)" } else { "30 FPS (Power Saver)" }
    } else if str_eq(key, "stylus_title") {
        if spanish { "Habilitar L\u{e1}piz T\u{e1}ctil y Presi\u{f3}n" } else { "Enable Stylus and Pressure Input" }
    } else if str_eq(key, "stylus_subtitle") {
        if spanish { "Mapear l\u{e1}piz \u{f3}ptico directamente como digitalizador virtual de GNOME" } else { "Map tablet pen directly to GNOME virtual digitizer" }
    } else {
        ""
    }
}

/// The labels of the start/stop control say what it does, in either language: "Start
/// Stream"/"Iniciar transmisi\u{f3}n" for a device that is not streaming and "Stop
/// Stream"/"Detener transmisi\u{f3}n" for one that is, so the two are never the same text.
pub proof fn law_stream_toggle_labels(spanish: bool)
    ensures
        translation("start_stream"@, spanish) == (if spanish {
            "Iniciar transmisi\u{f3}n"@
        } else {
            "Start Stream"@
        }),
        translation("stop_stream"@, spanish) == (if spanish {
            "Detener transmisi\u{f3}n"@
        } else {
            "Stop Stream"@
        }),
        translation("start_stream"@, spanish) != translation("stop_stream"@, spanish),
{
    reveal_strlit("app_title");
    assert("app_title"@.len() == 9);
    reveal_strlit("devices_group_title");
    assert("devices_group_title"@.len() == 19);
    reveal_strlit("no_devices_title");
    assert("no_devices_title"@.len() == 16);
    reveal_strlit("no_devices_subtitle");
    assert("no_devices_subtitle"@.len() == 19);
    reveal_strlit("gestures_group_title");
    assert("gestures_group_title"@.len() == 20);
    reveal_strlit("row1_title");
    assert("row1_title"@.len() == 10);
    reveal_strlit("row1_subtitle");
    assert("row1_subtitle"@.len() == 13);
    reveal_strlit("row2_title");
    assert("row2_title"@.len() == 10);
    reveal_strlit("row2_subtitle");
    assert("row2_subtitle"@.len() == 13);
    reveal_strlit("row3_title");
    assert("row3_title"@.len() == 10);
    reveal_strlit("row3_subtitle");
    assert("row3_subtitle"@.len() == 13);
    reveal_strlit("row4_title");
    assert("row4_title"@.len() == 10);
    reveal_strlit("row4_subtitle");
    assert("row4_subtitle"@.len() == 13);
    reveal_strlit("start_stream");
    assert("start_stream"@.len() == 12);
    reveal_strlit("stop_stream");
    assert("stop_stream"@.len() == 11);
    reveal_strlit("Iniciar transmisi\u{f3}n");
    reveal_strlit("Detener transmisi\u{f3}n");
    reveal_strlit("Start Stream");
    reveal_strlit("Stop Stream");
    assert("Iniciar transmisi\u{f3}n"@[0] != "Detener transmisi\u{f3}n"@[0]);
    assert("Start Stream"@[2] != "Stop Stream"@[2]);
}

/// A locale counts as Spanish exactly when its name starts with `es` (`es`, `es_ES`,
/// `es_MX.UTF-8`); a name that merely contains `es` further on (`de_DE.UTF-8`, say, or
/// `pt_BR`) does not.
pub proof fn law_spanish_locales(name: Seq<char>)
    ensures
        is_spanish_locale(name) <==> (name.len() >= 2 && name[0] == 'e' && name[1] == 's'),
{
    reveal_strlit("es");
    if name.len() >= 2 && name[0] == 'e' && name[1] == 's' {
        assert(name.take(2) =~= "es"@);
    }
    if is_spanish_locale(name) {
        assert(name.take(2)[0] == name[0]);
        assert(name.take(2)[1] == name[1]);
    }
}

} // verus!
