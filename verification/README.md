# nib

Nib streams a GNOME display (an extended virtual monitor or a mirrored one) to an Android
device over `adb reverse`, and injects the device's touch, stylus and gesture input back into
the desktop through the RemoteDesktop portal.

## Layout

- `src/` is the library, verified with Verus: the host's decisions on plain values (command
  lines, parsing, pipeline text, session state, input plans, the port pool, tray and UI
  content), stated as contracts over mathematical models and proved.
  - `daemon/adb_transport.rs`: `adb` command lines, `adb devices` and `wm size` parsing,
    device naming and form factor.
  - `daemon/screencast.rs`: H.264 encoder choice, its properties, and the GStreamer pipeline
    text.
  - `daemon/virtual_monitor/`: the portal session's state (`mod.rs`), the probing of the
    pointer-motion argument shape (`motion.rs`), the portal calls behind each input event
    (`input.rs`), and the 3-finger swipe latch (`gesture.rs`).
  - `daemon/cursor_keepalive.rs`: which monitor the repaint overlay covers.
  - `ui/status_page.rs`: the per-device port-slot pool and the device-list reconciliation.
  - `ui/display_settings.rs`, `indicator.rs`, `i18n.rs`, `text.rs`: settings, tray content,
    UI strings, and the string functions the rest is stated over.
- `tests/` runs the library on concrete values.
- `app/` is the GTK/Libadwaita application around the library: windows, the tray, the portal
  and D-Bus calls, GStreamer, `adb` processes, and what depends on floating point (pointer
  coordinates, swipe sums, the screen aspect ratio).
