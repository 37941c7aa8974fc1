//! The streaming daemon: ADB transport, screencast pipeline description, display session
//! state and the cursor keepalive overlay's monitor choice.

pub mod adb_transport;
pub mod cursor_keepalive;
pub mod screencast;
pub mod virtual_monitor;

use vstd::prelude::*;
use virtual_monitor::DisplayMode;

verus! {

/// Android-side video port that the companion app listens on; `adb reverse` maps it to the
/// per-device local port chosen in `StreamConfig`.
pub const DEVICE_VIDEO_PORT: u16 = 6000;

/// Android-side input port that the companion app listens on.
pub const DEVICE_INPUT_PORT: u16 = 6001;

/// User-configurable parameters describing how a single device stream should be captured,
/// encoded, and transported.
#[derive(Clone, Debug)]
pub struct StreamConfig {
    /// Target virtual/mirrored display width in pixels.
    pub width: u32,
    /// Target virtual/mirrored display height in pixels.
    pub height: u32,
    /// Target encoder framerate.
    pub fps: u32,
    /// Preferred GStreamer H.264 encoder identifier hint (e.g. `"vaapi"`).
    pub encoder: String,
    /// Whether to extend the desktop with a new virtual monitor or mirror an existing one.
    pub display_mode: DisplayMode,
    /// ADB serial number of the target device, or `None` to use the default/only device.
    pub device_serial: Option<String>,
    /// Local TCP port used for the outgoing H.264 video stream.
    pub video_port: u16,
    /// Local TCP port used for the incoming input event stream.
    pub input_port: u16,
}

impl StreamConfig {
    /// The defaults: 2560x1600 at 60 fps, `vaapi` hint, extended desktop, no serial, and the
    /// device-side ports.
    pub open spec fn is_default(self) -> bool {
        &&& self.width == 2560
        &&& self.height == 1600
        &&& self.fps == 60
        &&& self.encoder@ == "vaapi"@
        &&& self.display_mode == DisplayMode::Extend
        &&& self.device_serial is None
        &&& self.video_port == DEVICE_VIDEO_PORT
        &&& self.input_port == DEVICE_INPUT_PORT
    }
}

impl StreamConfig {
    /// Adopts the display mode the portal actually granted, which the native picker may have
    /// changed from the one requested; everything downstream follows the granted one. Returns
    /// whether the stream needs the cursor keepalive overlay, which only an extended desktop
    /// does.
    pub fn adopt_granted_mode(&mut self, granted: DisplayMode) -> (needs_keepalive: bool)
        ensures
            *final(self) == (StreamConfig { display_mode: granted, ..*old(self) }),
            needs_keepalive == (granted == DisplayMode::Extend),
    {
        self.display_mode = granted;
        granted == DisplayMode::Extend
    }
}

impl Default for StreamConfig {
    fn default() -> (r: Self)
        ensures
            r.is_default(),
    {
        StreamConfig {
            width: 2560,
            height: 1600,
            fps: 60,
            encoder: String::from_str("vaapi"),
            display_mode: DisplayMode::Extend,
            device_serial: None,
            video_port: DEVICE_VIDEO_PORT,
            input_port: DEVICE_INPUT_PORT,
        }
    }
}

/// What a poll of a daemon's portal session found.
#[derive(Clone, Copy, Debug, PartialEq, Eq, Structural)]
pub enum SessionProbe {
    /// No display session was set up.
    NoSession,
    /// The session's lock was held elsewhere (a teardown in flight, say).
    Busy,
    /// The session's state was read: whether it was closed from outside.
    Read(bool),
}

/// Whether a daemon's portal session is still open. Without a session, or while its lock is
/// held elsewhere, it counts as alive; only a session seen closed from outside is dead.
pub fn is_session_alive(probe: SessionProbe) -> (r: bool)
    ensures
        r == !(probe == SessionProbe::Read(true)),
{
    match probe {
        SessionProbe::NoSession => true,
        SessionProbe::Busy => true,
        SessionProbe::Read(closed) => !closed,
    }
}

/// The local and device-side port pairs that `adb reverse` must connect for a stream:
/// the video port to the device's video port, the input port to the device's input port.
pub fn port_forwards(config: &StreamConfig) -> (r: [(u16, u16); 2])
    ensures
        r@ == seq![(config.video_port, DEVICE_VIDEO_PORT), (config.input_port, DEVICE_INPUT_PORT)],
{
    [(config.video_port, DEVICE_VIDEO_PORT), (config.input_port, DEVICE_INPUT_PORT)]
}

/// What kind of failure a daemon error is: portal/D-Bus session setup, pipeline construction,
/// or ADB/socket I/O, with a user-cancelled portal request told apart from other portal
/// failures.
#[derive(Clone, Copy, Debug, PartialEq, Eq, Structural)]
pub enum FailureKind {
    /// The user dismissed a portal request (the screencast source picker, say).
    PortalCancelled,
    /// Any other portal failure.
    Portal,
    /// A D-Bus failure.
    DBus,
    /// An I/O failure (running `adb`, binding a socket).
    Io,
    /// A failure described by a message only.
    Other,
}

impl FailureKind {
    /// Whether the failure was the user cancelling a portal request, as opposed to a real
    /// error worth surfacing loudly.
    pub fn is_cancelled(self) -> (r: bool)
        ensures
            r == (self == FailureKind::PortalCancelled),
    {
        match self {
            FailureKind::PortalCancelled => true,
            _ => false,
        }
    }
}

} // verus!
