//! The display settings page: the choices it offers and the stream configuration they make.

use vstd::prelude::*;
use crate::daemon::{StreamConfig, DEVICE_INPUT_PORT, DEVICE_VIDEO_PORT};
use crate::daemon::virtual_monitor::DisplayMode;

verus! {

/// Mode for the selected entry of the mode selector: the second entry mirrors, anything else
/// extends.
pub open spec fn mode_for(selected: u32) -> DisplayMode {
    if selected == 1 {
        DisplayMode::Mirror
    } else {
        DisplayMode::Extend
    }
}

/// Resolution for the selected entry of the resolution selector.
pub open spec fn resolution_for(selected: u32) -> (u32, u32) {
    if selected == 1 {
        (1920, 1200)
    } else if selected == 2 {
        (1920, 1080)
    } else {
        (2560, 1600)
    }
}

/// Framerate for the selected entry of the framerate selector.
pub open spec fn fps_for(selected: u32) -> u32 {
    if selected == 1 {
        120
    } else if selected == 2 {
        30
    } else {
        60
    }
}

/// Builds the `StreamConfig` that the selected entries of the mode, resolution and framerate
/// selectors stand for. The device serial and ports are filled in when a stream starts.
pub fn stream_config_for(mode_selected: u32, resolution_selected: u32, fps_selected: u32) -> (r:
    StreamConfig)
    ensures
        r.display_mode == mode_for(mode_selected),
        (r.width, r.height) == resolution_for(resolution_selected),
        r.fps == fps_for(fps_selected),
        r.encoder@ == "vaapi"@,
        r.device_serial is None,
        r.video_port == DEVICE_VIDEO_PORT,
        r.input_port == DEVICE_INPUT_PORT,
{
    let display_mode = if mode_selected == 1 {
        DisplayMode::Mirror
    } else {
        DisplayMode::Extend
    };
    let (width, height) = if resolution_selected == 1 {
        (1920u32, 1200u32)
    } else if resolution_selected == 2 {
        (1920u32, 1080u32)
    } else {
        (2560u32, 1600u32)
    };
    let fps: u32 = if fps_selected == 1 {
        120
    } else if fps_selected == 2 {
        30
    } else {
        60
    };
    StreamConfig {
        width,
        height,
        fps,
        encoder: String::from_str("vaapi"),
        display_mode,
        device_serial: None,
        video_port: 6000,
        input_port: 6001,
    }
}

} // verus!
