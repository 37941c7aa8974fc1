//! The GStreamer pipeline that carries the screencast to the device: which H.264 encoder to
//! use, with which properties, and the textual pipeline description that is launched.

use vstd::prelude::*;
use crate::daemon::StreamConfig;
use crate::text::{decimal, push_decimal, push_signed_decimal, signed_decimal};

verus! {

/// The H.264 encoder elements, in order of preference.
#[derive(Clone, Copy, Debug, PartialEq, Eq, Structural)]
pub enum EncoderKind {
    /// NVIDIA NVENC (`nvh264enc`).
    Nvh264,
    /// VA-API (`vah264enc`).
    Vah264,
    /// Legacy VA-API (`vaapih264enc`).
    Vaapih264,
    /// x264 software encoder (`x264enc`).
    X264,
    /// OpenH264 software encoder (`openh264enc`).
    OpenH264,
}

/// Which encoder elements the GStreamer registry offers.
#[derive(Clone, Copy, Debug)]
pub struct EncoderAvailability {
    /// `nvh264enc` is installed.
    pub nvh264enc: bool,
    /// `vah264enc` is installed.
    pub vah264enc: bool,
    /// `vaapih264enc` is installed.
    pub vaapih264enc: bool,
    /// `x264enc` is installed.
    pub x264enc: bool,
}

/// The encoder chosen: hardware encoders first unless sandboxed (under confinement they load
/// but produce nothing), then x264, then OpenH264 as the last resort.
pub open spec fn encoder_choice(sandboxed: bool, a: EncoderAvailability) -> EncoderKind {
    if !sandboxed && a.nvh264enc {
        EncoderKind::Nvh264
    } else if !sandboxed && a.vah264enc {
        EncoderKind::Vah264
    } else if !sandboxed && a.vaapih264enc {
        EncoderKind::Vaapih264
    } else if a.x264enc {
        EncoderKind::X264
    } else {
        EncoderKind::OpenH264
    }
}

/// Element name of an encoder.
pub open spec fn element_name(kind: EncoderKind) -> Seq<char> {
    match kind {
        EncoderKind::Nvh264 => "nvh264enc"@,
        EncoderKind::Vah264 => "vah264enc"@,
        EncoderKind::Vaapih264 => "vaapih264enc"@,
        EncoderKind::X264 => "x264enc"@,
        EncoderKind::OpenH264 => "openh264enc"@,
    }
}

/// The zero-latency, constant-bitrate properties wanted for each encoder.
pub open spec fn desired_properties(kind: EncoderKind) -> Seq<(Seq<char>, Seq<char>)> {
    match kind {
        EncoderKind::Nvh264 => seq![
            ("zerolatency"@, "true"@),
            ("tune"@, "ultra-low-latency"@),
            ("rc-mode"@, "cbr"@),
            ("bitrate"@, "12000"@),
            ("gop-size"@, "30"@),
            ("bframes"@, "0"@),
        ],
        EncoderKind::Vah264 => seq![
            ("rate-control"@, "cbr"@),
            ("bitrate"@, "12000"@),
            ("gop-size"@, "30"@),
            ("bframes"@, "0"@),
        ],
        EncoderKind::Vaapih264 => seq![
            ("rate-control"@, "cbr"@),
            ("bitrate"@, "12000"@),
            ("keyframe-period"@, "30"@),
        ],
        EncoderKind::X264 => seq![
            ("tune"@, "zerolatency"@),
            ("speed-preset"@, "ultrafast"@),
            ("bitrate"@, "12000"@),
            ("key-int-max"@, "30"@),
            ("bframes"@, "0"@),
            ("threads"@, "4"@),
            ("sync-lookahead"@, "0"@),
            ("rc-lookahead"@, "0"@),
        ],
        EncoderKind::OpenH264 => seq![("gop-size"@, "30"@), ("bitrate"@, "12000000"@)],
    }
}

/// Views of a list of borrowed property pairs.
pub open spec fn pair_views(v: Seq<(&str, &str)>) -> Seq<(Seq<char>, Seq<char>)> {
    v.map_values(|p: (&str, &str)| (p.0@, p.1@))
}

/// `key=value` for each property that the element exposes, in order.
pub open spec fn kept_assignments(desired: Seq<(Seq<char>, Seq<char>)>, supported: Seq<bool>) -> Seq<
    Seq<char>,
>
    decreases desired.len(),
{
    if desired.len() == 0 {
        seq![]
    } else {
        let k = (desired.len() - 1) as int;
        kept_assignments(desired.drop_last(), supported) + if supported[k] {
            seq![desired[k].0 + "="@ + desired[k].1]
        } else {
            seq![]
        }
    }
}

/// `items` joined with single spaces.
pub open spec fn space_joined(items: Seq<Seq<char>>) -> Seq<char>
    decreases items.len(),
{
    if items.len() == 0 {
        seq![]
    } else if items.len() == 1 {
        items[0]
    } else {
        space_joined(items.drop_last()) + " "@ + items.last()
    }
}

/// The property assignments for an element: empty when the element cannot be made, else the
/// supported `key=value` pairs joined with spaces.
pub open spec fn property_string(
    element_exists: bool,
    desired: Seq<(Seq<char>, Seq<char>)>,
    supported: Seq<bool>,
) -> Seq<char> {
    if element_exists {
        space_joined(kept_assignments(desired, supported))
    } else {
        seq![]
    }
}

/// `keepalive-time` of the PipeWire source: 16 ms natively, 0 when sandboxed (the runtime's
/// `pipewiresrc` double-frees the first buffer when it is nonzero).
pub open spec fn keepalive_of(confined: bool) -> nat {
    if confined {
        0
    } else {
        16
    }
}

/// The `pipewiresrc` element, with `fd=` and `path=` only when a PipeWire fd and node id are
/// known.
pub open spec fn source_desc(keepalive: nat, node_id: Option<u32>, fd: Option<i32>) -> Seq<char> {
    "pipewiresrc do-timestamp=true always-copy=true keepalive-time="@ + decimal(keepalive) + (
    match fd {
        Some(f) => " fd="@ + signed_decimal(f as int),
        None => seq![],
    }) + (match node_id {
        Some(id) => " path="@ + decimal(id as nat),
        None => seq![],
    })
}

/// Raw-video caps pinning the configured resolution (and no framerate).
pub open spec fn caps_desc(width: u32, height: u32) -> Seq<char> {
    "video/x-raw,width="@ + decimal(width as nat) + ",height="@ + decimal(height as nat)
}

/// The whole pipeline: PipeWire source, system-memory raw video, one-buffer leaky queues,
/// conversion and scaling to the configured size, the encoder, baseline-profile Annex-B
/// H.264, and a non-syncing app sink named `sink`.
pub open spec fn pipeline_desc(
    config: StreamConfig,
    confined: bool,
    encoder: Seq<char>,
    node_id: Option<u32>,
    fd: Option<i32>,
) -> Seq<char> {
    source_desc(keepalive_of(confined), node_id, fd)
        + " ! video/x-raw ! queue max-size-buffers=1 max-size-bytes=0 max-size-time=0 leaky=downstream ! videoconvert n-threads=4 ! videoscale ! "@
        + caps_desc(config.width, config.height)
        + " ! queue max-size-buffers=1 max-size-bytes=0 max-size-time=0 leaky=downstream ! "@
        + encoder
        + " ! video/x-h264,profile=baseline ! h264parse config-interval=1 ! video/x-h264,stream-format=byte-stream,alignment=au ! appsink name=sink sync=false max-buffers=1 drop=true"@
}

/// Whatever the configuration, sandboxing, encoder, node id and fd, the encoder's output is
/// constrained to baseline-profile H.264 (which every Android hardware decoder plays) right
/// after the encoder, then parsed with its parameter sets repeated on every keyframe and
/// framed as Annex-B byte-stream access units for the app sink.
pub proof fn law_pipeline_forces_baseline_annex_b(
    config: StreamConfig,
    confined: bool,
    encoder: Seq<char>,
    node_id: Option<u32>,
    fd: Option<i32>,
)
    ensures
        exists|prefix: Seq<char>|
            pipeline_desc(config, confined, encoder, node_id, fd) == prefix + encoder
                + " ! video/x-h264,profile=baseline ! "@
                + "h264parse config-interval=1 ! video/x-h264,stream-format=byte-stream,alignment=au ! appsink name=sink sync=false max-buffers=1 drop=true"@,
{
    let prefix = source_desc(keepalive_of(confined), node_id, fd)
        + " ! video/x-raw ! queue max-size-buffers=1 max-size-bytes=0 max-size-time=0 leaky=downstream ! videoconvert n-threads=4 ! videoscale ! "@
        + caps_desc(config.width, config.height)
        + " ! queue max-size-buffers=1 max-size-bytes=0 max-size-time=0 leaky=downstream ! "@;
    reveal_strlit(" ! video/x-h264,profile=baseline ! ");
    reveal_strlit("h264parse config-interval=1 ! video/x-h264,stream-format=byte-stream,alignment=au ! appsink name=sink sync=false max-buffers=1 drop=true");
    reveal_strlit(" ! video/x-h264,profile=baseline ! h264parse config-interval=1 ! video/x-h264,stream-format=byte-stream,alignment=au ! appsink name=sink sync=false max-buffers=1 drop=true");
    assert(" ! video/x-h264,profile=baseline ! "@
        + "h264parse config-interval=1 ! video/x-h264,stream-format=byte-stream,alignment=au ! appsink name=sink sync=false max-buffers=1 drop=true"@
        =~= " ! video/x-h264,profile=baseline ! h264parse config-interval=1 ! video/x-h264,stream-format=byte-stream,alignment=au ! appsink name=sink sync=false max-buffers=1 drop=true"@);
    assert(pipeline_desc(config, confined, encoder, node_id, fd) =~= prefix + encoder
        + " ! video/x-h264,profile=baseline ! "@
        + "h264parse config-interval=1 ! video/x-h264,stream-format=byte-stream,alignment=au ! appsink name=sink sync=false max-buffers=1 drop=true"@);
}

/// The pipeline pins no framerate: the portal's screencast node is damage-driven, so two
/// configurations of the same resolution give the same pipeline, whatever frame rate,
/// device, ports or mode they ask for.
pub proof fn law_pipeline_depends_only_on_resolution(
    a: StreamConfig,
    b: StreamConfig,
    confined: bool,
    encoder: Seq<char>,
    node_id: Option<u32>,
    fd: Option<i32>,
)
    requires
        a.width == b.width,
        a.height == b.height,
    ensures
        pipeline_desc(a, confined, encoder, node_id, fd) == pipeline_desc(
            b,
            confined,
            encoder,
            node_id,
            fd,
        ),
{
}

/// Chooses the H.264 encoder from what the registry offers and whether the process is
/// sandboxed.
pub fn select_encoder(sandboxed: bool, available: EncoderAvailability) -> (r: EncoderKind)
    ensures
        r == encoder_choice(sandboxed, available),
{
    if !sandboxed && available.nvh264enc {
        EncoderKind::Nvh264
    } else if !sandboxed && available.vah264enc {
        EncoderKind::Vah264
    } else if !sandboxed && available.vaapih264enc {
        EncoderKind::Vaapih264
    } else if available.x264enc {
        EncoderKind::X264
    } else {
        EncoderKind::OpenH264
    }
}

/// Under confinement no hardware encoder is chosen, whatever the registry offers: the choice
/// is x264 when it is installed, else OpenH264.
pub proof fn law_sandboxed_never_hardware(available: EncoderAvailability)
    ensures
        encoder_choice(true, available) == (if available.x264enc {
            EncoderKind::X264
        } else {
            EncoderKind::OpenH264
        }),
{
}

/// Whether an encoder runs on the GPU.
pub open spec fn is_hardware(kind: EncoderKind) -> bool {
    kind == EncoderKind::Nvh264 || kind == EncoderKind::Vah264 || kind == EncoderKind::Vaapih264
}

/// Whether the registry offers an encoder (OpenH264, the last resort, is always tried).
pub open spec fn is_installed(a: EncoderAvailability, kind: EncoderKind) -> bool {
    match kind {
        EncoderKind::Nvh264 => a.nvh264enc,
        EncoderKind::Vah264 => a.vah264enc,
        EncoderKind::Vaapih264 => a.vaapih264enc,
        EncoderKind::X264 => a.x264enc,
        EncoderKind::OpenH264 => true,
    }
}

/// Rank of an encoder in the order of preference, best first.
pub open spec fn preference_rank(kind: EncoderKind) -> nat {
    match kind {
        EncoderKind::Nvh264 => 0,
        EncoderKind::Vah264 => 1,
        EncoderKind::Vaapih264 => 2,
        EncoderKind::X264 => 3,
        EncoderKind::OpenH264 => 4,
    }
}

/// The encoder chosen is the best usable one: it is installed, it is a software encoder
/// when sandboxed, and every installed encoder that is usable (any natively, software ones
/// when sandboxed) ranks no better: NVENC, then VA-API, then legacy VA-API, then x264, then
/// OpenH264. In particular, natively any installed hardware encoder beats x264.
pub proof fn law_encoder_is_best_usable(sandboxed: bool, a: EncoderAvailability, k: EncoderKind)
    ensures
        is_installed(a, encoder_choice(sandboxed, a)),
        sandboxed ==> !is_hardware(encoder_choice(sandboxed, a)),
        is_installed(a, k) && (!sandboxed || !is_hardware(k)) ==> preference_rank(
            encoder_choice(sandboxed, a),
        ) <= preference_rank(k),
        !sandboxed && (a.nvh264enc || a.vah264enc || a.vaapih264enc) ==> is_hardware(
            encoder_choice(sandboxed, a),
        ),
{
}

/// Hardware encoders are preferred natively: NVENC whenever it is installed.
pub proof fn law_native_prefers_nvenc(available: EncoderAvailability)
    requires
        available.nvh264enc,
    ensures
        encoder_choice(false, available) == EncoderKind::Nvh264,
{
}

/// Element name of an encoder.
pub fn encoder_element(kind: EncoderKind) -> (r: &'static str)
    ensures
        r@ == element_name(kind),
{
    match kind {
        EncoderKind::Nvh264 => "nvh264enc",
        EncoderKind::Vah264 => "vah264enc",
        EncoderKind::Vaapih264 => "vaapih264enc",
        EncoderKind::X264 => "x264enc",
        EncoderKind::OpenH264 => "openh264enc",
    }
}

/// The properties wanted for an encoder, in the order they are written.
pub fn encoder_properties(kind: EncoderKind) -> (r: Vec<(&'static str, &'static str)>)
    ensures
        pair_views(r@) == desired_properties(kind),
{
    let r = match kind {
        EncoderKind::Nvh264 => vec![
            ("zerolatency", "true"),
            ("tune", "ultra-low-latency"),
            ("rc-mode", "cbr"),
            ("bitrate", "12000"),
            ("gop-size", "30"),
            ("bframes", "0"),
        ],
        EncoderKind::Vah264 => vec![
            ("rate-control", "cbr"),
            ("bitrate", "12000"),
            ("gop-size", "30"),
            ("bframes", "0"),
        ],
        EncoderKind::Vaapih264 => vec![
            ("rate-control", "cbr"),
            ("bitrate", "12000"),
            ("keyframe-period", "30"),
        ],
        EncoderKind::X264 => vec![
            ("tune", "zerolatency"),
            ("speed-preset", "ultrafast"),
            ("bitrate", "12000"),
            ("key-int-max", "30"),
            ("bframes", "0"),
            ("threads", "4"),
            ("sync-lookahead", "0"),
            ("rc-lookahead", "0"),
        ],
        EncoderKind::OpenH264 => vec![("gop-size", "30"), ("bitrate", "12000000")],
    };
    assert(pair_views(r@) =~= desired_properties(kind));
    r
}

/// Builds `key=value` property assignments for only the properties the element exposes
/// (`supported[i]` for `desired[i]`), joined with spaces; empty when the element could not
/// be made at all.
pub fn supported_properties(element_exists: bool, desired: &Vec<(&str, &str)>, supported: &Vec<bool>) -> (r:
    String)
    requires
        supported@.len() == desired@.len(),
    ensures
        r@ == property_string(element_exists, pair_views(desired@), supported@),
{
    let mut out = String::new();
    if !element_exists {
        return out;
    }
    let mut any = false;
    let mut i: usize = 0;
    assert(pair_views(desired@).take(0).len() == 0);
    while i < desired.len()
        invariant
            supported@.len() == desired@.len(),
            i <= desired@.len(),
            any == (kept_assignments(pair_views(desired@).take(i as int), supported@).len() > 0),
            out@ == space_joined(kept_assignments(pair_views(desired@).take(i as int), supported@)),
        decreases desired@.len() - i,
    {
        let ghost pv = pair_views(desired@);
        let ghost before = kept_assignments(pv.take(i as int), supported@);
        assert(pv.take(i + 1).drop_last() =~= pv.take(i as int));
        assert(pv.take(i + 1)[i as int] == pv[i as int]);
        if supported[i] {
            let (k, v) = desired[i];
            let ghost item = k@ + "="@ + v@;
            if any {
                out.append(" ");
            }
            out.append(k);
            out.append("=");
            out.append(v);
            proof {
                let after = kept_assignments(pv.take(i + 1), supported@);
                assert(after =~= before.push(item));
                assert(after.drop_last() =~= before);
                if before.len() == 0 {
                    assert(out@ =~= item);
                } else {
                    assert(out@ =~= space_joined(before) + " "@ + item);
                }
            }
            any = true;
        } else {
            assert(kept_assignments(pv.take(i + 1), supported@) =~= before);
        }
        i = i + 1;
    }
    assert(pair_views(desired@).take(desired@.len() as int) =~= pair_views(desired@));
    out
}

/// The encoder part of the pipeline: the element name, a space, and its properties.
pub fn encoder_pipeline_string(kind: EncoderKind, properties: &str) -> (r: String)
    ensures
        r@ == element_name(kind) + " "@ + properties@,
{
    let mut s = String::from_str(encoder_element(kind));
    s.append(" ");
    s.append(properties);
    s
}

/// `keepalive-time` of the PipeWire source for a sandboxed or native process.
pub fn keepalive_time(confined: bool) -> (r: u32)
    ensures
        r == keepalive_of(confined),
{
    if confined {
        0
    } else {
        16
    }
}

/// The 4-byte big-endian length prefix written before each encoded frame on the video
/// socket: the frame length taken modulo 2^32.
pub fn frame_length_prefix(len: usize) -> (r: [u8; 4])
    ensures
        r[0] as int * 0x1000000 + r[1] as int * 0x10000 + r[2] as int * 0x100 + r[3] as int == (len
            as u32) as int,
{
    let n = len as u32;
    let b0 = (n >> 24) as u8;
    let b1 = ((n >> 16) & 0xff) as u8;
    let b2 = ((n >> 8) & 0xff) as u8;
    let b3 = (n & 0xff) as u8;
    assert(b0 as int * 0x1000000 + b1 as int * 0x10000 + b2 as int * 0x100 + b3 as int == n as int)
        by (bit_vector)
        requires
            b0 == (n >> 24) as u8,
            b1 == ((n >> 16) & 0xff) as u8,
            b2 == ((n >> 8) & 0xff) as u8,
            b3 == (n & 0xff) as u8,
    ;
    [b0, b1, b2, b3]
}

/// Manages the description of the low-latency H.264 screencast pipeline for one stream.
pub struct ScreencastPipeline {
    /// The stream's parameters.
    pub config: StreamConfig,
}

impl ScreencastPipeline {
    /// Creates a new `ScreencastPipeline` for the specified streaming parameters.
    pub fn new(config: StreamConfig) -> (r: Self)
        ensures
            r.config == config,
    {
        ScreencastPipeline { config }
    }

    /// Constructs the GStreamer pipeline string for PipeWire source -> H.264 encoder ->
    /// app sink. `confined` tells whether the process runs sandboxed; `encoder` is the
    /// encoder element with its properties.
    pub fn build_pipeline_desc(
        &self,
        confined: bool,
        encoder: &str,
        node_id: Option<u32>,
        fd: Option<i32>,
    ) -> (r: String)
        ensures
            r@ == pipeline_desc(self.config, confined, encoder@, node_id, fd),
    {
        let keepalive = keepalive_time(confined);
        let mut s = String::from_str("pipewiresrc do-timestamp=true always-copy=true keepalive-time=");
        push_decimal(&mut s, keepalive as u64);
        match fd {
            Some(f) => {
                s.append(" fd=");
                push_signed_decimal(&mut s, f as i64);
            },
            None => {},
        }
        match node_id {
            Some(id) => {
                s.append(" path=");
                push_decimal(&mut s, id as u64);
            },
            None => {},
        }
        assert(s@ =~= source_desc(keepalive_of(confined), node_id, fd));
        s.append(
            " ! video/x-raw ! queue max-size-buffers=1 max-size-bytes=0 max-size-time=0 leaky=downstream ! videoconvert n-threads=4 ! videoscale ! ",
        );
        s.append("video/x-raw,width=");
        push_decimal(&mut s, self.config.width as u64);
        s.append(",height=");
        push_decimal(&mut s, self.config.height as u64);
        s.append(
            " ! queue max-size-buffers=1 max-size-bytes=0 max-size-time=0 leaky=downstream ! ",
        );
        s.append(encoder);
        s.append(
            " ! video/x-h264,profile=baseline ! h264parse config-interval=1 ! video/x-h264,stream-format=byte-stream,alignment=au ! appsink name=sink sync=false max-buffers=1 drop=true",
        );
        assert(s@ =~= pipeline_desc(self.config, confined, encoder@, node_id, fd));
        s
    }
}

/// The PipeWire source resends its last buffer every 16 ms natively and never when
/// sandboxed; the raw-video caps carry the configured width and height, in that order.
pub proof fn law_keepalive_and_resolution(
    config: StreamConfig,
    confined: bool,
    encoder: Seq<char>,
    node_id: Option<u32>,
    fd: Option<i32>,
)
    ensures
        keepalive_of(true) == 0,
        keepalive_of(false) == 16,
        exists|a: Seq<char>, b: Seq<char>|
            pipeline_desc(config, confined, encoder, node_id, fd) == a + "video/x-raw,width="@
                + decimal(config.width as nat) + ",height="@ + decimal(config.height as nat) + b,
{
    let a = source_desc(keepalive_of(confined), node_id, fd)
        + " ! video/x-raw ! queue max-size-buffers=1 max-size-bytes=0 max-size-time=0 leaky=downstream ! videoconvert n-threads=4 ! videoscale ! "@;
    let b = " ! queue max-size-buffers=1 max-size-bytes=0 max-size-time=0 leaky=downstream ! "@
        + encoder
        + " ! video/x-h264,profile=baseline ! h264parse config-interval=1 ! video/x-h264,stream-format=byte-stream,alignment=au ! appsink name=sink sync=false max-buffers=1 drop=true"@;
    assert(pipeline_desc(config, confined, encoder, node_id, fd) =~= a + "video/x-raw,width="@
        + decimal(config.width as nat) + ",height="@ + decimal(config.height as nat) + b);
}

/// Only the properties the element exposes are written, each as `key=value`: an assignment
/// appears exactly when some wanted property with that key and value is supported.
pub proof fn law_only_supported_properties(
    desired: Seq<(Seq<char>, Seq<char>)>,
    supported: Seq<bool>,
    x: Seq<char>,
)
    requires
        supported.len() == desired.len(),
    ensures
        kept_assignments(desired, supported).contains(x) <==> exists|i: int|
            0 <= i < desired.len() && supported[i] && x == (#[trigger] desired[i]).0 + "="@
                + desired[i].1,
    decreases desired.len(),
{
    if desired.len() > 0 {
        let init = desired.drop_last();
        let n = (desired.len() - 1) as int;
        let sup_init = supported.take(n);
        assert(kept_assignments(init, supported) == kept_assignments(init, sup_init)) by {
            lemma_kept_prefix(init, supported, sup_init);
        }
        law_only_supported_properties(init, sup_init, x);
        let tail = if supported[n] {
            seq![desired[n].0 + "="@ + desired[n].1]
        } else {
            seq![]
        };
        let whole = kept_assignments(desired, supported);
        let before = kept_assignments(init, supported);
        assert(whole == before + tail);
        if whole.contains(x) {
            let k = choose|k: int| 0 <= k < whole.len() && whole[k] == x;
            if k < before.len() {
                assert(before[k] == x);
                let i = choose|i: int|
                    0 <= i < init.len() && sup_init[i] && x == (#[trigger] init[i]).0 + "="@
                        + init[i].1;
                assert(desired[i] == init[i]);
            } else {
                assert(desired[n] == desired[n]);
            }
        }
        if exists|i: int|
            0 <= i < desired.len() && supported[i] && x == (#[trigger] desired[i]).0 + "="@
                + desired[i].1 {
            let i = choose|i: int|
                0 <= i < desired.len() && supported[i] && x == (#[trigger] desired[i]).0 + "="@
                    + desired[i].1;
            if i < n {
                assert(init[i] == desired[i]);
                assert(sup_init[i] == supported[i]);
                let k = choose|k: int| 0 <= k < before.len() && before[k] == x;
                assert(whole[k] == x);
            } else {
                assert(whole[before.len() as int] == x);
            }
        }
    }
}

proof fn lemma_kept_prefix(
    desired: Seq<(Seq<char>, Seq<char>)>,
    supported: Seq<bool>,
    shorter: Seq<bool>,
)
    requires
        desired.len() <= shorter.len() <= supported.len(),
        forall|i: int| 0 <= i < shorter.len() ==> shorter[i] == supported[i],
    ensures
        kept_assignments(desired, supported) == kept_assignments(desired, shorter),
    decreases desired.len(),
{
    if desired.len() > 0 {
        lemma_kept_prefix(desired.drop_last(), supported, shorter);
    }
}

} // verus!
