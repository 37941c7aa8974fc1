//! Content of the system tray indicator: its status, tooltip and context menu, computed from
//! the list of connected devices.

use vstd::prelude::*;
use crate::i18n::{law_stream_toggle_labels, tr, translation};
use crate::text::str_eq;

verus! {

/// StatusNotifierItem identifier of the tray icon.
pub const TRAY_ID: &'static str = "dev.victorcarreras.Nib";

/// Title of the tray icon.
pub const TRAY_TITLE: &'static str = "Nib";

/// Symbolic icon of the tray icon.
pub const TRAY_ICON: &'static str = "video-display-symbolic";

/// Metadata representing a connected mobile device and its active video streaming state.
#[derive(Clone, Debug)]
pub struct DeviceInfo {
    /// ADB serial.
    pub serial: String,
    /// Display name.
    pub name: String,
    /// Whether the device is a tablet rather than a phone.
    pub is_tablet: bool,
    /// Whether a stream to it is running.
    pub is_streaming: bool,
}

impl View for DeviceInfo {
    type V = (Seq<char>, Seq<char>, bool, bool);

    open spec fn view(&self) -> (Seq<char>, Seq<char>, bool, bool) {
        (self.serial@, self.name@, self.is_tablet, self.is_streaming)
    }
}

/// Views of a device list.
pub open spec fn info_views(d: Seq<DeviceInfo>) -> Seq<(Seq<char>, Seq<char>, bool, bool)> {
    d.map_values(|x: DeviceInfo| x@)
}

/// Whether two device lists are the same, entry by entry.
pub fn same_device_infos(a: &Vec<DeviceInfo>, b: &Vec<DeviceInfo>) -> (r: bool)
    ensures
        r == (info_views(a@) == info_views(b@)),
{
    if a.len() != b.len() {
        assert(info_views(a@).len() != info_views(b@).len());
        return false;
    }
    let mut i: usize = 0;
    while i < a.len()
        invariant
            a@.len() == b@.len(),
            i <= a@.len(),
            forall|j: int| 0 <= j < i ==> (#[trigger] a@[j])@ == b@[j]@,
        decreases a@.len() - i,
    {
        let x = &a[i];
        let y = &b[i];
        if !(str_eq(x.serial.as_str(), y.serial.as_str()) && str_eq(x.name.as_str(), y.name.as_str())
            && x.is_tablet == y.is_tablet && x.is_streaming == y.is_streaming) {
            assert(info_views(a@)[i as int] != info_views(b@)[i as int]);
            return false;
        }
        i = i + 1;
    }
    assert(info_views(a@) =~= info_views(b@));
    true
}

/// Status of the tray icon.
#[derive(Clone, Copy, Debug, PartialEq, Eq, Structural)]
pub enum TrayStatus {
    /// Some device is connected or streaming.
    Active,
    /// Nothing connected.
    Passive,
}

/// `Active` when any device is streaming or any is connected, `Passive` otherwise.
pub open spec fn status_of(devices: Seq<DeviceInfo>) -> TrayStatus {
    if (exists|i: int| 0 <= i < devices.len() && (#[trigger] devices[i]).is_streaming)
        || devices.len() > 0 {
        TrayStatus::Active
    } else {
        TrayStatus::Passive
    }
}

/// Reports `Active` when any device is connected or streaming, `Passive` otherwise.
pub fn tray_status(devices: &Vec<DeviceInfo>) -> (r: TrayStatus)
    ensures
        r == status_of(devices@),
{
    let mut any_streaming = false;
    let mut i: usize = 0;
    while i < devices.len()
        invariant
            i <= devices@.len(),
            any_streaming == exists|j: int| 0 <= j < i && (#[trigger] devices@[j]).is_streaming,
        decreases devices@.len() - i,
    {
        if devices[i].is_streaming {
            any_streaming = true;
        }
        i = i + 1;
    }
    if any_streaming || !devices.is_empty() {
        TrayStatus::Active
    } else {
        TrayStatus::Passive
    }
}

/// Names of the devices, optionally only the streaming ones, in order.
pub open spec fn names_of(devices: Seq<DeviceInfo>, streaming_only: bool) -> Seq<Seq<char>>
    decreases devices.len(),
{
    if devices.len() == 0 {
        seq![]
    } else {
        let d = devices.last();
        names_of(devices.drop_last(), streaming_only) + if !streaming_only || d.is_streaming {
            seq![d.name@]
        } else {
            seq![]
        }
    }
}

/// `items` joined with `, `.
pub open spec fn comma_joined(items: Seq<Seq<char>>) -> Seq<char>
    decreases items.len(),
{
    if items.len() == 0 {
        seq![]
    } else if items.len() == 1 {
        items[0]
    } else {
        comma_joined(items.drop_last()) + ", "@ + items.last()
    }
}

/// Tooltip text: the streaming devices when any stream runs, else the connected devices,
/// else a note that none is connected.
pub open spec fn tooltip_of(devices: Seq<DeviceInfo>, spanish: bool) -> Seq<char> {
    let streaming = names_of(devices, true);
    if streaming.len() > 0 {
        translation("tray_streaming_active"@, spanish) + " "@ + comma_joined(streaming)
    } else if devices.len() > 0 {
        translation("tray_devices_connected"@, spanish) + " "@ + comma_joined(
            names_of(devices, false),
        )
    } else {
        translation("tray_no_devices"@, spanish)
    }
}

fn joined_names(devices: &Vec<DeviceInfo>, streaming_only: bool) -> (r: (String, usize))
    ensures
        r.0@ == comma_joined(names_of(devices@, streaming_only)),
        r.1 == names_of(devices@, streaming_only).len(),
{
    let mut out = String::new();
    let mut count: usize = 0;
    let mut i: usize = 0;
    assert(devices@.take(0) =~= Seq::<DeviceInfo>::empty());
    while i < devices.len()
        invariant
            i <= devices@.len(),
            count <= i,
            count == names_of(devices@.take(i as int), streaming_only).len(),
            out@ == comma_joined(names_of(devices@.take(i as int), streaming_only)),
        decreases devices@.len() - i,
    {
        let d = &devices[i];
        let ghost before = names_of(devices@.take(i as int), streaming_only);
        assert(devices@.take(i + 1).drop_last() =~= devices@.take(i as int));
        assert(devices@.take(i + 1).last() == devices@[i as int]);
        if !streaming_only || d.is_streaming {
            if count > 0 {
                out.append(", ");
            }
            out.append(d.name.as_str());
            proof {
                let after = names_of(devices@.take(i + 1), streaming_only);
                assert(after =~= before.push(d.name@));
                assert(after.drop_last() =~= before);
                if before.len() == 0 {
                    assert(out@ =~= d.name@);
                }
            }
            count = count + 1;
        } else {
            assert(names_of(devices@.take(i + 1), streaming_only) =~= before);
        }
        i = i + 1;
    }
    assert(devices@.take(devices@.len() as int) =~= devices@);
    (out, count)
}

/// Builds the hover tooltip text summarizing connected and streaming devices.
pub fn tooltip_description(devices: &Vec<DeviceInfo>, spanish: bool) -> (r: String)
    ensures
        r@ == tooltip_of(devices@, spanish),
{
    let (streaming, n) = joined_names(devices, true);
    if n > 0 {
        let mut s = String::from_str(tr("tray_streaming_active", spanish));
        s.append(" ");
        s.append(streaming.as_str());
        s
    } else if devices.len() > 0 {
        let (all, _) = joined_names(devices, false);
        let mut s = String::from_str(tr("tray_devices_connected", spanish));
        s.append(" ");
        s.append(all.as_str());
        s
    } else {
        String::from_str(tr("tray_no_devices", spanish))
    }
}

/// What activating a menu entry does.
#[derive(Clone, Debug)]
pub enum MenuAction {
    /// Nothing (a disabled entry).
    Nothing,
    /// Toggle the stream of the device with this serial.
    ToggleDevice(String),
    /// Show the main window.
    ShowWindow,
    /// Quit the application.
    Quit,
}

/// One entry of the tray menu.
#[derive(Clone, Debug)]
pub enum MenuEntry {
    /// A clickable entry.
    Item { label: String, enabled: bool, icon: &'static str, action: MenuAction },
    /// A separator line.
    Separator,
}

/// Mathematical view of a menu action.
pub enum ActionView {
    /// Nothing.
    Nothing,
    /// Toggle the stream of the device with this serial.
    ToggleDevice(Seq<char>),
    /// Show the main window.
    ShowWindow,
    /// Quit.
    Quit,
}

/// Mathematical view of a menu entry.
pub enum EntryView {
    /// A clickable entry.
    Item { label: Seq<char>, enabled: bool, icon: Seq<char>, action: ActionView },
    /// A separator line.
    Separator,
}

impl View for MenuAction {
    type V = ActionView;

    open spec fn view(&self) -> ActionView {
        match self {
            MenuAction::Nothing => ActionView::Nothing,
            MenuAction::ToggleDevice(s) => ActionView::ToggleDevice(s@),
            MenuAction::ShowWindow => ActionView::ShowWindow,
            MenuAction::Quit => ActionView::Quit,
        }
    }
}

impl View for MenuEntry {
    type V = EntryView;

    open spec fn view(&self) -> EntryView {
        match self {
            MenuEntry::Item { label, enabled, icon, action } => EntryView::Item {
                label: label@,
                enabled: *enabled,
                icon: icon@,
                action: action@,
            },
            MenuEntry::Separator => EntryView::Separator,
        }
    }
}

/// Views of a menu.
pub open spec fn entry_views(m: Seq<MenuEntry>) -> Seq<EntryView> {
    m.map_values(|e: MenuEntry| e@)
}

/// The start/stop entry of a device: `<Start|Stop> (<name>)`, a tablet or phone icon, and
/// toggling its stream.
pub open spec fn device_entry(d: DeviceInfo, spanish: bool) -> EntryView {
    EntryView::Item {
        label: translation(if d.is_streaming { "stop_stream"@ } else { "start_stream"@ }, spanish)
            + " ("@ + d.name@ + ")"@,
        enabled: true,
        icon: if d.is_tablet { "tablet-symbolic"@ } else { "phone-symbolic"@ },
        action: ActionView::ToggleDevice(d.serial@),
    }
}

/// The device entries of the menu, in device order.
pub open spec fn device_entries(devices: Seq<DeviceInfo>, spanish: bool) -> Seq<EntryView>
    decreases devices.len(),
{
    if devices.len() == 0 {
        seq![]
    } else {
        device_entries(devices.drop_last(), spanish).push(device_entry(devices.last(), spanish))
    }
}

/// The tray context menu: one start/stop entry per device (or a disabled "no devices" entry),
/// then a separator, "show window", a separator, and "quit".
pub open spec fn menu_of(devices: Seq<DeviceInfo>, spanish: bool) -> Seq<EntryView> {
    (if devices.len() == 0 {
        seq![
            EntryView::Item {
                label: translation("tray_no_devices"@, spanish),
                enabled: false,
                icon: "display-symbolic"@,
                action: ActionView::Nothing,
            },
        ]
    } else {
        device_entries(devices, spanish)
    }) + seq![
        EntryView::Separator,
        EntryView::Item {
            label: translation("tray_show"@, spanish),
            enabled: true,
            icon: "window-pop-out-symbolic"@,
            action: ActionView::ShowWindow,
        },
        EntryView::Separator,
        EntryView::Item {
            label: translation("tray_quit"@, spanish),
            enabled: true,
            icon: "application-exit-symbolic"@,
            action: ActionView::Quit,
        },
    ]
}

fn device_menu_entry(d: &DeviceInfo, spanish: bool) -> (r: MenuEntry)
    ensures
        r@ == device_entry(*d, spanish),
{
    let action_text = if d.is_streaming {
        tr("stop_stream", spanish)
    } else {
        tr("start_stream", spanish)
    };
    let mut label = String::from_str(action_text);
    label.append(" (");
    label.append(d.name.as_str());
    label.append(")");
    let icon = if d.is_tablet {
        "tablet-symbolic"
    } else {
        "phone-symbolic"
    };
    MenuEntry::Item {
        label,
        enabled: true,
        icon,
        action: MenuAction::ToggleDevice(d.serial.clone()),
    }
}

/// Builds the tray context menu: one start/stop entry per device, plus show-window and quit.
pub fn tray_menu(devices: &Vec<DeviceInfo>, spanish: bool) -> (r: Vec<MenuEntry>)
    ensures
        entry_views(r@) == menu_of(devices@, spanish),
{
    let mut items: Vec<MenuEntry> = Vec::new();
    if devices.is_empty() {
        items.push(
            MenuEntry::Item {
                label: String::from_str(tr("tray_no_devices", spanish)),
                enabled: false,
                icon: "display-symbolic",
                action: MenuAction::Nothing,
            },
        );
    } else {
        let mut i: usize = 0;
        assert(devices@.take(0) =~= Seq::<DeviceInfo>::empty());
        while i < devices.len()
            invariant
                i <= devices@.len(),
                entry_views(items@) == device_entries(devices@.take(i as int), spanish),
            decreases devices@.len() - i,
        {
            let ghost before = items@;
            items.push(device_menu_entry(&devices[i], spanish));
            assert(devices@.take(i + 1).drop_last() =~= devices@.take(i as int));
            assert(devices@.take(i + 1).last() == devices@[i as int]);
            assert(entry_views(items@) =~= entry_views(before).push(
                device_entry(devices@[i as int], spanish),
            ));
            i = i + 1;
        }
        assert(devices@.take(devices@.len() as int) =~= devices@);
    }
    let ghost head = entry_views(items@);
    items.push(MenuEntry::Separator);
    items.push(
        MenuEntry::Item {
            label: String::from_str(tr("tray_show", spanish)),
            enabled: true,
            icon: "window-pop-out-symbolic",
            action: MenuAction::ShowWindow,
        },
    );
    items.push(MenuEntry::Separator);
    items.push(
        MenuEntry::Item {
            label: String::from_str(tr("tray_quit", spanish)),
            enabled: true,
            icon: "application-exit-symbolic",
            action: MenuAction::Quit,
        },
    );
    assert(entry_views(items@) =~= menu_of(devices@, spanish));
    items
}

proof fn lemma_device_entries_len(devices: Seq<DeviceInfo>, spanish: bool)
    ensures
        device_entries(devices, spanish).len() == devices.len(),
        forall|i: int|
            0 <= i < devices.len() ==> #[trigger] device_entries(devices, spanish)[i]
                == device_entry(devices[i], spanish),
    decreases devices.len(),
{
    if devices.len() > 0 {
        lemma_device_entries_len(devices.drop_last(), spanish);
        assert forall|i: int| 0 <= i < devices.len() implies #[trigger] device_entries(
            devices,
            spanish,
        )[i] == device_entry(devices[i], spanish) by {
            if i < devices.len() - 1 {
                assert(devices.drop_last()[i] == devices[i]);
            }
        }
    }
}

/// Every connected device gets exactly one menu entry, in order, and that entry toggles that
/// device's stream; the menu always ends with "show window" and "quit".
pub proof fn law_menu_has_one_entry_per_device(devices: Seq<DeviceInfo>, spanish: bool)
    requires
        devices.len() > 0,
    ensures
        menu_of(devices, spanish).len() == devices.len() + 4,
        forall|i: int|
            0 <= i < devices.len() ==> (#[trigger] menu_of(devices, spanish)[i] matches EntryView::Item {
                action: ActionView::ToggleDevice(s),
                ..
            } && s == devices[i].serial@),
        menu_of(devices, spanish)[(devices.len() + 1) as int] matches EntryView::Item {
            action: ActionView::ShowWindow,
            ..
        },
        menu_of(devices, spanish)[(devices.len() + 3) as int] matches EntryView::Item {
            action: ActionView::Quit,
            ..
        },
{
    lemma_device_entries_len(devices, spanish);
}

/// Each device's menu entry offers what toggling does for it: a streaming device's entry
/// stops its stream ("Stop Stream", "Detener transmisi\u{f3}n"), any other device's entry
/// starts one ("Start Stream", "Iniciar transmisi\u{f3}n"), followed by the device's name in
/// parentheses, with the tablet or phone icon, and toggling that device's serial.
pub proof fn law_menu_entries_say_what_they_do(devices: Seq<DeviceInfo>, spanish: bool, i: int)
    requires
        0 <= i < devices.len(),
    ensures
        menu_of(devices, spanish)[i] == (EntryView::Item {
            label: (if devices[i].is_streaming {
                if spanish {
                    "Detener transmisi\u{f3}n"@
                } else {
                    "Stop Stream"@
                }
            } else {
                if spanish {
                    "Iniciar transmisi\u{f3}n"@
                } else {
                    "Start Stream"@
                }
            }) + " ("@ + devices[i].name@ + ")"@,
            enabled: true,
            icon: if devices[i].is_tablet {
                "tablet-symbolic"@
            } else {
                "phone-symbolic"@
            },
            action: ActionView::ToggleDevice(devices[i].serial@),
        }),
{
    lemma_device_entries_len(devices, spanish);
    law_stream_toggle_labels(spanish);
}

/// The tray icon is active exactly when at least one device is connected.
pub proof fn law_tray_active_iff_devices(devices: Seq<DeviceInfo>)
    ensures
        (status_of(devices) == TrayStatus::Active) <==> devices.len() > 0,
{
    if exists|i: int| 0 <= i < devices.len() && (#[trigger] devices[i]).is_streaming {
        let i = choose|i: int| 0 <= i < devices.len() && (#[trigger] devices[i]).is_streaming;
        assert(devices.len() > 0);
    }
}

/// The names a tooltip lists: with `streaming_only`, a name appears exactly when some
/// streaming device has it; otherwise exactly when some connected device has it.
pub proof fn law_listed_names(devices: Seq<DeviceInfo>, streaming_only: bool, n: Seq<char>)
    ensures
        names_of(devices, streaming_only).contains(n) <==> exists|i: int|
            0 <= i < devices.len() && (#[trigger] devices[i]).name@ == n && (!streaming_only
                || devices[i].is_streaming),
    decreases devices.len(),
{
    if devices.len() > 0 {
        let init = devices.drop_last();
        law_listed_names(init, streaming_only, n);
        let d = devices.last();
        let whole = names_of(devices, streaming_only);
        let before = names_of(init, streaming_only);
        let tail = if !streaming_only || d.is_streaming {
            seq![d.name@]
        } else {
            seq![]
        };
        assert(whole == before + tail);
        if whole.contains(n) {
            let k = choose|k: int| 0 <= k < whole.len() && whole[k] == n;
            if k < before.len() {
                assert(before[k] == n);
                let i = choose|i: int|
                    0 <= i < init.len() && (#[trigger] init[i]).name@ == n && (!streaming_only
                        || init[i].is_streaming);
                assert(devices[i] == init[i]);
            } else {
                assert(devices[devices.len() - 1] == d);
            }
        }
        if exists|i: int|
            0 <= i < devices.len() && (#[trigger] devices[i]).name@ == n && (!streaming_only
                || devices[i].is_streaming) {
            let i = choose|i: int|
                0 <= i < devices.len() && (#[trigger] devices[i]).name@ == n && (!streaming_only
                    || devices[i].is_streaming);
            if i < devices.len() - 1 {
                assert(init[i] == devices[i]);
                let k = choose|k: int| 0 <= k < before.len() && before[k] == n;
                assert(whole[k] == n);
            } else {
                assert(devices[devices.len() - 1] == d);
                assert(whole[before.len() as int] == n);
            }
        }
    }
}

} // verus!
