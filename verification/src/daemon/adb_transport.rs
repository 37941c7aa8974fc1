//! Android Debug Bridge (ADB) plumbing: which binary to run, the arguments of each command,
//! and how its output is read back. Running the commands is left to the caller.

use vstd::prelude::*;
use crate::text::{
    chars_of, contains, push_decimal, push_piece, span_views, split_on, split_spans, str_contains,
    str_eq, trim, trim_whitespace, views, word_spans, words, decimal,
};

verus! {

/// Manages Android Debug Bridge (ADB) device detection, reverse port forwarding, and system
/// property queries.
pub struct AdbTransportManager;

/// How the display form factor of a device was judged from its name and build
/// characteristics.
#[derive(Clone, Copy, Debug, PartialEq, Eq, Structural)]
pub enum FormFactor {
    /// The device names itself a tablet.
    Tablet,
    /// The device names itself a phone.
    Phone,
    /// Neither; the screen's aspect ratio decides.
    Undetermined,
}

/// The serial of an `adb devices` line: its first word, when its second word is `device`.
pub open spec fn line_serial(line: Seq<char>) -> Seq<Seq<char>> {
    let w = words(line);
    if w.len() >= 2 && w[1] == "device"@ {
        seq![w[0]]
    } else {
        seq![]
    }
}

/// The serials of a sequence of `adb devices` lines, in order.
pub open spec fn serials_of(lines: Seq<Seq<char>>) -> Seq<Seq<char>>
    decreases lines.len(),
{
    if lines.len() == 0 {
        seq![]
    } else {
        serials_of(lines.drop_last()) + line_serial(lines.last())
    }
}

/// The serials of the devices listed as ready in the output of `adb devices`. Lines are
/// split at `\n`; a `\r` before it is whitespace and so never part of a word.
pub open spec fn device_serials(output: Seq<char>) -> Seq<Seq<char>> {
    serials_of(split_on(output, '\n'))
}

/// `<home>/Android/Sdk/platform-tools/adb`.
pub open spec fn sdk_adb_path(home: Seq<char>) -> Seq<char> {
    home + "/Android/Sdk/platform-tools/adb"@
}

/// `-s <serial>` when a serial is given, nothing otherwise.
pub open spec fn serial_args(serial: Option<Seq<char>>) -> Seq<Seq<char>> {
    match serial {
        Some(s) => seq!["-s"@, s],
        None => seq![],
    }
}

/// `tcp:<port>`.
pub open spec fn tcp_arg(port: u16) -> Seq<char> {
    "tcp:"@ + decimal(port as nat)
}

/// Arguments of `adb [-s serial] reverse tcp:<local> tcp:<remote>`.
pub open spec fn reverse_arg_list(serial: Option<Seq<char>>, local: u16, remote: u16) -> Seq<
    Seq<char>,
> {
    serial_args(serial) + seq!["reverse"@, tcp_arg(local), tcp_arg(remote)]
}

/// Arguments of `adb [-s serial] shell getprop <prop>`.
pub open spec fn getprop_arg_list(serial: Option<Seq<char>>, prop: Seq<char>) -> Seq<Seq<char>> {
    serial_args(serial) + seq!["shell"@, "getprop"@, prop]
}

/// Arguments of `adb [-s serial] shell wm size`.
pub open spec fn wm_size_arg_list(serial: Option<Seq<char>>) -> Seq<Seq<char>> {
    serial_args(serial) + seq!["shell"@, "wm"@, "size"@]
}

/// The name shown for a device: its marketing name, else its model, else its serial, else a
/// generic label.
pub open spec fn display_name_of(
    market_name: Seq<char>,
    model: Seq<char>,
    serial: Option<Seq<char>>,
) -> Seq<char> {
    if market_name.len() > 0 {
        market_name
    } else if model.len() > 0 {
        model
    } else {
        match serial {
            Some(s) => s,
            None => "Android Device"@,
        }
    }
}

/// The form factor that the (lower-cased) build characteristics and display name suggest.
pub open spec fn form_factor_of(characteristics: Seq<char>, name: Seq<char>) -> FormFactor {
    if contains(characteristics, "tablet"@) || contains(name, "pad"@) || contains(name, "tab"@) {
        FormFactor::Tablet
    } else if contains(name, "phone"@) || contains(name, "pixel"@) || contains(name, "galaxy s"@) {
        FormFactor::Phone
    } else {
        FormFactor::Undetermined
    }
}

/// The two sides of `W x H` in the output of `adb shell wm size` (`Physical size: WxH`): the
/// text after the first `:` (up to a second one), trimmed, must hold exactly one `x`.
pub open spec fn wm_size_sides(output: Seq<char>) -> Option<(Seq<char>, Seq<char>)> {
    let pieces = split_on(output, ':');
    if pieces.len() >= 2 {
        let parts = split_on(trim(pieces[1]), 'x');
        if parts.len() == 2 {
            Some((parts[0], parts[1]))
        } else {
            None
        }
    } else {
        None
    }
}

/// Lower-case mapping of a string, as `str::to_lowercase` performs it (full Unicode case
/// mapping, including its context-dependent rules).
pub uninterp spec fn lowercase(s: Seq<char>) -> Seq<char>;

/// Calls `str::to_lowercase`. Its result is named `lowercase` of the argument: the standard
/// library documents it as a function of the string alone.
#[verifier::external_body]
fn to_lowercase(s: &str) -> (r: String)
    ensures
        r@ == lowercase(s@),
{
    s.to_lowercase()
}

fn push_str_arg(out: &mut Vec<String>, s: &str)
    ensures
        final(out)@.len() == old(out)@.len() + 1,
        forall|k: int| 0 <= k < old(out)@.len() ==> #[trigger] final(out)@[k] == old(out)@[k],
        final(out)@[old(out)@.len() as int]@ == s@,
{
    out.push(s.to_owned());
}

fn serial_arg_vec(serial: Option<&str>) -> (r: Vec<String>)
    ensures
        views(r@) == serial_args(
            match serial {
                Some(s) => Some(s@),
                None => None,
            },
        ),
{
    let mut r: Vec<String> = Vec::new();
    match serial {
        Some(s) => {
            push_str_arg(&mut r, "-s");
            push_str_arg(&mut r, s);
        },
        None => {},
    }
    assert(views(r@) =~= serial_args(
        match serial {
            Some(s) => Some(s@),
            None => None,
        },
    ));
    r
}

fn tcp_arg_string(port: u16) -> (r: String)
    ensures
        r@ == tcp_arg(port),
{
    let mut s = String::from_str("tcp:");
    push_decimal(&mut s, port as u64);
    s
}

/// The view of an optional borrowed string.
pub open spec fn opt_view(s: Option<&str>) -> Option<Seq<char>> {
    match s {
        Some(x) => Some(x@),
        None => None,
    }
}

impl AdbTransportManager {
    /// Path of the `adb` binary inside a default Android SDK installation under `home`.
    pub fn default_sdk_adb_path(home: &str) -> (r: String)
        ensures
            r@ == sdk_adb_path(home@),
    {
        let mut s = String::from_str(home);
        s.append("/Android/Sdk/platform-tools/adb");
        s
    }

    /// Chooses the `adb` binary: `ADB_PATH` from the environment when set, else the default
    /// SDK location when a file exists there, else plain `adb` from `PATH`.
    pub fn choose_adb_path(env_adb_path: Option<String>, sdk_path: String, sdk_path_exists: bool) -> (r:
        String)
        ensures
            r@ == match env_adb_path {
                Some(p) => p@,
                None => if sdk_path_exists {
                    sdk_path@
                } else {
                    "adb"@
                },
            },
    {
        match env_adb_path {
            Some(p) => p,
            None => {
                if sdk_path_exists {
                    sdk_path
                } else {
                    String::from_str("adb")
                }
            },
        }
    }

    /// Reads the output of `adb devices` and returns the serials of the devices it lists as
    /// ready (state `device`), in the order listed.
    pub fn parse_device_list(output: &str) -> (r: Vec<String>)
        ensures
            views(r@) == device_serials(output@),
    {
        let v = chars_of(output);
        let lines = split_spans(&v, '\n');
        let mut r: Vec<String> = Vec::new();
        let mut k: usize = 0;
        while k < lines.len()
            invariant
                v@ == output@,
                span_views(v@, lines@) == split_on(v@, '\n'),
                forall|j: int|
                    0 <= j < lines.len() ==> (#[trigger] lines@[j]).0 <= lines@[j].1 && lines@[j].1
                        <= v.len(),
                k <= lines.len(),
                views(r@) == serials_of(split_on(v@, '\n').take(k as int)),
            decreases lines.len() - k,
        {
            let (lo, hi) = lines[k];
            let ghost line = v@.subrange(lo as int, hi as int);
            let ghost all = split_on(v@, '\n');
            assert(all[k as int] == line);
            assert(all.take(k + 1).drop_last() =~= all.take(k as int));
            let w = word_spans(&v, lo, hi);
            let ghost ws = words(line);
            let ghost old_r = r@;
            if w.len() >= 2 {
                let (a1, b1) = w[1];
                let (a0, b0) = w[0];
                assert(ws[1] == v@.subrange(a1 as int, b1 as int));
                assert(ws[0] == v@.subrange(a0 as int, b0 as int));
                if str_eq(output.substring_char(a1, b1), "device") {
                    push_piece(&mut r, output, a0, b0);
                    assert(views(r@) =~= views(old_r) + line_serial(line));
                } else {
                    assert(line_serial(line) =~= Seq::<Seq<char>>::empty());
                    assert(views(r@) =~= views(old_r) + line_serial(line));
                }
            } else {
                assert(line_serial(line) =~= Seq::<Seq<char>>::empty());
                assert(views(r@) =~= views(old_r) + line_serial(line));
            }
            k = k + 1;
        }
        assert(split_on(v@, '\n').take(lines.len() as int) =~= split_on(v@, '\n'));
        r
    }

    /// Arguments of `adb [-s serial] reverse tcp:<local_port> tcp:<remote_port>`: the reverse
    /// TCP port forward set up for a stream.
    pub fn reverse_args(device_serial: Option<&str>, local_port: u16, remote_port: u16) -> (r: Vec<
        String,
    >)
        ensures
            views(r@) == reverse_arg_list(opt_view(device_serial), local_port, remote_port),
    {
        let mut r = serial_arg_vec(device_serial);
        let ghost old_r = r@;
        push_str_arg(&mut r, "reverse");
        r.push(tcp_arg_string(local_port));
        r.push(tcp_arg_string(remote_port));
        assert(views(r@) =~= views(old_r) + seq!["reverse"@, tcp_arg(local_port), tcp_arg(remote_port)]);
        r
    }

    /// Arguments of `adb [-s serial] shell getprop <prop>`.
    pub fn getprop_args(serial: Option<&str>, prop: &str) -> (r: Vec<String>)
        ensures
            views(r@) == getprop_arg_list(opt_view(serial), prop@),
    {
        let mut r = serial_arg_vec(serial);
        let ghost old_r = r@;
        push_str_arg(&mut r, "shell");
        push_str_arg(&mut r, "getprop");
        push_str_arg(&mut r, prop);
        assert(views(r@) =~= views(old_r) + seq!["shell"@, "getprop"@, prop@]);
        r
    }

    /// Arguments of `adb [-s serial] shell wm size`.
    pub fn wm_size_args(serial: Option<&str>) -> (r: Vec<String>)
        ensures
            views(r@) == wm_size_arg_list(opt_view(serial)),
    {
        let mut r = serial_arg_vec(serial);
        let ghost old_r = r@;
        push_str_arg(&mut r, "shell");
        push_str_arg(&mut r, "wm");
        push_str_arg(&mut r, "size");
        assert(views(r@) =~= views(old_r) + seq!["shell"@, "wm"@, "size"@]);
        r
    }

    /// The outcome of `adb reverse`: success, or the message `ADB reverse failed: <stderr>`.
    pub fn reverse_outcome(success: bool, stderr: &str) -> (r: Result<(), String>)
        ensures
            success ==> r is Ok,
            !success ==> (r matches Err(m) && m@ == "ADB reverse failed: "@ + stderr@),
    {
        if success {
            Ok(())
        } else {
            let mut m = String::from_str("ADB reverse failed: ");
            m.append(stderr);
            Err(m)
        }
    }

    /// A property value as `adb shell getprop` printed it, without surrounding whitespace.
    pub fn prop_value(output: &str) -> (r: String)
        ensures
            r@ == trim(output@),
    {
        trim_whitespace(output)
    }

    /// The name shown for a device: its marketing name, else its model, else its serial, else
    /// `Android Device`.
    pub fn display_name(market_name: &str, model: &str, serial: Option<&str>) -> (r: String)
        ensures
            r@ == display_name_of(market_name@, model@, opt_view(serial)),
    {
        if !market_name.is_empty() {
            market_name.to_owned()
        } else if !model.is_empty() {
            model.to_owned()
        } else {
            match serial {
                Some(s) => s.to_owned(),
                None => String::from_str("Android Device"),
            }
        }
    }

    /// Judges the form factor from the lower-cased build characteristics and display name:
    /// `tablet`, `pad` or `tab` make a tablet; otherwise `phone`, `pixel` or `galaxy s` make a
    /// phone; otherwise it is undetermined.
    pub fn classify_form_factor(characteristics: &str, name: &str) -> (r: FormFactor)
        ensures
            r == form_factor_of(characteristics@, name@),
    {
        if str_contains(characteristics, "tablet") || str_contains(name, "pad") || str_contains(
            name,
            "tab",
        ) {
            FormFactor::Tablet
        } else if str_contains(name, "phone") || str_contains(name, "pixel") || str_contains(
            name,
            "galaxy s",
        ) {
            FormFactor::Phone
        } else {
            FormFactor::Undetermined
        }
    }

    /// Display name and form factor of a device from its `ro.product.marketname`,
    /// `ro.product.model` and `ro.build.characteristics` properties (both compared in lower
    /// case).
    pub fn device_details(
        market_name: &str,
        model: &str,
        characteristics: &str,
        serial: Option<&str>,
    ) -> (r: (String, FormFactor))
        ensures
            r.0@ == display_name_of(market_name@, model@, opt_view(serial)),
            r.1 == form_factor_of(
                lowercase(characteristics@),
                lowercase(display_name_of(market_name@, model@, opt_view(serial))),
            ),
    {
        let name = Self::display_name(market_name, model, serial);
        let ch = to_lowercase(characteristics);
        let nl = to_lowercase(name.as_str());
        let f = Self::classify_form_factor(ch.as_str(), nl.as_str());
        (name, f)
    }

    /// The two sides of `WxH` in the output of `adb shell wm size`, before they are read as
    /// numbers.
    pub fn wm_size_dimensions(output: &str) -> (r: Option<(String, String)>)
        ensures
            match r {
                Some((w, h)) => wm_size_sides(output@) == Some((w@, h@)),
                None => wm_size_sides(output@) is None,
            },
    {
        let v = chars_of(output);
        let pieces = split_spans(&v, ':');
        if pieces.len() < 2 {
            return None;
        }
        let (a, b) = pieces[1];
        assert(split_on(output@, ':')[1] == v@.subrange(a as int, b as int));
        let dims = trim_whitespace(output.substring_char(a, b));
        let dv = chars_of(dims.as_str());
        let parts = split_spans(&dv, 'x');
        if parts.len() != 2 {
            return None;
        }
        let (p0, q0) = parts[0];
        let (p1, q1) = parts[1];
        let w = dims.as_str().substring_char(p0, q0).to_owned();
        let h = dims.as_str().substring_char(p1, q1).to_owned();
        Some((w, h))
    }
}

/// A device is judged a tablet when its build characteristics mention `tablet` or its name
/// mentions `pad` or `tab`, even if the name also looks like a phone's; a phone when its
/// name mentions `phone`, `pixel` or `galaxy s` and nothing says tablet; otherwise the
/// screen's aspect ratio has to decide.
pub proof fn law_tablet_hints_win(characteristics: Seq<char>, name: Seq<char>)
    ensures
        contains(characteristics, "tablet"@) ==> form_factor_of(characteristics, name)
            == FormFactor::Tablet,
        contains(name, "pad"@) || contains(name, "tab"@) ==> form_factor_of(characteristics, name)
            == FormFactor::Tablet,
        !contains(characteristics, "tablet"@) && !contains(name, "pad"@) && !contains(name, "tab"@)
            && (contains(name, "phone"@) || contains(name, "pixel"@) || contains(name, "galaxy s"@))
            ==> form_factor_of(characteristics, name) == FormFactor::Phone,
        form_factor_of(characteristics, name) == FormFactor::Undetermined ==> !contains(
            name,
            "phone"@,
        ) && !contains(name, "pixel"@) && !contains(name, "tab"@) && !contains(name, "pad"@),
{
}

/// The name shown is the most specific one known: the marketing name whenever there is
/// one, the model only without it, the serial only without both; it is never empty when a
/// non-empty serial is given or none at all.
pub proof fn law_display_name_preference(market: Seq<char>, model: Seq<char>, serial: Option<Seq<char>>)
    ensures
        market.len() > 0 ==> display_name_of(market, model, serial) == market,
        market.len() == 0 && model.len() > 0 ==> display_name_of(market, model, serial) == model,
        market.len() == 0 && model.len() == 0 && serial is Some ==> display_name_of(
            market,
            model,
            serial,
        ) == serial->0,
        (serial matches Some(s) ==> s.len() > 0) ==> display_name_of(market, model, serial).len()
            > 0,
{
    reveal_strlit("Android Device");
}

/// `adb reverse` gets the local port first and the remote port last, each as
/// `tcp:<port>`, after the `reverse` subcommand and the optional `-s <serial>`.
pub proof fn law_reverse_local_port_first(serial: Option<Seq<char>>, local: u16, remote: u16)
    ensures
        ({
            let a = reverse_arg_list(serial, local, remote);
            &&& a.len() == (if serial is Some { 5int } else { 3int })
            &&& a[a.len() - 3] == "reverse"@
            &&& a[a.len() - 2] == "tcp:"@ + decimal(local as nat)
            &&& a.last() == "tcp:"@ + decimal(remote as nat)
            &&& (serial matches Some(s) ==> a[0] == "-s"@ && a[1] == s)
        }),
{
}

/// Whether a line of `adb devices` lists a device as ready: its second word is `device`
/// (not `offline`, `unauthorized`, ...).
pub open spec fn lists_ready(line: Seq<char>) -> bool {
    words(line).len() >= 2 && words(line)[1] == "device"@
}

/// The serials read from `adb devices` are exactly the first words of the lines that list a
/// device as ready: a device listed `offline` or `unauthorized`, the header, and blank
/// lines contribute nothing.
pub proof fn law_serials_are_ready_devices(lines: Seq<Seq<char>>, s: Seq<char>)
    ensures
        serials_of(lines).contains(s) <==> exists|i: int|
            0 <= i < lines.len() && lists_ready(#[trigger] lines[i]) && words(lines[i])[0] == s,
    decreases lines.len(),
{
    if lines.len() > 0 {
        let init = lines.drop_last();
        law_serials_are_ready_devices(init, s);
        let l = lines.last();
        assert(serials_of(lines) == serials_of(init) + line_serial(l));
        if serials_of(lines).contains(s) {
            let k = choose|k: int| 0 <= k < serials_of(lines).len() && serials_of(lines)[k] == s;
            if k < serials_of(init).len() {
                assert(serials_of(init)[k] == s);
                let i = choose|i: int|
                    0 <= i < init.len() && lists_ready(#[trigger] init[i]) && words(init[i])[0] == s;
                assert(lines[i] == init[i]);
            } else {
                assert(lines[lines.len() - 1] == l);
            }
        }
        if exists|i: int| 0 <= i < lines.len() && lists_ready(#[trigger] lines[i]) && words(lines[i])[0] == s {
            let i = choose|i: int|
                0 <= i < lines.len() && lists_ready(#[trigger] lines[i]) && words(lines[i])[0] == s;
            if i < lines.len() - 1 {
                assert(init[i] == lines[i]);
                let k = choose|k: int| 0 <= k < serials_of(init).len() && serials_of(init)[k] == s;
                assert(serials_of(lines)[k] == s);
            } else {
                assert(lines[lines.len() - 1] == l);
                assert(serials_of(lines)[serials_of(init).len() as int] == s);
            }
        }
    }
}

/// The serials read from the whole output of `adb devices` are the first words of its
/// lines (split at line feeds) that list a device as ready.
pub proof fn law_device_serials_are_ready_devices(output: Seq<char>, s: Seq<char>)
    ensures
        device_serials(output).contains(s) <==> exists|i: int|
            0 <= i < split_on(output, '\n').len() && lists_ready(#[trigger] split_on(output, '\n')[i])
                && words(split_on(output, '\n')[i])[0] == s,
{
    law_serials_are_ready_devices(split_on(output, '\n'), s);
}

} // verus!
