use vstd::prelude::*;
use vstd::string::StringExecFns;

use crate::audio::InputDeviceInfo;
use crate::text::{contains_char, text_eq, trim_text, trimmed};

verus! {

// ---------------------------------------------------------------------------
// Command line
// ---------------------------------------------------------------------------

/// What the daemon does on start.
pub enum StartupAction {
    /// Run the instance of this name.
    Run(String),
    /// Print the audio input devices.
    ListInputDevices,
    /// Stop with this exit code, after printing the error (if any) and then
    /// the usage (if asked).
    Exit { code: i32, error: Option<String>, show_help: bool },
}

/// The usage text for the program named `program`.
pub open spec fn help_spec(program: Seq<char>) -> Seq<char> {
    "Usage:\n  "@ + program + " --instance <NAME>\n  "@ + program
        + " --list-input-devices\n\nOptions:\n  --instance <NAME>       启动指定实例\n  --list-input-devices    列出可选的音频输入设备\n  -h, --help              显示此帮助信息"@
}

/// The usage text for the program named `program`.
pub fn help_text(program: &str) -> (r: String)
    ensures
        r@ == help_spec(program@),
{
    let mut r = String::from_str("Usage:\n  ");
    r.append(program);
    r.append(" --instance <NAME>\n  ");
    r.append(program);
    r.append(
        " --list-input-devices\n\nOptions:\n  --instance <NAME>       启动指定实例\n  --list-input-devices    列出可选的音频输入设备\n  -h, --help              显示此帮助信息",
    );
    r
}

/// Index of the first `--instance` among `args` at or after `i`.
pub open spec fn first_instance_flag(args: Seq<String>, i: int) -> int
    decreases args.len() - i,
{
    if i < 0 || i >= args.len() {
        args.len() as int
    } else if args[i]@ == "--instance"@ {
        i
    } else {
        first_instance_flag(args, i + 1)
    }
}

/// The startup decision for the arguments after the program name, as plain
/// values: `0` run the instance named by the text, `1` list the devices,
/// `2` exit with the code, the optional error text, and whether to print the
/// usage.
pub open spec fn startup_spec(args: Seq<String>) -> (int, Seq<char>, i32, Option<Seq<char>>, bool) {
    if args.len() == 0 {
        (2, Seq::empty(), 1, None, true)
    } else if args[0]@ == "--list-input-devices"@ {
        (1, Seq::empty(), 0, None, false)
    } else if args[0]@ == "-h"@ || args[0]@ == "--help"@ {
        (2, Seq::empty(), 0, None, true)
    } else {
        let k = first_instance_flag(args, 0);
        if k >= args.len() {
            (2, Seq::empty(), 1, None, true)
        } else if k + 1 >= args.len() {
            (2, Seq::empty(), 1, Some("[ERROR] --instance 缺少值"@), true)
        } else if args[k + 1]@.contains('/') {
            (2, Seq::empty(), 1, Some("[ERROR] 实例名不能包含 '/'"@), false)
        } else {
            (0, args[k + 1]@, 0, None, false)
        }
    }
}

/// An action as plain values (see `startup_spec`).
pub open spec fn action_view(a: StartupAction) -> (int, Seq<char>, i32, Option<Seq<char>>, bool) {
    match a {
        StartupAction::Run(name) => (0, name@, 0, None, false),
        StartupAction::ListInputDevices => (1, Seq::empty(), 0, None, false),
        StartupAction::Exit { code, error, show_help } => (
            2,
            Seq::empty(),
            code,
            match error {
                Some(e) => Some(e@),
                None => None,
            },
            show_help,
        ),
    }
}

/// Decides what to do from the arguments after the program name:
/// `--list-input-devices` first lists the devices; `-h` or `--help` first
/// prints the usage and exits 0; otherwise the first `--instance` names the
/// instance to run, which must be present and hold no `/`. Anything else
/// prints the usage and exits 1.
pub fn parse_startup_action(args: &[String]) -> (action: StartupAction)
    ensures
        action_view(action) == startup_spec(args@),
{
    if args.len() == 0 {
        return StartupAction::Exit { code: 1, error: None, show_help: true };
    }
    if text_eq(args[0].as_str(), "--list-input-devices") {
        return StartupAction::ListInputDevices;
    }
    if text_eq(args[0].as_str(), "-h") || text_eq(args[0].as_str(), "--help") {
        return StartupAction::Exit { code: 0, error: None, show_help: true };
    }
    let mut k: usize = 0;
    while k < args.len() && !text_eq(args[k].as_str(), "--instance")
        invariant
            k <= args@.len(),
            first_instance_flag(args@, k as int) == first_instance_flag(args@, 0),
        decreases args@.len() - k,
    {
        k = k + 1;
    }
    if k >= args.len() {
        return StartupAction::Exit { code: 1, error: None, show_help: true };
    }
    if k + 1 >= args.len() {
        return StartupAction::Exit {
            code: 1,
            error: Some(String::from_str("[ERROR] --instance 缺少值")),
            show_help: true,
        };
    }
    let name = &args[k + 1];
    if contains_char(name.as_str(), '/') {
        return StartupAction::Exit {
            code: 1,
            error: Some(String::from_str("[ERROR] 实例名不能包含 '/'")),
            show_help: false,
        };
    }
    StartupAction::Run(name.clone())
}

// ---------------------------------------------------------------------------
// Device listing
// ---------------------------------------------------------------------------

/// The two lines printed for one device.
pub open spec fn device_lines(d: InputDeviceInfo) -> Seq<char> {
    "- "@ + d.name@ + (if d.is_default {
        " [默认]"@
    } else {
        ""@
    }) + "\n  ID: "@ + match d.id {
        Some(id) => id@,
        None => "不可用"@,
    } + "\n"@
}

/// The lines printed for `devices`, in order.
pub open spec fn devices_lines(devices: Seq<InputDeviceInfo>) -> Seq<char>
    decreases devices.len(),
{
    if devices.len() == 0 {
        Seq::empty()
    } else {
        devices_lines(devices.drop_last()) + device_lines(devices.last())
    }
}

/// The printed listing of the audio input devices.
pub open spec fn listing_spec(devices: Seq<InputDeviceInfo>) -> Seq<char> {
    if devices.len() == 0 {
        "没有发现音频输入设备\n"@
    } else {
        "可用的音频输入设备：\n"@ + devices_lines(devices)
            + "\n通过 VOLLMINPUTD_AUDIO_DEVICE=<设备 ID 或完整名称> 选择麦克风。\n"@
    }
}

/// The text printed to list the audio input devices.
pub fn device_listing(devices: &[InputDeviceInfo]) -> (r: String)
    ensures
        r@ == listing_spec(devices@),
{
    if devices.len() == 0 {
        return String::from_str("没有发现音频输入设备\n");
    }
    let mut r = String::from_str("可用的音频输入设备：\n");
    let ghost base = r@;
    let mut i: usize = 0;
    while i < devices.len()
        invariant
            i <= devices@.len(),
            r@ == base + devices_lines(devices@.take(i as int)),
        decreases devices@.len() - i,
    {
        let d = &devices[i];
        r.append("- ");
        r.append(d.name.as_str());
        if d.is_default {
            r.append(" [默认]");
        } else {
            proof {
                reveal_strlit("");
            }
        }
        r.append("\n  ID: ");
        match &d.id {
            Some(id) => r.append(id.as_str()),
            None => r.append("不可用"),
        }
        r.append("\n");
        assert(devices@.take(i + 1).drop_last() =~= devices@.take(i as int));
        assert(devices@.take(i + 1).last() == devices@[i as int]);
        assert(r@ =~= base + devices_lines(devices@.take(i + 1)));
        i = i + 1;
    }
    assert(devices@.take(devices@.len() as int) =~= devices@);
    r.append("\n通过 VOLLMINPUTD_AUDIO_DEVICE=<设备 ID 或完整名称> 选择麦克风。\n");
    r
}

/// What follows a device's name: its id, or "不可用" when it has none.
pub open spec fn id_line(id: Option<String>) -> Seq<char> {
    "\n  ID: "@ + match id {
        Some(i) => i@,
        None => "不可用"@,
    } + "\n"@
}

/// A device's line carries the " [默认]" marker exactly when that device is
/// flagged as the default, whether or not it has an id: a device not so
/// flagged is printed as its name and its id line alone, and flagging it
/// inserts the marker right after the name and changes nothing else. The
/// listing prints the devices one after another, in the order given.
pub proof fn lemma_default_marker(d: InputDeviceInfo, devices: Seq<InputDeviceInfo>)
    ensures
        !d.is_default ==> device_lines(d) == "- "@ + d.name@ + id_line(d.id),
        d.is_default ==> device_lines(d) == "- "@ + d.name@ + " [默认]"@ + id_line(d.id),
        devices_lines(devices.push(d)) == devices_lines(devices) + device_lines(d),
{
    reveal_strlit("");
    assert(devices.push(d).drop_last() =~= devices);
    if d.is_default {
        assert(device_lines(d) =~= "- "@ + d.name@ + " [默认]"@ + id_line(d.id));
    } else {
        assert(device_lines(d) =~= "- "@ + d.name@ + id_line(d.id));
    }
}

// ---------------------------------------------------------------------------
// The FIFO
// ---------------------------------------------------------------------------

/// A command read from the FIFO.
#[derive(Debug, Clone, Copy, PartialEq, Eq, Structural)]
pub enum ImeCommand {
    Toggle,
}

/// The FIFO's path for an instance.
pub fn fifo_path(instance: &str) -> (r: String)
    ensures
        r@ == "/tmp/vollminputd_"@ + instance@ + ".fifo"@,
{
    let mut r = String::from_str("/tmp/vollminputd_");
    r.append(instance);
    r.append(".fifo");
    r
}

/// The command a FIFO line carries: `TOGGLE`, with surrounding whitespace
/// ignored; any other line carries none.
pub fn parse_fifo_line(line: &str) -> (r: Option<ImeCommand>)
    ensures
        r is Some <==> trimmed(line@) == "TOGGLE"@,
{
    let t = trim_text(line);
    if text_eq(t.as_str(), "TOGGLE") {
        Some(ImeCommand::Toggle)
    } else {
        None
    }
}

} // verus!
