//! What the program was asked to do.
use crate::adb;
use crate::adb::{AdbError, Device, Reply, Step};
use crate::text;
use vstd::prelude::*;
use vstd::string::*;

verus! {

/// The port of the tunnels, unless another is asked for.
pub const DEFAULT_PORT: u16 = 27183;

/// The width of the mirror, unless another is asked for.
pub const DEFAULT_WIDTH: u32 = 1280;

/// The height of the mirror, unless another is asked for.
pub const DEFAULT_HEIGHT: u32 = 720;

/// How many frames are captured in a second, unless another number is asked for.
pub const DEFAULT_FRAMERATE: u32 = 60;

/// A subcommand.
#[derive(Debug, Clone, Copy, PartialEq, Eq, Structural)]
pub enum Cmd {
    /// List the connected devices.
    Devices,
    /// Open a reverse tunnel, verify it, and remove it.
    TestTunnel,
    /// Show the screen of the device in a window.
    Mirror { width: u32, height: u32 },
    /// Capture a display of the host, and stream it or show it.
    Extend { output_idx: u32, framerate: u32, preview: bool },
}

/// What there is to do.
#[derive(Debug, Clone, Copy, PartialEq, Eq, Structural)]
pub enum Job {
    /// List the connected devices.
    Devices,
    /// Open a reverse tunnel, verify it, and remove it.
    TestTunnel,
    /// Show the screen of the device in a window.
    Mirror { width: u32, height: u32 },
    /// Capture a display and stream it to the device.
    Stream { output_idx: u32, framerate: u32 },
    /// Capture a display and show it here.
    Preview { output_idx: u32, framerate: u32 },
}

/// What extend mode has to do.
pub open spec fn extend_job(output_idx: u32, framerate: u32, preview: bool) -> Job {
    if preview {
        Job::Preview { output_idx, framerate }
    } else {
        Job::Stream { output_idx, framerate }
    }
}

/// What extend mode has to do: show the display here for a preview, else stream
/// it.
pub fn cmd_extend(output_idx: u32, framerate: u32, preview: bool) -> (job: Job)
    ensures
        job == extend_job(output_idx, framerate, preview),
{
    if preview {
        return Job::Preview { output_idx, framerate };
    }
    Job::Stream { output_idx, framerate }
}

/// What a subcommand has to do.
pub open spec fn job_of(cmd: Cmd) -> Job {
    match cmd {
        Cmd::Devices => Job::Devices,
        Cmd::TestTunnel => Job::TestTunnel,
        Cmd::Mirror { width, height } => Job::Mirror { width, height },
        Cmd::Extend { output_idx, framerate, preview } => extend_job(
            output_idx,
            framerate,
            preview,
        ),
    }
}

/// A job is done with the help of `adb`.
pub open spec fn uses_adb(job: Job) -> bool {
    !(job is Preview)
}

/// What a subcommand has to do, and whether `adb` is needed for it: for
/// everything but a preview.
pub fn real_main(cmd: Cmd) -> (res: (Job, bool))
    ensures
        res.0 == job_of(cmd),
        res.1 == uses_adb(res.0),
{
    match cmd {
        Cmd::Devices => (Job::Devices, true),
        Cmd::TestTunnel => (Job::TestTunnel, true),
        Cmd::Mirror { width, height } => (Job::Mirror { width, height }, true),
        Cmd::Extend { output_idx, framerate, preview } => (
            cmd_extend(output_idx, framerate, preview),
            !preview,
        ),
    }
}

/// How much is logged: warnings, and more the more often that is asked for.
pub open spec fn level(verbose: u8) -> Seq<char> {
    if verbose == 0 {
        "warn"@
    } else if verbose == 1 {
        "info"@
    } else if verbose == 2 {
        "debug"@
    } else {
        "trace"@
    }
}

/// The filter for this program's own messages.
pub open spec fn filter_words(verbose: u8) -> Seq<char> {
    "usb_display_bridge="@ + level(verbose)
}

/// What is logged, as a filter for this program's own messages.
pub fn log_filter(verbose: u8) -> (filter: String)
    ensures
        filter@ == filter_words(verbose),
{
    let name: &'static str = if verbose == 0 {
        "warn"
    } else if verbose == 1 {
        "info"
    } else if verbose == 2 {
        "debug"
    } else {
        "trace"
    };
    "usb_display_bridge=".to_owned().concat(name)
}

/// How a device is shown.
pub open spec fn device_line(dev: adb::DeviceView) -> Seq<char> {
    dev.serial + "\t"@ + dev.state
}

/// How devices are shown: one on each line, or the words that there are none.
pub open spec fn device_lines(devs: Seq<adb::DeviceView>) -> Seq<Seq<char>> {
    if devs.len() == 0 {
        seq!["(no devices)"@]
    } else {
        devs.map_values(|d: adb::DeviceView| device_line(d))
    }
}

/// How devices are shown.
pub fn show_devices(devs: &Vec<Device>) -> (said: Vec<String>)
    ensures
        text::texts(said@) == device_lines(adb::device_views(devs@)),
{
    if devs.len() == 0 {
        let said: Vec<String> = text::owned(&["(no devices)"]);
        assert(text::texts(said@) == seq!["(no devices)"@]);
        return said;
    }
    let mut said: Vec<String> = Vec::new();
    let mut i: usize = 0;
    while i < devs.len()
        invariant
            i <= devs.len(),
            text::texts(said@) == adb::device_views(devs@).map_values(
                |d: adb::DeviceView| device_line(d),
            ).take(i as int),
        decreases devs.len() - i,
    {
        let ghost before = said@;
        let line: String = devs[i].serial.clone().concat("\t").concat(devs[i].state.as_str());
        said.push(line);
        assert(text::texts(said@) == text::texts(before).push(line@));
        assert(line@ == device_line(adb::device_views(devs@)[i as int]));
        i = i + 1;
    }
    assert(text::texts(said@) == device_lines(adb::device_views(devs@)));
    said
}

/// What the reply to the listing command comes to: the lines that are printed, or
/// why there are none.
pub open spec fn listed(reply: Reply, res: Result<Vec<String>, AdbError>) -> bool {
    match adb::devices_from(reply) {
        Ok(devs) => res matches Ok(said) && text::texts(said@) == device_lines(devs),
        Err(e) => res matches Err(why) && why@ == e,
    }
}

/// List the connected devices: what is to be printed, one line after the other.
pub fn cmd_devices(reply: Option<Reply>) -> (step: Step<Result<Vec<String>, AdbError>>)
    ensures
        match reply {
            None => step matches Step::Run(args) && text::texts(args@) == adb::devices_args(),
            Some(r) => step matches Step::Done(res) && listed(r, res),
        },
        reply matches Some(r) ==> adb::read_plainly(r),
{
    match adb::list_devices(reply) {
        Step::Run(args) => Step::Run(args),
        Step::Done(Ok(devs)) => Step::Done(Ok(show_devices(&devs))),
        Step::Done(Err(e)) => Step::Done(Err(e)),
    }
}

/// Each subcommand does what it says, with just what it was given. Extend mode
/// shows the display here if a preview was asked for and else streams it. All but
/// the preview need `adb`.
pub proof fn law_subcommands_do_what_they_say(
    width: u32,
    height: u32,
    output_idx: u32,
    framerate: u32,
)
    ensures
        job_of(Cmd::Devices) is Devices,
        job_of(Cmd::TestTunnel) is TestTunnel,
        job_of(Cmd::Mirror { width, height }) == (Job::Mirror { width, height }),
        job_of(Cmd::Extend { output_idx, framerate, preview: false }) == (Job::Stream {
            output_idx,
            framerate,
        }),
        job_of(Cmd::Extend { output_idx, framerate, preview: true }) == (Job::Preview {
            output_idx,
            framerate,
        }),
        uses_adb(Job::Devices),
        uses_adb(Job::TestTunnel),
        uses_adb(Job::Mirror { width, height }),
        uses_adb(Job::Stream { output_idx, framerate }),
        !uses_adb(Job::Preview { output_idx, framerate }),
{
}

/// More is logged the more often it is asked for: warnings, then information, then
/// what helps to find errors, and everything from the third time on.
pub proof fn law_log_grows(verbose: u8)
    ensures
        filter_words(0) == "usb_display_bridge="@ + "warn"@,
        filter_words(1) == "usb_display_bridge="@ + "info"@,
        filter_words(2) == "usb_display_bridge="@ + "debug"@,
        verbose >= 3 ==> filter_words(verbose) == "usb_display_bridge="@ + "trace"@,
{
}

/// Every listed device is printed on a line of its own, in order: its serial, a
/// tab, and its state. Only if there is none is that said instead. A listing that
/// fails is told.
pub proof fn law_devices_are_printed(
    reply: Reply,
    res: Result<Vec<String>, AdbError>,
    devs: Seq<adb::DeviceView>,
    i: int,
)
    requires
        listed(reply, res),
    ensures
        adb::outcome(reply) is Ok <==> res is Ok,
        adb::outcome(reply) is Err ==> res->Err_0@ == adb::outcome(reply)->Err_0,
        adb::outcome(reply) is Ok && devs == adb::devices_in(adb::outcome(reply)->Ok_0) ==> {
            let said = res->Ok_0@;
            &&& devs.len() == 0 ==> said.len() == 1 && said[0]@ == "(no devices)"@
            &&& devs.len() > 0 ==> said.len() == devs.len()
            &&& 0 <= i < devs.len() ==> said[i]@ == devs[i].serial + seq!['\t'] + devs[i].state
        },
{
    reveal_strlit("\t");
    assert("\t"@ == seq!['\t']);
    if adb::outcome(reply) is Ok && devs == adb::devices_in(adb::outcome(reply)->Ok_0) {
        let said = res->Ok_0@;
        assert(text::texts(said) == device_lines(devs));
        assert(text::texts(said).len() == said.len());
        if devs.len() == 0 {
            assert(text::texts(said)[0] == "(no devices)"@);
        } else if 0 <= i < devs.len() {
            assert(text::texts(said)[i] == device_line(devs[i]));
        }
    }
}

} // verus!
