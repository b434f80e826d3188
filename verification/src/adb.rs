//! The `adb` commands that the host runs, and what it makes of their replies.
//!
//! A command that is to be run is a list of arguments. Whoever runs it hands
//! back a [`Reply`], and the function that asked for the command then says what
//! came of it.
use crate::capture;
use crate::text;
use vstd::prelude::*;
use vstd::string::*;
use vstd::utf8::*;

verus! {

/// Where on the device files are pushed to. `shell` can write here but the
/// world cannot.
pub const DEVICE_TMP: &'static str = "/data/local/tmp";

/// One connected device. `serial` is what `adb` uses to identify it; `state`
/// is `device`, `unauthorized`, `offline`, and the like.
#[derive(Debug, Clone)]
pub struct Device {
    pub serial: String,
    pub state: String,
}

/// The text of a [`Device`].
pub struct DeviceView {
    pub serial: Seq<char>,
    pub state: Seq<char>,
}

impl View for Device {
    type V = DeviceView;

    open spec fn view(&self) -> DeviceView {
        DeviceView { serial: self.serial@, state: self.state@ }
    }
}

/// What a finished `adb` process left behind.
pub struct Output {
    /// Whether the process ended with status zero.
    pub success: bool,
    /// The exit status, as the system describes it.
    pub status: String,
    pub stdout: Vec<u8>,
    pub stderr: Vec<u8>,
}

/// What came of running an `adb` command.
pub enum Reply {
    /// The process could not be started, for the reason given.
    NotSpawned(String),
    /// The process ran to its end.
    Finished(Output),
}

/// Why an `adb` command failed.
#[derive(Debug)]
pub enum AdbError {
    /// The process could not be started.
    NotSpawned(String),
    /// The process failed with this status and said nothing.
    Exited(String),
    /// The process failed and said this.
    Failed(String),
}

/// The text behind an [`AdbError`].
pub enum Fault {
    NotSpawned(Seq<char>),
    Exited(Seq<char>),
    Failed(Seq<char>),
}

impl View for AdbError {
    type V = Fault;

    open spec fn view(&self) -> Fault {
        match *self {
            AdbError::NotSpawned(why) => Fault::NotSpawned(why@),
            AdbError::Exited(status) => Fault::Exited(status@),
            AdbError::Failed(said) => Fault::Failed(said@),
        }
    }
}

impl Fault {
    /// The error in words.
    pub open spec fn words(self) -> Seq<char> {
        match self {
            Fault::NotSpawned(why) => "failed to spawn adb: "@ + why,
            Fault::Exited(status) => "adb exited with status "@ + status,
            Fault::Failed(said) => "adb failed: "@ + said,
        }
    }
}

impl AdbError {
    /// The error in words.
    pub fn message(&self) -> (m: String)
        ensures
            m@ == self@.words(),
    {
        match self {
            AdbError::NotSpawned(why) => "failed to spawn adb: ".to_owned().concat(why.as_str()),
            AdbError::Exited(status) => "adb exited with status ".to_owned().concat(
                status.as_str(),
            ),
            AdbError::Failed(said) => "adb failed: ".to_owned().concat(said.as_str()),
        }
    }
}

/// What is to be done next about an operation: run a command and come back
/// with its reply, or nothing, because the operation is over.
pub enum Step<T> {
    Run(Vec<String>),
    Done(T),
}

impl<T> Step<T> {
    /// The command that is to be run.
    pub fn command(self) -> (args: Vec<String>)
        requires
            self is Run,
        ensures
            self == Step::<T>::Run(args),
    {
        match self {
            Step::Run(args) => args,
            Step::Done(_) => vstd::pervasive::unreached(),
        }
    }

    /// What the operation came to.
    pub fn result(self) -> (res: T)
        requires
            self is Done,
        ensures
            self == Step::Done(res),
    {
        match self {
            Step::Run(_) => vstd::pervasive::unreached(),
            Step::Done(res) => res,
        }
    }
}

/// What `bytes` say as text, where each part that is not UTF-8 is replaced by
/// `U+FFFD`.
pub uninterp spec fn utf8_lossy(bytes: Seq<u8>) -> Seq<char>;

/// `String::from_utf8_lossy`. The text is a function of the bytes alone; bytes
/// that are valid UTF-8 are decoded as they stand.
#[verifier::external_body]
fn from_utf8_lossy(bytes: &Vec<u8>) -> (said: String)
    ensures
        said@ == utf8_lossy(bytes@),
        valid_utf8(bytes@) ==> said@ == decode_utf8(bytes@),
{
    String::from_utf8_lossy(bytes).into_owned()
}

/// What a finished command amounts to: its output if it succeeded, else what it
/// said on its error stream, or its status if it said nothing there.
pub open spec fn judged(
    success: bool,
    status: Seq<char>,
    stdout: Seq<char>,
    stderr: Seq<char>,
) -> Result<Seq<char>, Fault> {
    if success {
        Ok(stdout)
    } else if text::trimmed(stderr).len() == 0 {
        Err(Fault::Exited(status))
    } else {
        Err(Fault::Failed(text::trimmed(stderr)))
    }
}

/// What a reply amounts to.
pub open spec fn outcome(reply: Reply) -> Result<Seq<char>, Fault> {
    match reply {
        Reply::NotSpawned(why) => Err(Fault::NotSpawned(why@)),
        Reply::Finished(out) => judged(
            out.success,
            out.status@,
            utf8_lossy(out.stdout@),
            utf8_lossy(out.stderr@),
        ),
    }
}

/// The text in a result.
pub open spec fn text_in(res: Result<String, AdbError>) -> Result<Seq<char>, Fault> {
    match res {
        Ok(s) => Ok(s@),
        Err(e) => Err(e@),
    }
}

/// What a finished command amounts to.
pub fn judge(success: bool, status: String, stdout: String, stderr: String) -> (res: Result<
    String,
    AdbError,
>)
    ensures
        text_in(res) == judged(success, status@, stdout@, stderr@),
{
    if success {
        return Ok(stdout);
    }
    let said: String = text::trim(stderr.as_str());
    if said.as_str().is_empty() {
        return Err(AdbError::Exited(status));
    }
    Err(AdbError::Failed(said))
}

/// The output of a reply is read as it stands where it is valid UTF-8.
pub open spec fn read_plainly(reply: Reply) -> bool {
    reply matches Reply::Finished(out) ==> {
        &&& valid_utf8(out.stdout@) ==> utf8_lossy(out.stdout@) == decode_utf8(out.stdout@)
        &&& valid_utf8(out.stderr@) ==> utf8_lossy(out.stderr@) == decode_utf8(out.stderr@)
    }
}

/// What running `adb` came to: what it printed, or why it failed.
pub fn run(reply: Reply) -> (res: Result<String, AdbError>)
    ensures
        text_in(res) == outcome(reply),
        read_plainly(reply),
{
    match reply {
        Reply::NotSpawned(why) => Err(AdbError::NotSpawned(why)),
        Reply::Finished(out) => {
            let stdout: String = from_utf8_lossy(&out.stdout);
            let stderr: String = from_utf8_lossy(&out.stderr);
            judge(out.success, out.status, stdout, stderr)
        },
    }
}

/// The arguments of the command that lists the connected devices.
pub open spec fn devices_args() -> Seq<Seq<char>> {
    seq!["devices"@, "-l"@]
}

/// A line of the listing names a device. One that is ready for use has `device`
/// for its second word, one that is not has another.
pub open spec fn shows(line: Seq<char>, ready: bool) -> bool {
    text::words_of(line).len() >= 2 && (text::words_of(line)[1] == "device"@) == ready
}

/// The device that a line of the listing names: the first word is its serial,
/// the second its state, and what follows is of no account.
pub open spec fn named(line: Seq<char>) -> DeviceView {
    DeviceView { serial: text::words_of(line)[0], state: text::words_of(line)[1] }
}

/// The lines of a listing that follow its first, which is a heading.
pub open spec fn below_heading(raw: Seq<char>) -> Seq<Seq<char>> {
    if text::lines_of(raw).len() == 0 {
        seq![]
    } else {
        text::lines_of(raw).skip(1)
    }
}

/// The devices that a listing shows as ready, or those that it shows as not
/// ready, in its order.
pub open spec fn shown_in(raw: Seq<char>, ready: bool) -> Seq<DeviceView> {
    below_heading(raw).filter(|line: Seq<char>| shows(line, ready)).map_values(
        |line: Seq<char>| named(line),
    )
}

/// The devices that a listing shows as ready, in its order.
pub open spec fn devices_in(raw: Seq<char>) -> Seq<DeviceView> {
    shown_in(raw, true)
}

/// The texts of a list of devices.
pub open spec fn device_views(devs: Seq<Device>) -> Seq<DeviceView> {
    devs.map_values(|d: Device| d@)
}

/// The devices that the output of `adb devices -l` shows as ready, or those that
/// it shows as not ready.
fn parse_shown(raw: &str, ready: bool) -> (devs: Vec<Device>)
    ensures
        device_views(devs@) == shown_in(raw@, ready),
{
    let all: Vec<String> = text::lines(raw);
    let mut devs: Vec<Device> = Vec::new();
    let ghost body = below_heading(raw@);
    let ghost keep = |line: Seq<char>| shows(line, ready);
    let ghost name = |line: Seq<char>| named(line);
    let ready_state: String = "device".to_owned();
    let mut i: usize = 1;
    proof {
        reveal(Seq::filter);
        assert(body.take(0) == Seq::<Seq<char>>::empty());
        assert(device_views(devs@) == body.take(0).filter(keep).map_values(name));
    }
    while i < all.len()
        invariant
            1 <= i,
            i <= all.len() || i == 1,
            text::texts(all@) == text::lines_of(raw@),
            body == below_heading(raw@),
            keep == (|line: Seq<char>| shows(line, ready)),
            name == (|line: Seq<char>| named(line)),
            ready_state@ == "device"@,
            device_views(devs@) == body.take(i - 1).filter(keep).map_values(name),
        decreases all.len() - i,
    {
        let ghost line = all[i as int]@;
        let ghost before = devs@;
        proof {
            assert(text::texts(all@)[i as int] == line);
            assert(body[i - 1] == line);
            assert(body.take(i as int).drop_last() == body.take(i - 1));
            assert(body.take(i as int).last() == line);
            reveal(Seq::filter);
        }
        let mut ws: Vec<String> = text::words(all[i].as_str());
        let ghost words = ws@;
        if ws.len() >= 2 {
            assert(text::texts(ws@)[1] == ws[1]@);
            assert(text::texts(ws@)[0] == ws[0]@);
        }
        if ws.len() >= 2 && (ws[1] == ready_state) == ready {
            let state: String = ws.swap_remove(1);
            let serial: String = ws.swap_remove(0);
            devs.push(Device { serial, state });
            assert(devs@.last()@ == named(line));
            assert(device_views(devs@) == device_views(before).push(named(line)));
            assert(body.take(i as int).filter(keep) == body.take(i - 1).filter(keep).push(line));
            assert(body.take(i - 1).filter(keep).push(line).map_values(name) == body.take(
                i - 1,
            ).filter(keep).map_values(name).push(named(line)));
        } else {
            assert(!shows(line, ready));
        }
        i = i + 1;
    }
    proof {
        if all.len() == 0 {
            assert(text::texts(all@).len() == 0);
            assert(body =~= body.take(0));
        } else {
            assert(body =~= body.take(i - 1));
        }
    }
    devs
}

/// The devices that the output of `adb devices -l` shows as ready.
pub fn parse_devices(raw: &str) -> (devs: Vec<Device>)
    ensures
        device_views(devs@) == devices_in(raw@),
{
    parse_shown(raw, true)
}

/// The devices that the output of `adb devices -l` shows and that are skipped,
/// because they are not ready.
pub fn parse_skipped(raw: &str) -> (devs: Vec<Device>)
    ensures
        device_views(devs@) == shown_in(raw@, false),
{
    parse_shown(raw, false)
}

/// The devices that are skipped in the reply to the listing command, each worth a
/// warning.
pub fn skipped_devices(reply: &Reply) -> (devs: Vec<Device>)
    ensures
        device_views(devs@) == match outcome(*reply) {
            Ok(raw) => shown_in(raw, false),
            Err(_) => seq![],
        },
{
    if let Reply::Finished(out) = reply {
        if out.success {
            return parse_skipped(from_utf8_lossy(&out.stdout).as_str());
        }
    }
    let none: Vec<Device> = Vec::new();
    assert(device_views(none@) == Seq::<DeviceView>::empty());
    none
}

/// What a list of devices comes to.
pub open spec fn devices_found(res: Result<Vec<Device>, AdbError>) -> Result<
    Seq<DeviceView>,
    Fault,
> {
    match res {
        Ok(devs) => Ok(device_views(devs@)),
        Err(e) => Err(e@),
    }
}

/// What the reply to the listing command comes to.
pub open spec fn devices_from(reply: Reply) -> Result<Seq<DeviceView>, Fault> {
    match outcome(reply) {
        Ok(raw) => Ok(devices_in(raw)),
        Err(e) => Err(e),
    }
}

/// List the connected devices that are ready for use.
pub fn list_devices(reply: Option<Reply>) -> (step: Step<Result<Vec<Device>, AdbError>>)
    ensures
        match reply {
            None => step matches Step::Run(args) && text::texts(args@) == devices_args(),
            Some(r) => step matches Step::Done(res) && devices_found(res) == devices_from(r),
        },
        reply matches Some(r) ==> read_plainly(r),
{
    match reply {
        None => {
            let args: Vec<String> = text::owned(&["devices", "-l"]);
            assert(text::texts(args@) == devices_args());
            Step::Run(args)
        },
        Some(r) => match run(r) {
            Ok(raw) => Step::Done(Ok(parse_devices(raw.as_str()))),
            Err(e) => Step::Done(Err(e)),
        },
    }
}

/// Why no device could be selected.
#[derive(Debug)]
pub enum SelectError {
    /// The devices could not be listed.
    Adb(AdbError),
    /// No device is connected.
    NoDevices,
    /// Several devices are connected, and none has this serial.
    NotFound(String),
    /// This many devices are connected, and no serial was given.
    Ambiguous(usize),
}

/// What stands behind a [`SelectError`].
pub enum Refusal {
    Adb(Fault),
    NoDevices,
    NotFound(Seq<char>),
    Ambiguous(nat),
}

impl View for SelectError {
    type V = Refusal;

    open spec fn view(&self) -> Refusal {
        match *self {
            SelectError::Adb(e) => Refusal::Adb(e@),
            SelectError::NoDevices => Refusal::NoDevices,
            SelectError::NotFound(serial) => Refusal::NotFound(serial@),
            SelectError::Ambiguous(n) => Refusal::Ambiguous(n as nat),
        }
    }
}

impl Refusal {
    /// The error in words.
    pub open spec fn words(self) -> Seq<char> {
        match self {
            Refusal::Adb(e) => e.words(),
            Refusal::NoDevices =>
                "no connected devices. Plug in a phone and enable USB debugging."@,
            Refusal::NotFound(serial) => "--serial "@ + serial
                + " not found among connected devices"@,
            Refusal::Ambiguous(n) => text::decimal(n)
                + " devices connected; pass --serial <id> to choose one. Run `cargo run -- devices` to list them."@,
        }
    }
}

impl SelectError {
    /// The error in words.
    pub fn message(&self) -> (m: String)
        ensures
            m@ == self@.words(),
    {
        match self {
            SelectError::Adb(e) => e.message(),
            SelectError::NoDevices =>
                "no connected devices. Plug in a phone and enable USB debugging.".to_owned(),
            SelectError::NotFound(serial) => "--serial ".to_owned().concat(serial.as_str()).concat(
                " not found among connected devices",
            ),
            SelectError::Ambiguous(n) => text::number(*n as u64).concat(
                " devices connected; pass --serial <id> to choose one. Run `cargo run -- devices` to list them.",
            ),
        }
    }
}

/// The first of `devs` that has the serial `serial`.
pub open spec fn first_with(devs: Seq<DeviceView>, serial: Seq<char>) -> Option<DeviceView>
    decreases devs.len(),
{
    if devs.len() == 0 {
        None
    } else if devs[0].serial == serial {
        Some(devs[0])
    } else {
        first_with(devs.skip(1), serial)
    }
}

/// The device to use: the only one, or the first with the serial asked for.
pub open spec fn chosen(devs: Seq<DeviceView>, serial: Option<Seq<char>>) -> Result<
    DeviceView,
    Refusal,
> {
    if devs.len() == 0 {
        Err(Refusal::NoDevices)
    } else if devs.len() == 1 {
        Ok(devs[0])
    } else {
        match serial {
            None => Err(Refusal::Ambiguous(devs.len())),
            Some(s) => match first_with(devs, s) {
                Some(d) => Ok(d),
                None => Err(Refusal::NotFound(s)),
            },
        }
    }
}

/// The text of a serial that may have been given.
pub open spec fn wanted(serial: Option<&str>) -> Option<Seq<char>> {
    match serial {
        Some(s) => Some(s@),
        None => None,
    }
}

/// What a selection comes to.
pub open spec fn selection(res: Result<Device, SelectError>) -> Result<DeviceView, Refusal> {
    match res {
        Ok(d) => Ok(d@),
        Err(e) => Err(e@),
    }
}

/// What the reply to the listing command comes to, for a selection.
pub open spec fn selected_from(serial: Option<Seq<char>>, reply: Reply) -> Result<
    DeviceView,
    Refusal,
> {
    match devices_from(reply) {
        Ok(devs) => chosen(devs, serial),
        Err(e) => Err(Refusal::Adb(e)),
    }
}

/// Pick the device to use from those that are connected.
pub fn choose_device(devs: Vec<Device>, serial: Option<&str>) -> (res: Result<Device, SelectError>)
    ensures
        selection(res) == chosen(device_views(devs@), wanted(serial)),
{
    let mut devs: Vec<Device> = devs;
    let ghost views = device_views(devs@);
    if devs.len() == 0 {
        return Err(SelectError::NoDevices);
    }
    if devs.len() == 1 {
        return Ok(devs.swap_remove(0));
    }
    match serial {
        None => Err(SelectError::Ambiguous(devs.len())),
        Some(s) => {
            let sought: String = s.to_owned();
            let mut i: usize = 0;
            assert(views.skip(0) == views);
            #[verifier::loop_isolation(false)]
            while i < devs.len()
                invariant
                    i <= devs.len(),
                    sought@ == s@,
                    views == device_views(devs@),
                    first_with(views.skip(i as int), s@) == first_with(views, s@),
                decreases devs.len() - i,
            {
                assert(views.skip(i as int)[0] == devs[i as int]@);
                if devs[i].serial == sought {
                    return Ok(devs.swap_remove(i));
                }
                assert(views.skip(i as int).skip(1) == views.skip(i + 1));
                i = i + 1;
            }
            Err(SelectError::NotFound(sought))
        },
    }
}

/// Pick the device to use. The listing decides: with one device it is taken,
/// with several the serial must name one of them.
pub fn select_device(serial: Option<&str>, reply: Option<Reply>) -> (step: Step<
    Result<Device, SelectError>,
>)
    ensures
        match reply {
            None => step matches Step::Run(args) && text::texts(args@) == devices_args(),
            Some(r) => step matches Step::Done(res) && selection(res) == selected_from(
                wanted(serial),
                r,
            ),
        },
        reply matches Some(r) ==> read_plainly(r),
{
    match list_devices(reply) {
        Step::Run(args) => Step::Run(args),
        Step::Done(Ok(devs)) => Step::Done(choose_device(devs, serial)),
        Step::Done(Err(e)) => Step::Done(Err(SelectError::Adb(e))),
    }
}

/// A push that is ready to be run: its command, and where the file will land.
pub struct Push {
    pub args: Vec<String>,
    pub remote: String,
}

/// Why a file could not be pushed.
#[derive(Debug)]
pub enum PushError {
    /// The local path, given here, has no file name.
    NoFileName(String),
    /// `adb push` failed.
    Adb(AdbError),
}

/// What stands behind a [`PushError`].
pub enum PushFault {
    NoFileName(Seq<char>),
    Adb(Fault),
}

impl View for PushError {
    type V = PushFault;

    open spec fn view(&self) -> PushFault {
        match *self {
            PushError::NoFileName(local) => PushFault::NoFileName(local@),
            PushError::Adb(e) => PushFault::Adb(e@),
        }
    }
}

impl PushFault {
    /// The error in words.
    pub open spec fn words(self) -> Seq<char> {
        match self {
            PushFault::NoFileName(local) => "local path has no filename: "@ + local,
            PushFault::Adb(e) => "adb push failed: "@ + e.words(),
        }
    }
}

impl PushError {
    /// The error in words.
    pub fn message(&self) -> (m: String)
        ensures
            m@ == self@.words(),
    {
        match self {
            PushError::NoFileName(local) => "local path has no filename: ".to_owned().concat(
                local.as_str(),
            ),
            PushError::Adb(e) => "adb push failed: ".to_owned().concat(e.message().as_str()),
        }
    }
}

/// Where a file called `name` lands on the device. The separator is that of the
/// device, whatever the host's is.
pub open spec fn remote_path(name: Seq<char>) -> Seq<char> {
    DEVICE_TMP@ + "/"@ + name
}

/// The arguments of the command that pushes `local` to `remote`.
pub open spec fn push_args(
    serial: Seq<char>,
    local: Seq<char>,
    remote: Seq<char>,
) -> Seq<Seq<char>> {
    seq!["-s"@, serial, "push"@, local, remote]
}

/// What pushing `local` comes to before the command is run, where `name` is the
/// file name in it.
pub open spec fn push_of(
    serial: Seq<char>,
    local: Seq<char>,
    name: Option<Seq<char>>,
    res: Result<Push, PushError>,
) -> bool {
    match name {
        Some(n) => {
            &&& res matches Ok(push)
            &&& text::texts(push.args@) == push_args(serial, local, remote_path(n))
            &&& push.remote@ == remote_path(n)
        },
        None => res matches Err(why) && why@ == PushFault::NoFileName(local),
    }
}

/// The text of a file name that a path may have.
pub open spec fn name_in(name: Option<String>) -> Option<Seq<char>> {
    match name {
        Some(n) => Some(n@),
        None => None,
    }
}

/// A way to tell the components of a path apart.
pub enum Reading {
    /// Slashes separate them.
    Unix,
    /// Slashes and backslashes separate them.
    Windows,
    /// Backslashes alone do: so Windows reads what it takes word for word.
    Verbatim,
}

/// `c` separates the components of a path.
pub open spec fn separates(c: char, reading: Reading) -> bool {
    match reading {
        Reading::Unix => c == '/',
        Reading::Windows => c == '/' || c == '\\',
        Reading::Verbatim => c == '\\',
    }
}

/// What stands in a path behind its last separator.
pub open spec fn behind(path: Seq<char>, reading: Reading) -> Seq<char>
    decreases path.len(),
{
    if path.len() == 0 || separates(path.last(), reading) {
        seq![]
    } else {
        behind(path.drop_last(), reading).push(path.last())
    }
}

/// The last component of a path that has no prefix. Separators at the end do not
/// count, nor do lone dots. There is none in an empty path, in a root, and in a
/// path that ends in `..`.
pub open spec fn last_name(path: Seq<char>, reading: Reading) -> Option<Seq<char>>
    decreases path.len(),
{
    if path.len() == 0 {
        None
    } else if separates(path.last(), reading) || behind(path, reading) == seq!['.'] {
        last_name(path.drop_last(), reading)
    } else if behind(path, reading) == seq!['.', '.'] {
        None
    } else {
        Some(behind(path, reading))
    }
}

/// A path that names a server or a device, on a system that has such.
pub open spec fn has_server(path: Seq<char>) -> bool {
    path.len() >= 2 && separates(path[0], Reading::Windows) && separates(path[1], Reading::Windows)
}

/// A path that Windows takes word for word: it starts with `\\?\`.
pub open spec fn is_verbatim(path: Seq<char>) -> bool {
    path.len() >= 4 && path.take(4) == seq!['\\', '\\', '?', '\\']
}

/// A path that names a drive, on a system that has such.
pub open spec fn has_drive(path: Seq<char>) -> bool {
    path.len() >= 2 && path[1] == ':'
}

/// What is known of the file name in a path, whatever system the host has: it is
/// a part of the path and not empty. It is the last component as one system or
/// the other reads the path; on Windows a drive does not belong to the component.
/// Where the path names a server, Windows may find no component behind it. A path
/// of slashes alone has no file name.
pub open spec fn file_named(path: Seq<char>, name: Option<Seq<char>>) -> bool {
    &&& name matches Some(n) ==> n.len() > 0 && text::occurs(path, n)
    &&& {
        ||| name == last_name(path, Reading::Unix)
        ||| name == last_name(path, Reading::Windows)
        ||| has_drive(path) && name == last_name(path.skip(2), Reading::Windows)
        ||| is_verbatim(path) && name == last_name(path, Reading::Verbatim)
        ||| has_server(path) && name is None
    }
    &&& (forall|i: int| 0 <= i < path.len() ==> path[i] == '/') ==> name is None
}

/// `Path::file_name`, for a path given as text: the last component of the path,
/// or nothing if there is none or the path ends in `..`. Components are separated
/// by `/`, and on Windows also by `\`; on Windows a drive or a server in front is
/// no component, and a path that starts with `\\?\` is separated by `\` alone.
/// Which of the two the host is, the contract leaves open, and where the server
/// ends in a path that names one.
#[verifier::external_body]
pub(crate) fn file_name(path: &str) -> (name: Option<String>)
    ensures
        file_named(path@, name_in(name)),
{
    std::path::Path::new(path).file_name().map(|n| n.to_string_lossy().into_owned())
}

/// Push the file at `local`, whose file name is `name`, to [`DEVICE_TMP`].
pub fn push_file_as(serial: &str, local: &str, name: Option<String>) -> (res: Result<
    Push,
    PushError,
>)
    ensures
        push_of(serial@, local@, name_in(name), res),
{
    match name {
        None => Err(PushError::NoFileName(local.to_owned())),
        Some(n) => {
            let remote: String = DEVICE_TMP.to_owned().concat("/").concat(n.as_str());
            let args: Vec<String> = text::owned(&["-s", serial, "push", local, remote.as_str()]);
            assert(text::texts(args@) == push_args(serial@, local@, remote@));
            Ok(Push { args, remote })
        },
    }
}

/// Push the file at `local` to [`DEVICE_TMP`], under the name it has.
pub fn push_file(serial: &str, local: &str) -> (res: Result<Push, PushError>)
    ensures
        exists|name: Option<Seq<char>>|
            {
                &&& #[trigger] push_of(serial@, local@, name, res)
                &&& file_named(local@, name)
            },
{
    let name: Option<String> = file_name(local);
    let ghost found = name_in(name);
    let res: Result<Push, PushError> = push_file_as(serial, local, name);
    assert(push_of(serial@, local@, found, res));
    res
}

/// What a push comes to: where the file landed, or why it could not be pushed.
pub open spec fn landed(push: Push, reply: Reply, res: Result<String, PushError>) -> bool {
    match outcome(reply) {
        Ok(_) => res matches Ok(remote) && remote@ == push.remote@,
        Err(e) => res matches Err(why) && why@ == PushFault::Adb(e),
    }
}

impl Push {
    /// Where the file landed, once the command has been run.
    pub fn finish(self, reply: Reply) -> (res: Result<String, PushError>)
        ensures
            match outcome(reply) {
                Ok(_) => res matches Ok(remote) && remote@ == self.remote@,
                Err(e) => res matches Err(why) && why@ == PushFault::Adb(e),
            },
            landed(self, reply, res),
            read_plainly(reply),
    {
        match run(reply) {
            Ok(_) => Ok(self.remote),
            Err(e) => Err(PushError::Adb(e)),
        }
    }
}

/// An operation that fails under its own name.
#[derive(Debug, Clone, Copy, PartialEq, Eq, Structural)]
pub enum Operation {
    /// Opening a reverse tunnel.
    Reverse,
    /// Installing an app.
    Install,
    /// Starting an activity.
    Start,
}

impl Operation {
    /// What is said before the cause of a failure.
    pub open spec fn words(self) -> Seq<char> {
        match self {
            Operation::Reverse => "adb reverse failed: "@,
            Operation::Install => "adb install failed: "@,
            Operation::Start => "adb shell am start failed: "@,
        }
    }
}

/// Why an operation failed.
#[derive(Debug)]
pub struct OperationError {
    pub operation: Operation,
    pub cause: AdbError,
}

/// What stands behind an [`OperationError`].
pub struct OperationFault {
    pub operation: Operation,
    pub cause: Fault,
}

impl View for OperationError {
    type V = OperationFault;

    open spec fn view(&self) -> OperationFault {
        OperationFault { operation: self.operation, cause: self.cause@ }
    }
}

impl OperationFault {
    /// The error in words.
    pub open spec fn words(self) -> Seq<char> {
        self.operation.words() + self.cause.words()
    }
}

impl OperationError {
    /// The error in words.
    pub fn message(&self) -> (m: String)
        ensures
            m@ == self@.words(),
    {
        let context: &'static str = match self.operation {
            Operation::Reverse => "adb reverse failed: ",
            Operation::Install => "adb install failed: ",
            Operation::Start => "adb shell am start failed: ",
        };
        context.to_owned().concat(self.cause.message().as_str())
    }
}

/// `why` is the failure of `operation` for the cause `e`.
pub open spec fn fails_as(operation: Operation, e: Fault, why: OperationError) -> bool {
    &&& why@ == (OperationFault { operation, cause: e })
    &&& why@.words() == operation.words() + e.words()
}

/// A reverse tunnel that is open: connections that the device `serial` makes to
/// `remote_spec` reach the host. It is to be removed when it is no longer used.
pub struct TunnelGuard {
    pub serial: String,
    pub remote_spec: String,
}

/// The host's end of a tunnel.
pub open spec fn host_spec(port: u16) -> Seq<char> {
    "tcp:"@ + text::decimal(port as nat)
}

/// An abstract Unix socket on the device.
pub open spec fn abstract_socket(name: Seq<char>) -> Seq<char> {
    "localabstract:"@ + name
}

/// The arguments of the command that opens a tunnel.
pub open spec fn reverse_args(serial: Seq<char>, remote_spec: Seq<char>, port: u16) -> Seq<
    Seq<char>,
> {
    seq!["-s"@, serial, "reverse"@, remote_spec, host_spec(port)]
}

/// The arguments of the command that removes a tunnel.
pub open spec fn remove_args(serial: Seq<char>, remote_spec: Seq<char>) -> Seq<Seq<char>> {
    seq!["-s"@, serial, "reverse"@, "--remove"@, remote_spec]
}

/// What opening a tunnel comes to: the guard of just that tunnel, or why the
/// command failed.
pub open spec fn opened(
    serial: Seq<char>,
    remote_spec: Seq<char>,
    reply: Reply,
    res: Result<TunnelGuard, OperationError>,
) -> bool {
    match outcome(reply) {
        Ok(_) => {
            &&& res matches Ok(guard)
            &&& guard.serial@ == serial
            &&& guard.remote_spec@ == remote_spec
        },
        Err(e) => res matches Err(why) && fails_as(Operation::Reverse, e, why),
    }
}

/// `tcp:` and the port.
pub fn tcp_spec(port: u16) -> (spec_text: String)
    ensures
        spec_text@ == host_spec(port),
{
    "tcp:".to_owned().concat(text::number(port as u64).as_str())
}

impl TunnelGuard {
    /// Open a tunnel from `remote_spec` on the device to `host_port` here. The
    /// device's end is given as `adb` writes it: `localabstract:<name>` for an
    /// abstract Unix socket, `tcp:<port>` for a port.
    pub fn open_remote(
        serial: &str,
        remote_spec: &str,
        host_port: u16,
        reply: Option<Reply>,
    ) -> (step: Step<Result<TunnelGuard, OperationError>>)
        ensures
            match reply {
                None => step matches Step::Run(args) && text::texts(args@) == reverse_args(
                    serial@,
                    remote_spec@,
                    host_port,
                ),
                Some(r) => step matches Step::Done(res) && opened(serial@, remote_spec@, r, res),
            },
            reply matches Some(r) ==> read_plainly(r),
    {
        match reply {
            None => {
                let host: String = tcp_spec(host_port);
                let args: Vec<String> = text::owned(
                    &["-s", serial, "reverse", remote_spec, host.as_str()],
                );
                assert(text::texts(args@) == reverse_args(serial@, remote_spec@, host_port));
                Step::Run(args)
            },
            Some(r) => match run(r) {
                Ok(_) => Step::Done(
                    Ok(
                        TunnelGuard {
                            serial: serial.to_owned(),
                            remote_spec: remote_spec.to_owned(),
                        },
                    ),
                ),
                Err(e) => Step::Done(
                    Err(OperationError { operation: Operation::Reverse, cause: e }),
                ),
            },
        }
    }

    /// Open a tunnel from the abstract Unix socket `name` on the device.
    pub fn open(serial: &str, name: &str, port: u16, reply: Option<Reply>) -> (step: Step<
        Result<TunnelGuard, OperationError>,
    >)
        ensures
            match reply {
                None => step matches Step::Run(args) && text::texts(args@) == reverse_args(
                    serial@,
                    abstract_socket(name@),
                    port,
                ),
                Some(r) => step matches Step::Done(res) && opened(
                    serial@,
                    abstract_socket(name@),
                    r,
                    res,
                ),
            },
            reply matches Some(r) ==> read_plainly(r),
    {
        let remote_spec: String = "localabstract:".to_owned().concat(name);
        TunnelGuard::open_remote(serial, remote_spec.as_str(), port, reply)
    }

    /// What is to be logged once the command that removes the tunnel was run. A
    /// failure is no error: `adb` clears the tunnels of a host that is gone.
    pub fn removed(&self, reply: Reply) -> (logged: Option<AdbError>)
        ensures
            tolerated(reply, logged),
            read_plainly(reply),
    {
        tolerate(reply)
    }

    /// The command that removes the tunnel.
    pub fn removal(&self) -> (args: Vec<String>)
        ensures
            text::texts(args@) == remove_args(self.serial@, self.remote_spec@),
    {
        let args: Vec<String> = text::owned(
            &["-s", self.serial.as_str(), "reverse", "--remove", self.remote_spec.as_str()],
        );
        assert(text::texts(args@) == remove_args(self.serial@, self.remote_spec@));
        args
    }
}

/// What an operation comes to whose output is of no interest.
pub open spec fn finished(
    operation: Operation,
    reply: Reply,
    res: Result<(), OperationError>,
) -> bool {
    match outcome(reply) {
        Ok(_) => res is Ok,
        Err(e) => res matches Err(why) && fails_as(operation, e, why),
    }
}

/// What an operation came to.
fn finish(operation: Operation, reply: Reply) -> (res: Result<(), OperationError>)
    ensures
        finished(operation, reply, res),
        read_plainly(reply),
{
    match run(reply) {
        Ok(_) => Ok(()),
        Err(cause) => Err(OperationError { operation, cause }),
    }
}

/// What a command comes to that is part of the teardown: the failure, if there
/// is one, is only to be logged.
pub open spec fn tolerated(reply: Reply, logged: Option<AdbError>) -> bool {
    match outcome(reply) {
        Ok(_) => logged is None,
        Err(e) => logged matches Some(why) && why@ == e,
    }
}

/// What is to be logged of a command that is part of the teardown.
fn tolerate(reply: Reply) -> (logged: Option<AdbError>)
    ensures
        tolerated(reply, logged),
        read_plainly(reply),
{
    match run(reply) {
        Ok(_) => None,
        Err(e) => Some(e),
    }
}

/// The arguments of the command that installs `apk`.
pub open spec fn install_args(serial: Seq<char>, apk: Seq<char>) -> Seq<Seq<char>> {
    seq!["-s"@, serial, "install"@, "-r"@, apk]
}

/// The arguments of the command that uninstalls `package`.
pub open spec fn uninstall_args(serial: Seq<char>, package: Seq<char>) -> Seq<Seq<char>> {
    seq!["-s"@, serial, "uninstall"@, package]
}

/// The arguments of the command that starts an activity.
pub open spec fn start_args(
    serial: Seq<char>,
    package: Seq<char>,
    activity: Seq<char>,
) -> Seq<Seq<char>> {
    seq!["-s"@, serial, "shell"@, "am"@, "start"@, "-n"@, package + "/"@ + activity]
}

/// The arguments of the command that stops `package`.
pub open spec fn force_stop_args(serial: Seq<char>, package: Seq<char>) -> Seq<Seq<char>> {
    seq!["-s"@, serial, "shell"@, "am"@, "force-stop"@, package]
}

/// The arguments of the command that lists the tunnels.
pub open spec fn list_reverse_args(serial: Seq<char>) -> Seq<Seq<char>> {
    seq!["-s"@, serial, "reverse"@, "--list"@]
}

/// Install `apk`, over a stale install if there is one.
pub fn install_apk(serial: &str, apk: &str, reply: Option<Reply>) -> (step: Step<
    Result<(), OperationError>,
>)
    ensures
        match reply {
            None => step matches Step::Run(args) && text::texts(args@) == install_args(
                serial@,
                apk@,
            ),
            Some(r) => step matches Step::Done(res) && finished(
                Operation::Install,
                r,
                res,
            ),
        },
        reply matches Some(r) ==> read_plainly(r),
{
    match reply {
        None => {
            let args: Vec<String> = text::owned(&["-s", serial, "install", "-r", apk]);
            assert(text::texts(args@) == install_args(serial@, apk@));
            Step::Run(args)
        },
        Some(r) => Step::Done(finish(Operation::Install, r)),
    }
}

/// Uninstall `package`. A failure is handed back to be logged and is no error:
/// the device may be gone, or the package was never installed.
pub fn uninstall(serial: &str, package: &str, reply: Option<Reply>) -> (step: Step<
    Option<AdbError>,
>)
    ensures
        match reply {
            None => step matches Step::Run(args) && text::texts(args@) == uninstall_args(
                serial@,
                package@,
            ),
            Some(r) => step matches Step::Done(logged) && tolerated(r, logged),
        },
        reply matches Some(r) ==> read_plainly(r),
{
    match reply {
        None => {
            let args: Vec<String> = text::owned(&["-s", serial, "uninstall", package]);
            assert(text::texts(args@) == uninstall_args(serial@, package@));
            Step::Run(args)
        },
        Some(r) => Step::Done(tolerate(r)),
    }
}

/// Start `activity` of `package`.
pub fn start_activity(
    serial: &str,
    package: &str,
    activity: &str,
    reply: Option<Reply>,
) -> (step: Step<Result<(), OperationError>>)
    ensures
        match reply {
            None => step matches Step::Run(args) && text::texts(args@) == start_args(
                serial@,
                package@,
                activity@,
            ),
            Some(r) => step matches Step::Done(res) && finished(
                Operation::Start,
                r,
                res,
            ),
        },
        reply matches Some(r) ==> read_plainly(r),
{
    match reply {
        None => {
            let component: String = package.to_owned().concat("/").concat(activity);
            let args: Vec<String> = text::owned(
                &["-s", serial, "shell", "am", "start", "-n", component.as_str()],
            );
            assert(text::texts(args@) == start_args(serial@, package@, activity@));
            Step::Run(args)
        },
        Some(r) => Step::Done(finish(Operation::Start, r)),
    }
}

/// Stop `package`, so that it can be uninstalled without leaving a process
/// behind. A failure is handed back to be logged and is no error.
pub fn force_stop(serial: &str, package: &str, reply: Option<Reply>) -> (step: Step<
    Option<AdbError>,
>)
    ensures
        match reply {
            None => step matches Step::Run(args) && text::texts(args@) == force_stop_args(
                serial@,
                package@,
            ),
            Some(r) => step matches Step::Done(logged) && tolerated(r, logged),
        },
        reply matches Some(r) ==> read_plainly(r),
{
    match reply {
        None => {
            let args: Vec<String> = text::owned(
                &["-s", serial, "shell", "am", "force-stop", package],
            );
            assert(text::texts(args@) == force_stop_args(serial@, package@));
            Step::Run(args)
        },
        Some(r) => Step::Done(tolerate(r)),
    }
}

/// List the reverse tunnels of the device, as `adb` prints them.
pub fn list_reverse(serial: &str, reply: Option<Reply>) -> (step: Step<Result<String, AdbError>>)
    ensures
        match reply {
            None => step matches Step::Run(args) && text::texts(args@) == list_reverse_args(
                serial@,
            ),
            Some(r) => step matches Step::Done(res) && text_in(res) == outcome(r),
        },
        reply matches Some(r) ==> read_plainly(r),
{
    match reply {
        None => {
            let args: Vec<String> = text::owned(&["-s", serial, "reverse", "--list"]);
            assert(text::texts(args@) == list_reverse_args(serial@));
            Step::Run(args)
        },
        Some(r) => Step::Done(run(r)),
    }
}

/// A command is for the device with this serial.
pub open spec fn addressed(args: Seq<Seq<char>>, serial: Seq<char>) -> bool {
    args.len() > 2 && args[0] == "-s"@ && args[1] == serial
}

/// Every command but the listing of the devices is for one device, which it
/// names first.
pub proof fn law_commands_name_their_device(
    serial: Seq<char>,
    first: Seq<char>,
    second: Seq<char>,
    port: u16,
    width: u32,
    height: u32,
)
    ensures
        addressed(push_args(serial, first, second), serial),
        addressed(reverse_args(serial, first, port), serial),
        addressed(remove_args(serial, first), serial),
        addressed(install_args(serial, first), serial),
        addressed(uninstall_args(serial, first), serial),
        addressed(start_args(serial, first, second), serial),
        addressed(force_stop_args(serial, first), serial),
        addressed(list_reverse_args(serial), serial),
        addressed(capture::record_args(serial, width, height), serial),
{
}

/// Every device that is listed is in the state `device`.
pub proof fn law_listed_devices_are_ready(raw: Seq<char>, i: int)
    requires
        0 <= i < devices_in(raw).len(),
    ensures
        devices_in(raw)[i].state == "device"@,
{
    let keep = |line: Seq<char>| shows(line, true);
    below_heading(raw).lemma_filter_pred(keep, i);
}

/// A device that is found by its serial is among those that were searched, and
/// has that serial.
pub proof fn lemma_first_with(devs: Seq<DeviceView>, serial: Seq<char>)
    ensures
        match first_with(devs, serial) {
            Some(d) => devs.contains(d) && d.serial == serial,
            None => forall|i: int| 0 <= i < devs.len() ==> devs[i].serial != serial,
        },
    decreases devs.len(),
{
    if devs.len() > 0 && devs[0].serial != serial {
        lemma_first_with(devs.skip(1), serial);
        match first_with(devs.skip(1), serial) {
            Some(d) => {
                let k = choose|k: int| 0 <= k < devs.skip(1).len() && devs.skip(1)[k] == d;
                assert(devs[k + 1] == d);
            },
            None => {
                assert forall|i: int| 0 <= i < devs.len() implies devs[i].serial != serial by {
                    if i > 0 {
                        assert(devs.skip(1)[i - 1] == devs[i]);
                    }
                }
            },
        }
    }
}

/// The serial that was asked for decides among several devices, and only then: a
/// single device is taken whatever was asked for. The device that is selected is
/// the first listed one with that serial. Without a serial the number of devices
/// is told, and a serial is said to be unknown only if no listed device has it.
pub proof fn law_selected_device_is_listed(devs: Seq<DeviceView>, serial: Option<Seq<char>>)
    ensures
        devs.len() == 0 ==> chosen(devs, serial) == Err::<DeviceView, _>(Refusal::NoDevices),
        devs.len() == 1 ==> chosen(devs, serial) == Ok::<_, Refusal>(devs[0]),
        devs.len() > 1 && serial is None ==> chosen(devs, serial) == Err::<DeviceView, _>(
            Refusal::Ambiguous(devs.len()),
        ),
        devs.len() > 1 ==> forall|i: int|
            0 <= i < devs.len() && serial == Some(#[trigger] devs[i].serial) && (forall|j: int|
                0 <= j < i ==> devs[j].serial != devs[i].serial) ==> chosen(devs, serial) == Ok::<
                _,
                Refusal,
            >(devs[i]),
        devs.len() > 1 && serial is Some && (forall|i: int|
            0 <= i < devs.len() ==> devs[i].serial != serial->Some_0) ==> chosen(devs, serial)
            == Err::<DeviceView, _>(Refusal::NotFound(serial->Some_0)),
{
    if devs.len() > 1 && serial is Some {
        lemma_first_with(devs, serial->Some_0);
        assert forall|i: int|
            0 <= i < devs.len() && serial == Some(#[trigger] devs[i].serial) && (forall|j: int|
                0 <= j < i ==> devs[j].serial != devs[i].serial) implies chosen(devs, serial)
            == Ok::<_, Refusal>(devs[i]) by {
            lemma_first_is_found(devs, serial->Some_0, i);
        }
    }
}

/// The first device with a serial is the one that is found by it.
proof fn lemma_first_is_found(devs: Seq<DeviceView>, serial: Seq<char>, i: int)
    requires
        0 <= i < devs.len(),
        devs[i].serial == serial,
        forall|j: int| 0 <= j < i ==> devs[j].serial != serial,
    ensures
        first_with(devs, serial) == Some(devs[i]),
    decreases devs.len(),
{
    if i > 0 {
        let rest = devs.skip(1);
        assert(devs[0].serial != serial);
        assert(rest[i - 1] == devs[i]);
        assert forall|j: int| 0 <= j < i - 1 implies rest[j].serial != serial by {
            assert(rest[j] == devs[j + 1]);
        }
        lemma_first_is_found(rest, serial, i - 1);
    }
}

/// A tunnel that was opened is the one that its guard removes: on the same
/// device, with the same end there.
pub proof fn law_guard_removes_its_tunnel(
    serial: Seq<char>,
    remote_spec: Seq<char>,
    port: u16,
    reply: Reply,
    res: Result<TunnelGuard, OperationError>,
)
    requires
        opened(serial, remote_spec, reply, res),
    ensures
        res is Ok <==> outcome(reply) is Ok,
        res matches Ok(guard) ==> {
            let opening = reverse_args(serial, remote_spec, port);
            let removal = remove_args(guard.serial@, guard.remote_spec@);
            removal[1] == opening[1] && removal[4] == opening[3]
        },
{
}

/// Where no backslash stands behind the last slash, both systems see the same
/// there.
proof fn lemma_behind_alike(path: Seq<char>)
    requires
        !behind(path, Reading::Unix).contains('\\'),
    ensures
        behind(path, Reading::Windows) == behind(path, Reading::Unix),
    decreases path.len(),
{
    if path.len() > 0 && path.last() != '/' {
        let front = path.drop_last();
        let part = behind(path, Reading::Unix);
        assert(part.last() == path.last());
        assert(part[part.len() - 1] != '\\');
        assert forall|i: int| 0 <= i < behind(front, Reading::Unix).len() implies behind(front, Reading::Unix)[i]
            != '\\' by {
            assert(part[i] == behind(front, Reading::Unix)[i]);
        }
        lemma_behind_alike(front);
    }
}

/// What stands behind the last separator stands there without the drive too.
proof fn lemma_behind_drive(path: Seq<char>)
    requires
        has_drive(path),
        !behind(path, Reading::Windows).contains(':'),
    ensures
        behind(path.skip(2), Reading::Windows) == behind(path, Reading::Windows),
    decreases path.len(),
{
    if !separates(path.last(), Reading::Windows) {
        let front = path.drop_last();
        let part = behind(path, Reading::Windows);
        assert(part[part.len() - 1] == path.last());
        assert forall|i: int| 0 <= i < behind(front, Reading::Windows).len() implies behind(front, Reading::Windows)[i]
            != ':' by {
            assert(part[i] == behind(front, Reading::Windows)[i]);
        }
        lemma_behind_drive(front);
        assert(path.skip(2).drop_last() == front.skip(2));
    } else if path.len() > 2 {
        assert(path.skip(2).last() == path.last());
    }
}

/// A file that has a name is pushed under it, on either system: the name is what
/// stands behind the last separator, as the host's system separates. A name is
/// neither a dot nor two, and holds no colon.
pub proof fn law_plain_file_name(path: Seq<char>, name: Option<Seq<char>>)
    requires
        file_named(path, name),
        !has_server(path),
        behind(path, Reading::Windows).len() > 0,
        !behind(path, Reading::Windows).contains(':'),
        behind(path, Reading::Windows) != seq!['.'],
        behind(path, Reading::Windows) != seq!['.', '.'],
    ensures
        name == Some(behind(path, Reading::Windows)) || name == Some(behind(path, Reading::Unix)),
{
    let part = behind(path, Reading::Unix);
    if part == seq!['.'] || part == seq!['.', '.'] {
        lemma_behind_alike(path);
    }
    if has_drive(path) {
        lemma_behind_drive(path);
    }
}

/// Without a backslash both systems see the same last component.
proof fn lemma_last_name_alike(path: Seq<char>)
    requires
        !path.contains('\\'),
    ensures
        behind(path, Reading::Windows) == behind(path, Reading::Unix),
        last_name(path, Reading::Windows) == last_name(path, Reading::Unix),
    decreases path.len(),
{
    if path.len() > 0 {
        let front = path.drop_last();
        assert forall|i: int| 0 <= i < front.len() implies front[i] != '\\' by {
            assert(path[i] == front[i]);
        }
        assert(path[path.len() - 1] != '\\');
        lemma_last_name_alike(front);
    }
}

/// The file name in a path that the systems read alike is certain: it is the last
/// component, and there is none if that is missing or is `..`.
pub proof fn law_file_name_is_certain(path: Seq<char>, name: Option<Seq<char>>)
    requires
        file_named(path, name),
        !path.contains('\\'),
        !has_server(path),
        !has_drive(path),
    ensures
        name == last_name(path, Reading::Unix),
{
    lemma_last_name_alike(path);
}

/// A file that was pushed is said to be where it was pushed to, in
/// [`DEVICE_TMP`].
pub proof fn law_file_is_where_it_was_pushed(
    serial: Seq<char>,
    local: Seq<char>,
    name: Seq<char>,
    res: Result<Push, PushError>,
)
    requires
        push_of(serial, local, Some(name), res),
    ensures
        res matches Ok(push) && text::texts(push.args@).last() == push.remote@ && push.remote@.take(
            DEVICE_TMP@.len() as int,
        ) == DEVICE_TMP@,
{
    let push = res->Ok_0;
    assert(push.remote@.take(DEVICE_TMP@.len() as int) =~= DEVICE_TMP@);
}

/// The text of a listing: a heading, a line feed, and what is below.
pub open spec fn listing(heading: Seq<char>, body: Seq<char>) -> Seq<char> {
    heading + seq!['\n'] + body
}

/// What stands below the heading is read line by line.
proof fn lemma_below_heading(heading: Seq<char>, body: Seq<char>)
    requires
        text::one_line(heading),
    ensures
        below_heading(listing(heading, body)) == text::lines_of(body),
{
    let raw = listing(heading, body);
    if heading.len() > 0 && heading.last() == '\r' {
        let front = heading.drop_last();
        assert forall|i: int| 0 <= i < front.len() implies #[trigger] front[i] != '\n' by {
            assert(heading[i] != '\n');
        }
        assert(raw == front + seq!['\r', '\n'] + body);
        text::law_lines_are_ended(front, body);
        assert((seq![front] + text::lines_of(body)).skip(1) == text::lines_of(body));
    } else {
        text::law_lines_are_ended(heading, body);
        assert((seq![heading] + text::lines_of(body)).skip(1) == text::lines_of(body));
    }
}

/// The devices on two runs of lines are those on the one and those on the other.
proof fn lemma_shown_add(a: Seq<Seq<char>>, b: Seq<Seq<char>>, ready: bool)
    ensures
        ({
            let keep = |line: Seq<char>| shows(line, ready);
            let name = |line: Seq<char>| named(line);
            (a + b).filter(keep).map_values(name) == a.filter(keep).map_values(name) + b.filter(
                keep,
            ).map_values(name)
        }),
{
    let keep = |line: Seq<char>| shows(line, ready);
    let name = |line: Seq<char>| named(line);
    Seq::filter_distributes_over_add(a, b, keep);
    assert((a.filter(keep) + b.filter(keep)).map_values(name) == a.filter(keep).map_values(name)
        + b.filter(keep).map_values(name));
}

/// A listing is read line by line: what one part of the lines shows does not
/// depend on the others, and nothing is lost between them. The heading alone shows
/// nothing.
pub proof fn law_listing_adds_up(
    heading: Seq<char>,
    above: Seq<char>,
    below: Seq<char>,
    ready: bool,
)
    requires
        text::one_line(heading),
        above.len() == 0 || above.last() == '\n',
    ensures
        shown_in(listing(heading, above + below), ready) == shown_in(
            listing(heading, above),
            ready,
        ) + shown_in(listing(heading, below), ready),
        shown_in(heading, ready) == Seq::<DeviceView>::empty(),
{
    lemma_below_heading(heading, above + below);
    lemma_below_heading(heading, above);
    lemma_below_heading(heading, below);
    text::law_lines_add_up(above, below);
    lemma_shown_add(text::lines_of(above), text::lines_of(below), ready);
    text::law_lines_are_ended(heading, above);
    reveal(Seq::filter);
    assert(below_heading(heading) == Seq::<Seq<char>>::empty());
}

/// The line names a device in the given state: its first two words are the serial
/// and the state, with any white space around them, and anything behind.
pub open spec fn names(
    line: Seq<char>,
    front: Seq<char>,
    serial: Seq<char>,
    gap: Seq<char>,
    state: Seq<char>,
    rest: Seq<char>,
) -> bool {
    &&& line == front + serial + gap + state + rest
    &&& text::blank(front)
    &&& text::solid(serial)
    &&& text::blank(gap)
    &&& gap.len() > 0
    &&& text::solid(state)
    &&& rest.len() == 0 || text::white(rest[0])
}

/// The first two words of a line that names a device.
proof fn lemma_names(
    line: Seq<char>,
    front: Seq<char>,
    serial: Seq<char>,
    gap: Seq<char>,
    state: Seq<char>,
    rest: Seq<char>,
)
    requires
        names(line, front, serial, gap, state, rest),
    ensures
        text::words_of(line).len() >= 2,
        text::words_of(line)[0] == serial,
        text::words_of(line)[1] == state,
{
    let tail = gap + state + rest;
    assert(text::white(gap[0]));
    assert(tail[0] == gap[0]);
    assert(line == front + serial + tail);
    text::law_words_are_separated(front, serial, tail);
    text::law_words_are_separated(gap, state, rest);
}

/// A line below the heading shows its device whenever the second word is `device`,
/// with the first word for its serial, whatever follows: no further words on the
/// line change anything. One whose second word is another shows a device that is
/// skipped, with that word for its state.
pub proof fn law_line_shows_its_device(
    heading: Seq<char>,
    line: Seq<char>,
    front: Seq<char>,
    serial: Seq<char>,
    gap: Seq<char>,
    state: Seq<char>,
    rest: Seq<char>,
)
    requires
        text::one_line(heading),
        text::one_line(line),
        names(line, front, serial, gap, state, rest),
    ensures
        state == "device"@ ==> {
            &&& devices_in(listing(heading, line + seq!['\n'])) == seq![
                DeviceView { serial, state: "device"@ },
            ]
            &&& devices_in(listing(heading, line)) == seq![
                DeviceView { serial, state: "device"@ },
            ]
            &&& shown_in(listing(heading, line + seq!['\n']), false).len() == 0
        },
        state != "device"@ ==> {
            &&& devices_in(listing(heading, line + seq!['\n'])).len() == 0
            &&& devices_in(listing(heading, line)).len() == 0
            &&& shown_in(listing(heading, line + seq!['\n']), false) == seq![
                DeviceView { serial, state },
            ]
        },
{
    lemma_names(line, front, serial, gap, state, rest);
    lemma_below_heading(heading, line);
    lemma_below_heading(heading, line + seq!['\n']);
    lemma_one_shown(line, true);
    lemma_one_shown(line, false);
    let none: Seq<char> = seq![];
    assert(line + seq!['\n'] + none == line + seq!['\n']);
    text::law_lines_are_ended(none, none);
    if line.last() == '\r' {
        let cut = line.drop_last();
        assert(text::white('\r'));
        if rest.len() == 0 {
            assert(line.last() == state.last());
            assert(!text::white(state[state.len() - 1]));
        }
        assert(cut == front + serial + gap + state + rest.drop_last());
        lemma_names(cut, front, serial, gap, state, rest.drop_last());
        assert forall|i: int| 0 <= i < cut.len() implies #[trigger] cut[i] != '\n' by {
            assert(line[i] != '\n');
        }
        assert(line + seq!['\n'] == cut + seq!['\r', '\n'] + none);
        text::law_lines_are_ended(cut, none);
        text::law_lines_are_ended(line, none);
        assert(seq![cut] + text::lines_of(none) == seq![cut]);
        lemma_one_shown(cut, true);
        lemma_one_shown(cut, false);
    } else {
        text::law_lines_are_ended(line, none);
        assert(seq![line] + text::lines_of(none) == seq![line]);
    }
}

/// What a single line shows.
proof fn lemma_one_shown(line: Seq<char>, ready: bool)
    ensures
        ({
            let keep = |l: Seq<char>| shows(l, ready);
            let name = |l: Seq<char>| named(l);
            seq![line].filter(keep).map_values(name) == if shows(line, ready) {
                seq![named(line)]
            } else {
                seq![]
            }
        }),
{
    let keep = |l: Seq<char>| shows(l, ready);
    let name = |l: Seq<char>| named(l);
    reveal_with_fuel(Seq::filter, 2);
    assert(seq![line].drop_last() == Seq::<Seq<char>>::empty());
    assert(seq![line].last() == line);
    if shows(line, ready) {
        assert(seq![line].filter(keep) == seq![line]);
        assert(seq![line].map_values(name) == seq![named(line)]);
    } else {
        assert(seq![line].filter(keep) == Seq::<Seq<char>>::empty());
    }
}

/// A line below the heading with one word or none shows no device.
pub proof fn law_short_line_shows_nothing(
    heading: Seq<char>,
    front: Seq<char>,
    word: Seq<char>,
    back: Seq<char>,
    ready: bool,
)
    requires
        text::one_line(heading),
        text::blank(front),
        text::solid(word),
        text::blank(back),
        text::one_line(front + word + back),
    ensures
        shown_in(listing(heading, front + word + back), ready).len() == 0,
        shown_in(listing(heading, front + word + back + seq!['\n']), ready).len() == 0,
        shown_in(listing(heading, front), ready).len() == 0,
        shown_in(listing(heading, front + seq!['\n']), ready).len() == 0,
{
    let line = front + word + back;
    let none: Seq<char> = seq![];
    assert forall|i: int| 0 <= i < front.len() implies #[trigger] front[i] != '\n' by {
        assert(line[i] == front[i]);
    }
    if back.len() > 0 {
        assert(text::white(back[0]));
    }
    text::law_words_are_separated(front, word, back);
    text::law_words_are_separated(back, word, none);
    lemma_below_heading(heading, line);
    lemma_below_heading(heading, front);
    lemma_below_heading(heading, line + seq!['\n']);
    lemma_below_heading(heading, front + seq!['\n']);
    text::law_lines_are_ended(line, none);
    text::law_lines_are_ended(front, none);
    lemma_ended_line(line);
    lemma_ended_line(front);
    if line.last() == '\r' {
        if back.len() == 0 {
            assert(text::white('\r'));
            assert(!text::white(word[word.len() - 1]));
        }
        let cut = back.drop_last();
        assert forall|i: int| 0 <= i < cut.len() implies text::white(#[trigger] cut[i]) by {
            assert(text::white(back[i]));
        }
        assert(line.drop_last() == front + word + cut);
        text::law_words_are_separated(front, word, cut);
        text::law_words_are_separated(cut, word, none);
    }
    if front.len() > 0 && front.last() == '\r' {
        let cut = front.drop_last();
        assert forall|i: int| 0 <= i < cut.len() implies text::white(#[trigger] cut[i]) by {
            assert(text::white(front[i]));
        }
        text::law_words_are_separated(cut, word, none);
    }
    lemma_one_shown(line, ready);
    lemma_one_shown(text::without_return(line), ready);
    lemma_one_shown(front, ready);
    lemma_one_shown(text::without_return(front), ready);
    reveal(Seq::filter);
}

/// A line that is ended is one line, without its line break.
proof fn lemma_ended_line(line: Seq<char>)
    requires
        text::one_line(line),
    ensures
        text::lines_of(line + seq!['\n']) == seq![text::without_return(line)],
{
    let none: Seq<char> = seq![];
    text::law_lines_are_ended(none, none);
    if line.len() > 0 && line.last() == '\r' {
        let cut = line.drop_last();
        assert forall|i: int| 0 <= i < cut.len() implies #[trigger] cut[i] != '\n' by {
            assert(line[i] != '\n');
        }
        assert(line + seq!['\n'] == cut + seq!['\r', '\n'] + none);
        text::law_lines_are_ended(cut, none);
        assert(seq![cut] + text::lines_of(none) == seq![cut]);
    } else {
        assert(line + seq!['\n'] == line + seq!['\n'] + none);
        text::law_lines_are_ended(line, none);
        assert(seq![line] + text::lines_of(none) == seq![line]);
    }
}

/// A command that succeeds comes to all that it printed. One that fails comes to
/// what it said on its error stream, without the white space around it, or to its
/// status if it said nothing there. One that was not started comes to the reason.
pub proof fn law_reply_is_taken_at_its_word(
    out: Output,
    why: String,
    front: Seq<char>,
    core: Seq<char>,
    back: Seq<char>,
)
    ensures
        out.success ==> outcome(Reply::Finished(out)) == Ok::<_, Fault>(utf8_lossy(out.stdout@)),
        !out.success && text::blank(utf8_lossy(out.stderr@)) ==> outcome(Reply::Finished(out))
            == Err::<Seq<char>, _>(Fault::Exited(out.status@)),
        !out.success && utf8_lossy(out.stderr@) == front + core + back && text::blank(front)
            && text::blank(back) && core.len() > 0 && !text::white(core[0]) && !text::white(
            core.last(),
        ) ==> outcome(Reply::Finished(out)) == Err::<Seq<char>, _>(Fault::Failed(core)),
        outcome(Reply::NotSpawned(why)) == Err::<Seq<char>, _>(Fault::NotSpawned(why@)),
{
    let stderr = utf8_lossy(out.stderr@);
    if text::blank(stderr) {
        let mark = seq!['x'];
        text::law_trim_keeps_the_core(stderr, mark, stderr);
    }
    if text::blank(front) && text::blank(back) && core.len() > 0 && !text::white(core[0])
        && !text::white(core.last()) {
        text::law_trim_keeps_the_core(front, core, back);
    }
}

/// The listing decides which device is selected: if it cannot be had, that is why
/// none is, and else it is chosen among the devices that are shown as ready.
pub proof fn law_listing_decides(serial: Option<Seq<char>>, reply: Reply)
    ensures
        match outcome(reply) {
            Ok(raw) => {
                &&& devices_from(reply) == Ok::<_, Fault>(shown_in(raw, true))
                &&& selected_from(serial, reply) == chosen(shown_in(raw, true), serial)
            },
            Err(e) => {
                &&& devices_from(reply) == Err::<Seq<DeviceView>, _>(e)
                &&& selected_from(serial, reply) == Err::<DeviceView, _>(Refusal::Adb(e))
            },
        },
{
}

/// Every error tells its cause in full, behind words of its own.
pub proof fn law_errors_tell_their_cause(why: Seq<char>, n: nat, e: Fault)
    ensures
        Fault::NotSpawned(why).words() == "failed to spawn adb: "@ + why,
        Fault::Exited(why).words() == "adb exited with status "@ + why,
        Fault::Failed(why).words() == "adb failed: "@ + why,
        Refusal::Adb(e).words() == e.words(),
        Refusal::NotFound(why).words() == "--serial "@ + why
            + " not found among connected devices"@,
        Refusal::NoDevices.words()
            == "no connected devices. Plug in a phone and enable USB debugging."@,
        exists|count: Seq<char>|
            text::writes(count, n) && Refusal::Ambiguous(n).words() == #[trigger] (count
                + " devices connected; pass --serial <id> to choose one. Run `cargo run -- devices` to list them."@),
        PushFault::NoFileName(why).words() == "local path has no filename: "@ + why,
        PushFault::Adb(e).words() == "adb push failed: "@ + e.words(),
        (OperationFault { operation: Operation::Reverse, cause: e }).words()
            == "adb reverse failed: "@ + e.words(),
        (OperationFault { operation: Operation::Install, cause: e }).words()
            == "adb install failed: "@ + e.words(),
        (OperationFault { operation: Operation::Start, cause: e }).words()
            == "adb shell am start failed: "@ + e.words(),
{
    text::law_decimal_reads_back(n);
    assert(text::writes(text::decimal(n), n) && Refusal::Ambiguous(n).words() == text::decimal(n)
        + " devices connected; pass --serial <id> to choose one. Run `cargo run -- devices` to list them."@);
}

/// What an error holds is what its words are made of: nothing of it is lost.
pub proof fn law_errors_are_seen_whole(
    why: String,
    n: usize,
    e: AdbError,
    dev: Device,
    operation: Operation,
)
    ensures
        text_in(Ok(why)) == Ok::<_, Fault>(why@),
        text_in(Err(e)) == Err::<Seq<char>, _>(e@),
        (OperationError { operation, cause: e })@ == (OperationFault { operation, cause: e@ }),
        AdbError::NotSpawned(why)@ == Fault::NotSpawned(why@),
        AdbError::Exited(why)@ == Fault::Exited(why@),
        AdbError::Failed(why)@ == Fault::Failed(why@),
        SelectError::Adb(e)@ == Refusal::Adb(e@),
        SelectError::NoDevices@ == Refusal::NoDevices,
        SelectError::NotFound(why)@ == Refusal::NotFound(why@),
        SelectError::Ambiguous(n)@ == Refusal::Ambiguous(n as nat),
        PushError::NoFileName(why)@ == PushFault::NoFileName(why@),
        PushError::Adb(e)@ == PushFault::Adb(e@),
        dev@.serial == dev.serial@,
        dev@.state == dev.state@,
        name_in(Some(why)) == Some(why@),
        name_in(None) == None::<Seq<char>>,
{
}

/// A list of devices is seen one for one, and so is what a listing or a selection
/// comes to.
pub proof fn law_devices_are_seen_whole(
    devs: Vec<Device>,
    i: int,
    dev: Device,
    e: AdbError,
    refusal: SelectError,
    serial: &str,
)
    ensures
        device_views(devs@).len() == devs@.len(),
        0 <= i < devs@.len() ==> device_views(devs@)[i] == devs@[i]@,
        devices_found(Ok(devs)) == Ok::<_, Fault>(device_views(devs@)),
        devices_found(Err(e)) == Err::<Seq<DeviceView>, _>(e@),
        selection(Ok(dev)) == Ok::<_, Refusal>(dev@),
        selection(Err(refusal)) == Err::<DeviceView, _>(refusal@),
        wanted(Some(serial)) == Some(serial@),
        wanted(None) == None::<Seq<char>>,
{
}

/// Each command is what `adb` expects, with what it was asked for in its place,
/// unchanged.
pub proof fn law_commands_say_what_is_asked(
    serial: Seq<char>,
    first: Seq<char>,
    second: Seq<char>,
    port: u16,
)
    ensures
        devices_args() == seq!["devices"@, "-l"@],
        push_args(serial, first, second) == seq!["-s"@, serial, "push"@, first, second],
        install_args(serial, first) == seq!["-s"@, serial, "install"@, "-r"@, first],
        uninstall_args(serial, first) == seq!["-s"@, serial, "uninstall"@, first],
        start_args(serial, first, second).len() == 7,
        start_args(serial, first, second).take(6) == seq![
            "-s"@,
            serial,
            "shell"@,
            "am"@,
            "start"@,
            "-n"@,
        ],
        start_args(serial, first, second)[6] == first + seq!['/'] + second,
        force_stop_args(serial, first) == seq![
            "-s"@,
            serial,
            "shell"@,
            "am"@,
            "force-stop"@,
            first,
        ],
        list_reverse_args(serial) == seq!["-s"@, serial, "reverse"@, "--list"@],
        remove_args(serial, first) == seq!["-s"@, serial, "reverse"@, "--remove"@, first],
        reverse_args(serial, first, port).len() == 5,
        reverse_args(serial, first, port).take(4) == seq!["-s"@, serial, "reverse"@, first],
        names_port(reverse_args(serial, first, port)[4], port),
{
    reveal_strlit("/");
    assert("/"@ == seq!['/']);
    law_tunnel_ends_are_named(port, first);
}

/// `end` is the end of a tunnel at this port: `tcp:` and the port's number.
pub open spec fn names_port(end: Seq<char>, port: u16) -> bool {
    &&& end.len() > 4
    &&& end.take(4) == seq!['t', 'c', 'p', ':']
    &&& text::writes(end.skip(4), port as nat)
}

/// A tunnel's end is named by its port, or by the name of a socket, and can be read
/// back.
pub proof fn law_tunnel_ends_are_named(port: u16, name: Seq<char>)
    ensures
        names_port(host_spec(port), port),
        abstract_socket(name) == "localabstract:"@ + name,
{
    reveal_strlit("tcp:");
    assert("tcp:"@ == seq!['t', 'c', 'p', ':']);
    text::law_decimal_reads_back(port as nat);
    assert(host_spec(port).take(4) == "tcp:"@);
    assert(host_spec(port).skip(4) == text::decimal(port as nat));
}

/// A file lands in the directory for it under just its name.
pub proof fn law_file_lands_under_its_name(
    serial: Seq<char>,
    local: Seq<char>,
    name: Seq<char>,
    res: Result<Push, PushError>,
)
    ensures
        remote_path(name) == "/data/local/tmp"@ + seq!['/'] + name,
        push_of(serial, local, Some(name), res) ==> (res matches Ok(push) && text::texts(push.args@)
            == seq!["-s"@, serial, "push"@, local, "/data/local/tmp"@ + seq!['/'] + name]
            && push.remote@ == "/data/local/tmp"@ + seq!['/'] + name),
        push_of(serial, local, None, res) ==> (res matches Err(why) && why@
            == PushFault::NoFileName(local)),
{
    reveal_strlit("/");
    assert("/"@ == seq!['/']);
}

/// What stands behind the last separator is all that does.
proof fn lemma_behind(dir: Seq<char>, name: Seq<char>, reading: Reading)
    requires
        dir.len() == 0 || separates(dir.last(), reading),
        forall|i: int| 0 <= i < name.len() ==> !separates(#[trigger] name[i], reading),
    ensures
        behind(dir + name, reading) == name,
    decreases name.len(),
{
    if name.len() == 0 {
        assert(dir + name == dir);
    } else {
        assert(!separates(name[name.len() - 1], reading));
        assert((dir + name).drop_last() == dir + name.drop_last());
        assert forall|i: int| 0 <= i < name.drop_last().len() implies !separates(
            #[trigger] name.drop_last()[i],
            reading,
        ) by {
            assert(!separates(name[i], reading));
        }
        lemma_behind(dir, name.drop_last(), reading);
        assert(behind(dir + name, reading) == name.drop_last().push(name.last()));
    }
}

/// The last component of a path is what was joined to it last: whatever directory
/// stands in front, and whatever separators and lone dots follow. A slash
/// separates on either system, a backslash on Windows.
pub proof fn law_last_component_is_found(dir: Seq<char>, name: Seq<char>, reading: Reading)
    requires
        dir.len() == 0 || dir.last() == '/' || (dir.last() == '\\' && reading is Windows),
        reading is Unix || reading is Windows,
        name.len() > 0,
        forall|i: int| 0 <= i < name.len() ==> #[trigger] name[i] != '/' && name[i] != '\\',
        name != seq!['.'],
    ensures
        name != seq!['.', '.'] ==> {
            &&& last_name(dir + name, reading) == Some(name)
            &&& last_name(dir + name + seq!['/'], reading) == Some(name)
            &&& last_name(dir + name + seq!['/', '.'], reading) == Some(name)
        },
        name == seq!['.', '.'] ==> last_name(dir + name, reading) is None,
        last_name(seq![], reading) is None,
        last_name(seq!['/'], reading) is None,
        last_name(seq!['.'], reading) is None,
{
    let path = dir + name;
    assert forall|i: int| 0 <= i < name.len() implies !separates(#[trigger] name[i], reading) by {
        assert(name[i] != '/');
    }
    lemma_behind(dir, name, reading);
    assert(name[name.len() - 1] != '/');
    assert(path.last() == name.last());
    let slashed = path + seq!['/'];
    assert(slashed.drop_last() == path);
    let dotted = path + seq!['/', '.'];
    assert(dotted == slashed + seq!['.']);
    lemma_behind(slashed, seq!['.'], reading);
    assert(dotted.drop_last() == slashed);
    let none: Seq<char> = seq![];
    assert(seq!['/'].drop_last() == none);
    lemma_behind(none, seq!['.'], reading);
    assert(none + seq!['.'] == seq!['.']);
    assert(seq!['.'].drop_last() == none);
    reveal_with_fuel(last_name, 3);
}

/// What was asked for is what is told: a failure that only is logged is the one
/// that happened, and an operation fails exactly if its command does.
pub proof fn law_replies_decide(
    reply: Reply,
    logged: Option<AdbError>,
    operation: Operation,
    res: Result<(), OperationError>,
    opening: Result<TunnelGuard, OperationError>,
    serial: Seq<char>,
    remote_spec: Seq<char>,
)
    ensures
        tolerated(reply, logged) ==> match outcome(reply) {
            Ok(_) => logged is None,
            Err(e) => logged is Some && logged->Some_0@ == e,
        },
        finished(operation, reply, res) ==> match outcome(reply) {
            Ok(_) => res is Ok,
            Err(e) => res is Err && res->Err_0@.operation == operation && res->Err_0@.cause == e,
        },
        opened(serial, remote_spec, reply, opening) ==> match outcome(reply) {
            Ok(_) => opening is Ok && opening->Ok_0.serial@ == serial
                && opening->Ok_0.remote_spec@ == remote_spec,
            Err(e) => opening is Err && opening->Err_0@.operation == Operation::Reverse
                && opening->Err_0@.cause == e,
        },
{
}

/// A file that was pushed is reported where its command put it, and one that could not
/// be pushed with the reason.
pub proof fn law_push_is_reported(
    serial: Seq<char>,
    local: Seq<char>,
    name: Seq<char>,
    push: Push,
    reply: Reply,
    res: Result<String, PushError>,
)
    requires
        push_of(serial, local, Some(name), Ok(push)),
        landed(push, reply, res),
    ensures
        outcome(reply) is Ok ==> res is Ok && res->Ok_0@ == text::texts(push.args@).last()
            && res->Ok_0@ == "/data/local/tmp"@ + seq!['/'] + name,
        outcome(reply) matches Err(e) ==> res is Err && res->Err_0@.words()
            == "adb push failed: "@ + e.words(),
{
    law_file_lands_under_its_name(serial, local, name, Ok(push));
}

} // verus!
