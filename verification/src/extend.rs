//! Extend mode: a display of the host is captured, encoded and streamed to the
//! device, where an app that is installed for the session shows it.
use crate::adb;
use crate::adb::{AdbError, Output, Reply, TunnelGuard};
use crate::failure;
use crate::failure::{Failure, FailureView};
use crate::protocol;
use crate::screencap::EncodedPacket;
use crate::text;
use vstd::prelude::*;
use vstd::string::*;

verus! {

/// The package of the app on the device.
pub const EXTEND_PACKAGE: &'static str = "dev.usbdisplaybridge.extend";

/// The activity of the app that is started.
pub const EXTEND_ACTIVITY: &'static str = ".MainActivity";

/// What the session is doing.
#[derive(Debug, Clone, Copy, PartialEq, Eq, Structural)]
pub enum StreamPhase {
    /// Looking for the app's package file.
    Checking,
    /// Listing the devices, to select one.
    Selecting,
    /// Binding the port that the app connects to.
    Binding,
    /// Opening the tunnel.
    Tunnelling,
    /// Installing the app.
    Installing,
    /// Starting the app.
    Launching,
    /// Waiting for the app to connect.
    Accepting,
    /// Having the connection send at once what is written to it.
    Tuning,
    /// Sending the version byte.
    Greeting,
    /// Starting the capture.
    Starting,
    /// Asking the capture for a packet.
    Pulling,
    /// Sending the length of a packet.
    Heading,
    /// Sending the packet.
    Sending,
    /// Stopping the app.
    Stopping,
    /// Uninstalling it.
    Uninstalling,
    /// Removing the tunnel.
    Closing,
    /// Nothing any more.
    Finished,
}

/// What is to be done next.
pub enum StreamAction<'a> {
    /// See whether there is a file at the path that the session was given.
    CheckApk,
    /// Run this `adb` command.
    Adb(Vec<String>),
    /// Listen on this port of the local host.
    Bind(u16),
    /// Accept a connection.
    Accept,
    /// Set `TCP_NODELAY` on the connection.
    SetNodelay,
    /// Start the capture of this display, at so many frames in a second.
    StartCapture { output_idx: u32, framerate: u32 },
    /// Ask the capture for a packet.
    NextPacket,
    /// Write these bytes to the connection.
    Send(&'a [u8]),
    /// Nothing: the session is over.
    Finish,
}

/// The contents of a [`StreamAction`].
pub enum StreamAsk {
    CheckApk,
    Adb(Seq<Seq<char>>),
    Bind(u16),
    Accept,
    SetNodelay,
    StartCapture { output_idx: u32, framerate: u32 },
    NextPacket,
    Send(Seq<u8>),
    Finish,
}

impl View for StreamAction<'_> {
    type V = StreamAsk;

    open spec fn view(&self) -> StreamAsk {
        match *self {
            StreamAction::CheckApk => StreamAsk::CheckApk,
            StreamAction::Adb(args) => StreamAsk::Adb(text::texts(args@)),
            StreamAction::Bind(port) => StreamAsk::Bind(port),
            StreamAction::Accept => StreamAsk::Accept,
            StreamAction::SetNodelay => StreamAsk::SetNodelay,
            StreamAction::StartCapture { output_idx, framerate } => StreamAsk::StartCapture {
                output_idx,
                framerate,
            },
            StreamAction::NextPacket => StreamAsk::NextPacket,
            StreamAction::Send(bytes) => StreamAsk::Send(bytes@),
            StreamAction::Finish => StreamAsk::Finish,
        }
    }
}

/// What came of an action.
pub enum StreamEvent {
    /// There is a file, or there is none.
    Checked(bool),
    /// The `adb` command was run.
    Replied(Reply),
    /// The action succeeded, or failed for the cause given.
    Done(Result<(), String>),
    /// The capture produced a packet, or none this time, or failed.
    Pulled(Result<Option<EncodedPacket>, String>),
}

/// The course of a session.
pub struct ExtendStream {
    /// The path of the app's package file.
    pub apk: String,
    /// The serial that was asked for.
    pub wanted: Option<String>,
    /// The port, which is the same on the host and on the device.
    pub port: u16,
    /// The display that is captured.
    pub output_idx: u32,
    /// How many frames are captured in a second.
    pub framerate: u32,
    pub phase: StreamPhase,
    /// The device, once it is selected.
    pub serial: String,
    /// The bytes that are to be sent now.
    pub now: Vec<u8>,
    /// The bytes that are to be sent after those.
    pub next: Vec<u8>,
    /// Why the session ended, once it is on its way out.
    pub failure: Option<Failure<StreamPhase>>,
}

/// The text and the bytes of an [`ExtendStream`].
pub struct StreamView {
    pub apk: Seq<char>,
    pub wanted: Option<Seq<char>>,
    pub port: u16,
    pub output_idx: u32,
    pub framerate: u32,
    pub phase: StreamPhase,
    pub serial: Seq<char>,
    pub now: Seq<u8>,
    pub next: Seq<u8>,
    pub failure: Option<FailureView<StreamPhase>>,
}

impl View for ExtendStream {
    type V = StreamView;

    open spec fn view(&self) -> StreamView {
        StreamView {
            apk: self.apk@,
            wanted: adb::name_in(self.wanted),
            port: self.port,
            output_idx: self.output_idx,
            framerate: self.framerate,
            phase: self.phase,
            serial: self.serial@,
            now: self.now@,
            next: self.next@,
            failure: failure::failed(self.failure),
        }
    }
}

/// Where the session goes on when it fails in `phase`: what was set up by then
/// is taken down, the app before the tunnel.
pub open spec fn way_out(phase: StreamPhase) -> StreamPhase {
    match phase {
        StreamPhase::Checking
        | StreamPhase::Selecting
        | StreamPhase::Binding
        | StreamPhase::Tunnelling => StreamPhase::Finished,
        StreamPhase::Installing => StreamPhase::Closing,
        _ => StreamPhase::Stopping,
    }
}

/// Where the session goes on when what it does in `phase` succeeds.
pub open spec fn way_on(phase: StreamPhase) -> StreamPhase {
    match phase {
        StreamPhase::Checking => StreamPhase::Selecting,
        StreamPhase::Selecting => StreamPhase::Binding,
        StreamPhase::Binding => StreamPhase::Tunnelling,
        StreamPhase::Tunnelling => StreamPhase::Installing,
        StreamPhase::Installing => StreamPhase::Launching,
        StreamPhase::Launching => StreamPhase::Accepting,
        StreamPhase::Accepting => StreamPhase::Tuning,
        StreamPhase::Tuning => StreamPhase::Greeting,
        StreamPhase::Greeting => StreamPhase::Starting,
        StreamPhase::Starting => StreamPhase::Pulling,
        StreamPhase::Pulling => StreamPhase::Heading,
        StreamPhase::Heading => StreamPhase::Sending,
        StreamPhase::Sending => StreamPhase::Pulling,
        StreamPhase::Stopping => StreamPhase::Uninstalling,
        StreamPhase::Uninstalling => StreamPhase::Closing,
        StreamPhase::Closing => StreamPhase::Finished,
        StreamPhase::Finished => StreamPhase::Finished,
    }
}

/// What is said before the cause of a failure.
pub open spec fn context(phase: StreamPhase, port: u16) -> Seq<char> {
    match phase {
        StreamPhase::Binding => "binding 127.0.0.1:"@ + text::decimal(port as nat) + ": "@,
        StreamPhase::Installing => "installing device-app: "@,
        StreamPhase::Launching => "launching device-app: "@,
        StreamPhase::Accepting => "accepting device-app connection: "@,
        StreamPhase::Tuning => "setting TCP_NODELAY: "@,
        StreamPhase::Greeting => "sending version byte: "@,
        StreamPhase::Starting => "starting display capture: "@,
        StreamPhase::Heading => "writing frame length: "@,
        StreamPhase::Sending => "writing frame payload: "@,
        _ => ""@,
    }
}

/// What is said when the app's package file is not there.
pub open spec fn no_apk_words(apk: Seq<char>) -> Seq<char> {
    "device-app APK not found at "@ + apk
        + " -- run `cd device-app && ./gradlew assembleDebug` first"@
}

/// What is said when a packet is too large to be framed.
pub open spec fn too_large_words() -> Seq<char> {
    "packet too large to frame: out of range integral type conversion attempted"@
}

impl StreamView {
    /// The session as it goes on after it did what it does in its phase.
    pub open spec fn on(self) -> StreamView {
        StreamView { phase: way_on(self.phase), ..self }
    }

    /// The session on its way out, for the cause given.
    pub open spec fn out(self, cause: Seq<char>) -> StreamView {
        StreamView {
            phase: way_out(self.phase),
            failure: Some(
                FailureView { at: self.phase, cause: context(self.phase, self.port) + cause },
            ),
            ..self
        }
    }

    /// `event` answers what is to be done now.
    pub open spec fn accepts(self, event: StreamEvent) -> bool {
        match event {
            StreamEvent::Checked(_) => self.phase is Checking,
            StreamEvent::Pulled(_) => self.phase is Pulling,
            StreamEvent::Replied(_) => {
                ||| self.phase is Selecting
                ||| self.phase is Tunnelling
                ||| self.phase is Installing
                ||| self.phase is Launching
                ||| self.phase is Stopping
                ||| self.phase is Uninstalling
                ||| self.phase is Closing
            },
            StreamEvent::Done(_) => {
                ||| self.phase is Binding
                ||| self.phase is Accepting
                ||| self.phase is Tuning
                ||| self.phase is Greeting
                ||| self.phase is Starting
                ||| self.phase is Heading
                ||| self.phase is Sending
            },
        }
    }

    /// The session after `adb` replied to an operation.
    pub open spec fn operated(self, operation: adb::Operation, reply: Reply) -> StreamView {
        match adb::outcome(reply) {
            Ok(_) => self.on(),
            Err(e) => self.out(adb::OperationFault { operation, cause: e }.words()),
        }
    }

    /// The session after `adb` replied. In the teardown the reply is of no
    /// account.
    pub open spec fn replied(self, reply: Reply) -> StreamView {
        match self.phase {
            StreamPhase::Selecting => match adb::selected_from(self.wanted, reply) {
                Ok(dev) => StreamView { serial: dev.serial, ..self.on() },
                Err(e) => self.out(e.words()),
            },
            StreamPhase::Stopping | StreamPhase::Uninstalling | StreamPhase::Closing => self.on(),
            StreamPhase::Tunnelling => self.operated(adb::Operation::Reverse, reply),
            StreamPhase::Installing => self.operated(adb::Operation::Install, reply),
            StreamPhase::Launching => self.operated(adb::Operation::Start, reply),
            _ => self,
        }
    }

    /// What is logged of a reply: a failure of the teardown, and nothing else.
    pub open spec fn logs(self, reply: Reply, logged: Option<AdbError>) -> bool {
        if self.failure is Some {
            adb::tolerated(reply, logged)
        } else {
            logged is None
        }
    }

    /// The session after an action that is not an `adb` command succeeded.
    pub open spec fn done(self) -> StreamView {
        match self.phase {
            StreamPhase::Tuning => StreamView {
                now: seq![protocol::EXTEND_PROTOCOL_VERSION],
                ..self.on()
            },
            StreamPhase::Heading => StreamView { now: self.next, next: seq![], ..self.on() },
            _ => self.on(),
        }
    }

    /// The session after the capture was asked for a packet.
    pub open spec fn pulled(self, got: Result<Option<EncodedPacket>, String>) -> StreamView {
        match got {
            Err(why) => self.out(why@),
            Ok(None) => self,
            Ok(Some(packet)) => if protocol::fits(packet.data@) {
                StreamView {
                    now: protocol::to_be(packet.data@.len()),
                    next: packet.data@,
                    ..self.on()
                }
            } else {
                self.out(too_large_words())
            },
        }
    }

    /// The session after `event`.
    pub open spec fn after(self, event: StreamEvent) -> StreamView {
        match event {
            StreamEvent::Checked(there) => if there {
                self.on()
            } else {
                self.out(no_apk_words(self.apk))
            },
            StreamEvent::Replied(reply) => self.replied(reply),
            StreamEvent::Done(Ok(_)) => self.done(),
            StreamEvent::Done(Err(why)) => self.out(why@),
            StreamEvent::Pulled(got) => self.pulled(got),
        }
    }

    /// The session after `events`.
    pub open spec fn after_all(self, events: Seq<StreamEvent>) -> StreamView
        decreases events.len(),
    {
        if events.len() == 0 {
            self
        } else {
            self.after_all(events.drop_last()).after(events.last())
        }
    }

    /// Each of `events` answers what is to be done when it happens.
    pub open spec fn accepts_all(self, events: Seq<StreamEvent>) -> bool
        decreases events.len(),
    {
        events.len() > 0 ==> self.accepts_all(events.drop_last()) && self.after_all(
            events.drop_last(),
        ).accepts(events.last())
    }

    /// What the session asks for next.
    pub open spec fn asks(self) -> StreamAsk {
        match self.phase {
            StreamPhase::Checking => StreamAsk::CheckApk,
            StreamPhase::Selecting => StreamAsk::Adb(adb::devices_args()),
            StreamPhase::Binding => StreamAsk::Bind(self.port),
            StreamPhase::Tunnelling => StreamAsk::Adb(
                adb::reverse_args(self.serial, adb::host_spec(self.port), self.port),
            ),
            StreamPhase::Installing => StreamAsk::Adb(adb::install_args(self.serial, self.apk)),
            StreamPhase::Launching => StreamAsk::Adb(
                adb::start_args(self.serial, EXTEND_PACKAGE@, EXTEND_ACTIVITY@),
            ),
            StreamPhase::Accepting => StreamAsk::Accept,
            StreamPhase::Tuning => StreamAsk::SetNodelay,
            StreamPhase::Starting => StreamAsk::StartCapture {
                output_idx: self.output_idx,
                framerate: self.framerate,
            },
            StreamPhase::Pulling => StreamAsk::NextPacket,
            StreamPhase::Greeting | StreamPhase::Heading | StreamPhase::Sending => StreamAsk::Send(
                self.now,
            ),
            StreamPhase::Stopping => StreamAsk::Adb(
                adb::force_stop_args(self.serial, EXTEND_PACKAGE@),
            ),
            StreamPhase::Uninstalling => StreamAsk::Adb(
                adb::uninstall_args(self.serial, EXTEND_PACKAGE@),
            ),
            StreamPhase::Closing => StreamAsk::Adb(
                adb::remove_args(self.serial, adb::host_spec(self.port)),
            ),
            StreamPhase::Finished => StreamAsk::Finish,
        }
    }

    /// The tunnel is open on the device.
    pub open spec fn tunnel_open(self) -> bool {
        ||| self.phase is Installing
        ||| self.phase is Closing
        ||| self.app_installed()
    }

    /// The app is installed on the device.
    pub open spec fn app_installed(self) -> bool {
        ||| self.phase is Launching
        ||| self.phase is Accepting
        ||| self.phase is Tuning
        ||| self.phase is Greeting
        ||| self.phase is Starting
        ||| self.phase is Pulling
        ||| self.phase is Heading
        ||| self.phase is Sending
        ||| self.phase is Stopping
        ||| self.phase is Uninstalling
    }

    /// A session is on its way out, or over, if and only if there is a reason.
    pub open spec fn wf(self) -> bool {
        self.failure is Some <==> {
            ||| self.phase is Stopping
            ||| self.phase is Uninstalling
            ||| self.phase is Closing
            ||| self.phase is Finished
        }
    }
}

/// A session before anything was done.
pub open spec fn started(
    apk: Seq<char>,
    wanted: Option<Seq<char>>,
    port: u16,
    output_idx: u32,
    framerate: u32,
) -> StreamView {
    StreamView {
        apk,
        wanted,
        port,
        output_idx,
        framerate,
        phase: StreamPhase::Checking,
        serial: seq![],
        now: seq![],
        next: seq![],
        failure: None,
    }
}

/// What is said before the cause of a failure.
fn context_text(phase: StreamPhase, port: u16) -> (c: String)
    ensures
        c@ == context(phase, port),
{
    match phase {
        StreamPhase::Binding => "binding 127.0.0.1:".to_owned().concat(
            text::number(port as u64).as_str(),
        ).concat(": "),
        StreamPhase::Installing => "installing device-app: ".to_owned(),
        StreamPhase::Launching => "launching device-app: ".to_owned(),
        StreamPhase::Accepting => "accepting device-app connection: ".to_owned(),
        StreamPhase::Tuning => "setting TCP_NODELAY: ".to_owned(),
        StreamPhase::Greeting => "sending version byte: ".to_owned(),
        StreamPhase::Starting => "starting display capture: ".to_owned(),
        StreamPhase::Heading => "writing frame length: ".to_owned(),
        StreamPhase::Sending => "writing frame payload: ".to_owned(),
        _ => "".to_owned(),
    }
}

/// The phase that follows when what is done in `phase` succeeds.
fn following(phase: StreamPhase) -> (p: StreamPhase)
    ensures
        p == way_on(phase),
{
    match phase {
        StreamPhase::Checking => StreamPhase::Selecting,
        StreamPhase::Selecting => StreamPhase::Binding,
        StreamPhase::Binding => StreamPhase::Tunnelling,
        StreamPhase::Tunnelling => StreamPhase::Installing,
        StreamPhase::Installing => StreamPhase::Launching,
        StreamPhase::Launching => StreamPhase::Accepting,
        StreamPhase::Accepting => StreamPhase::Tuning,
        StreamPhase::Tuning => StreamPhase::Greeting,
        StreamPhase::Greeting => StreamPhase::Starting,
        StreamPhase::Starting => StreamPhase::Pulling,
        StreamPhase::Pulling => StreamPhase::Heading,
        StreamPhase::Heading => StreamPhase::Sending,
        StreamPhase::Sending => StreamPhase::Pulling,
        StreamPhase::Stopping => StreamPhase::Uninstalling,
        StreamPhase::Uninstalling => StreamPhase::Closing,
        StreamPhase::Closing => StreamPhase::Finished,
        StreamPhase::Finished => StreamPhase::Finished,
    }
}

impl ExtendStream {
    /// A session that installs the app at `apk` on the device `wanted`, or the
    /// only one, has it connect to `port`, and streams the display `output_idx` to
    /// it at `framerate` frames in a second.
    pub fn new(
        apk: String,
        wanted: Option<String>,
        port: u16,
        output_idx: u32,
        framerate: u32,
    ) -> (session: ExtendStream)
        ensures
            session@ == started(apk@, adb::name_in(wanted), port, output_idx, framerate),
            session.apk == apk,
            session.wanted == wanted,
            session@.wf(),
    {
        let session: ExtendStream = ExtendStream {
            apk,
            wanted,
            port,
            output_idx,
            framerate,
            phase: StreamPhase::Checking,
            serial: String::new(),
            now: Vec::new(),
            next: Vec::new(),
            failure: None,
        };
        assert(session@.now == Seq::<u8>::empty());
        session
    }

    /// The tunnel of the session.
    fn tunnel(&self) -> (guard: TunnelGuard)
        ensures
            guard.serial@ == self.serial@,
            guard.remote_spec@ == adb::host_spec(self.port),
    {
        TunnelGuard { serial: self.serial.clone(), remote_spec: adb::tcp_spec(self.port) }
    }

    /// The tunnel, while it is open: whoever abandons the session removes it.
    pub fn open_tunnel(&self) -> (open: Option<TunnelGuard>)
        ensures
            match open {
                Some(guard) => {
                    &&& self@.tunnel_open()
                    &&& guard.serial@ == self.serial@
                    &&& guard.remote_spec@ == adb::host_spec(self.port)
                },
                None => !self@.tunnel_open(),
            },
    {
        match self.phase {
            StreamPhase::Checking
            | StreamPhase::Selecting
            | StreamPhase::Binding
            | StreamPhase::Tunnelling
            | StreamPhase::Finished => None,
            _ => Some(self.tunnel()),
        }
    }

    /// What is to be done next.
    pub fn action(&self) -> (action: StreamAction<'_>)
        ensures
            match self.phase {
                StreamPhase::Checking => action == StreamAction::CheckApk,
                StreamPhase::Selecting => action matches StreamAction::Adb(args) && text::texts(
                    args@,
                ) == adb::devices_args(),
                StreamPhase::Binding => action == StreamAction::Bind(self.port),
                StreamPhase::Tunnelling => action matches StreamAction::Adb(args) && text::texts(
                    args@,
                ) == adb::reverse_args(self.serial@, adb::host_spec(self.port), self.port),
                StreamPhase::Installing => action matches StreamAction::Adb(args) && text::texts(
                    args@,
                ) == adb::install_args(self.serial@, self.apk@),
                StreamPhase::Launching => action matches StreamAction::Adb(args) && text::texts(
                    args@,
                ) == adb::start_args(self.serial@, EXTEND_PACKAGE@, EXTEND_ACTIVITY@),
                StreamPhase::Accepting => action == StreamAction::Accept,
                StreamPhase::Tuning => action == StreamAction::SetNodelay,
                StreamPhase::Starting => action == (StreamAction::StartCapture {
                    output_idx: self.output_idx,
                    framerate: self.framerate,
                }),
                StreamPhase::Pulling => action == StreamAction::NextPacket,
                StreamPhase::Greeting | StreamPhase::Heading | StreamPhase::Sending =>
                    action matches StreamAction::Send(bytes) && bytes@ == self.now@,
                StreamPhase::Stopping => action matches StreamAction::Adb(args) && text::texts(
                    args@,
                ) == adb::force_stop_args(self.serial@, EXTEND_PACKAGE@),
                StreamPhase::Uninstalling => action matches StreamAction::Adb(args) && text::texts(
                    args@,
                ) == adb::uninstall_args(self.serial@, EXTEND_PACKAGE@),
                StreamPhase::Closing => action matches StreamAction::Adb(args) && text::texts(args@)
                    == adb::remove_args(self.serial@, adb::host_spec(self.port)),
                StreamPhase::Finished => action == StreamAction::Finish,
            },
            action@ == self@.asks(),
    {
        let serial: &str = self.serial.as_str();
        match self.phase {
            StreamPhase::Checking => StreamAction::CheckApk,
            StreamPhase::Selecting => StreamAction::Adb(adb::list_devices(None).command()),
            StreamPhase::Binding => StreamAction::Bind(self.port),
            StreamPhase::Tunnelling => StreamAction::Adb(
                TunnelGuard::open_remote(
                    serial,
                    adb::tcp_spec(self.port).as_str(),
                    self.port,
                    None,
                ).command(),
            ),
            StreamPhase::Installing => StreamAction::Adb(
                adb::install_apk(serial, self.apk.as_str(), None).command(),
            ),
            StreamPhase::Launching => StreamAction::Adb(
                adb::start_activity(serial, EXTEND_PACKAGE, EXTEND_ACTIVITY, None).command(),
            ),
            StreamPhase::Accepting => StreamAction::Accept,
            StreamPhase::Tuning => StreamAction::SetNodelay,
            StreamPhase::Starting => StreamAction::StartCapture {
                output_idx: self.output_idx,
                framerate: self.framerate,
            },
            StreamPhase::Pulling => StreamAction::NextPacket,
            StreamPhase::Greeting | StreamPhase::Heading | StreamPhase::Sending =>
                StreamAction::Send(self.now.as_slice()),
            StreamPhase::Stopping => StreamAction::Adb(
                adb::force_stop(serial, EXTEND_PACKAGE, None).command(),
            ),
            StreamPhase::Uninstalling => StreamAction::Adb(
                adb::uninstall(serial, EXTEND_PACKAGE, None).command(),
            ),
            StreamPhase::Closing => StreamAction::Adb(self.tunnel().removal()),
            StreamPhase::Finished => StreamAction::Finish,
        }
    }

    /// Go on to the next phase.
    fn go_on(&mut self)
        ensures
            final(self)@ == old(self)@.on(),
    {
        self.phase = following(self.phase);
    }

    /// Set out on the way out.
    fn get_out(&mut self, cause: String)
        ensures
            final(self)@ == old(self)@.out(cause@),
    {
        let at: StreamPhase = self.phase;
        self.failure = Some(
            Failure { at, cause: context_text(at, self.port).concat(cause.as_str()) },
        );
        self.phase = match at {
            StreamPhase::Checking
            | StreamPhase::Selecting
            | StreamPhase::Binding
            | StreamPhase::Tunnelling => StreamPhase::Finished,
            StreamPhase::Installing => StreamPhase::Closing,
            _ => StreamPhase::Stopping,
        };
    }

    /// Go on after `adb` replied.
    fn take_reply(&mut self, reply: Reply) -> (logged: Option<AdbError>)
        requires
            old(self)@.wf(),
            old(self)@.accepts(StreamEvent::Replied(reply)),
        ensures
            final(self)@ == old(self)@.replied(reply),
            old(self)@.logs(reply, logged),
            adb::read_plainly(reply),
    {
        match self.phase {
            StreamPhase::Selecting => {
                let wanted: Option<&str> = match &self.wanted {
                    Some(s) => Some(s.as_str()),
                    None => None,
                };
                match adb::select_device(wanted, Some(reply)).result() {
                    Ok(dev) => {
                        self.serial = dev.serial;
                        self.go_on();
                    },
                    Err(e) => self.get_out(e.message()),
                }
            },
            StreamPhase::Stopping => {
                self.go_on();
                return adb::force_stop(
                    self.serial.as_str(),
                    EXTEND_PACKAGE,
                    Some(reply),
                ).result();
            },
            StreamPhase::Uninstalling => {
                self.go_on();
                return adb::uninstall(
                    self.serial.as_str(),
                    EXTEND_PACKAGE,
                    Some(reply),
                ).result();
            },
            StreamPhase::Closing => {
                self.go_on();
                return self.tunnel().removed(reply);
            },
            StreamPhase::Tunnelling => match TunnelGuard::open_remote(
                self.serial.as_str(),
                adb::tcp_spec(self.port).as_str(),
                self.port,
                Some(reply),
            ).result() {
                Ok(_) => self.go_on(),
                Err(e) => self.get_out(e.message()),
            },
            StreamPhase::Installing => match adb::install_apk(
                self.serial.as_str(),
                self.apk.as_str(),
                Some(reply),
            ).result() {
                Ok(_) => self.go_on(),
                Err(e) => self.get_out(e.message()),
            },
            StreamPhase::Launching => match adb::start_activity(
                self.serial.as_str(),
                EXTEND_PACKAGE,
                EXTEND_ACTIVITY,
                Some(reply),
            ).result() {
                Ok(_) => self.go_on(),
                Err(e) => self.get_out(e.message()),
            },
            _ => {},
        }
        None
    }

    /// Go on after an action that is not an `adb` command succeeded.
    fn take_success(&mut self)
        ensures
            final(self)@ == old(self)@.done(),
    {
        match self.phase {
            StreamPhase::Tuning => {
                let mut greeting: Vec<u8> = Vec::new();
                greeting.push(protocol::EXTEND_PROTOCOL_VERSION);
                assert(greeting@ == seq![protocol::EXTEND_PROTOCOL_VERSION]);
                self.now = greeting;
            },
            StreamPhase::Heading => {
                let mut payload: Vec<u8> = Vec::new();
                std::mem::swap(&mut payload, &mut self.next);
                self.now = payload;
                assert(self.next@ == Seq::<u8>::empty());
            },
            _ => {},
        }
        self.go_on();
    }

    /// Go on after the capture was asked for a packet.
    fn take_packet(&mut self, got: Result<Option<EncodedPacket>, String>)
        ensures
            final(self)@ == old(self)@.pulled(got),
    {
        match got {
            Err(why) => self.get_out(why),
            Ok(None) => {},
            Ok(Some(packet)) => match protocol::frame_header(packet.data.len()) {
                Ok(header) => {
                    self.now = header;
                    self.next = packet.data;
                    self.go_on();
                },
                Err(_) => self.get_out(
                    "packet too large to frame: out of range integral type conversion attempted".to_owned(),
                ),
            },
        }
    }

    /// Go on after `event`. What is handed back is a failure of the teardown, which
    /// is only to be logged.
    pub fn advance(&mut self, event: StreamEvent) -> (logged: Option<AdbError>)
        requires
            old(self)@.wf(),
            old(self)@.accepts(event),
        ensures
            final(self)@ == old(self)@.after(event),
            final(self)@.wf(),
            match event {
                StreamEvent::Replied(reply) => {
                    &&& old(self)@.logs(reply, logged)
                    &&& adb::read_plainly(reply)
                },
                _ => logged is None,
            },
    {
        match event {
            StreamEvent::Checked(there) => {
                if there {
                    self.go_on();
                } else {
                    let cause: String = "device-app APK not found at ".to_owned().concat(
                        self.apk.as_str(),
                    ).concat(" -- run `cd device-app && ./gradlew assembleDebug` first");
                    self.get_out(cause);
                }
            },
            StreamEvent::Replied(reply) => return self.take_reply(reply),
            StreamEvent::Done(Ok(_)) => self.take_success(),
            StreamEvent::Done(Err(why)) => self.get_out(why),
            StreamEvent::Pulled(got) => self.take_packet(got),
        }
        None
    }
}

/// How many of `events` found the session in a state where `p` holds and left it
/// in one where `q` holds.
pub open spec fn passages(
    session: StreamView,
    events: Seq<StreamEvent>,
    p: spec_fn(StreamView) -> bool,
    q: spec_fn(StreamView) -> bool,
) -> nat
    decreases events.len(),
{
    if events.len() == 0 {
        0
    } else {
        let before = session.after_all(events.drop_last());
        passages(session, events.drop_last(), p, q) + if p(before) && q(
            before.after(events.last()),
        ) {
            1nat
        } else {
            0nat
        }
    }
}

/// How often a tunnel was opened.
pub open spec fn tunnels_opened(session: StreamView, events: Seq<StreamEvent>) -> nat {
    passages(session, events, |s: StreamView| !s.tunnel_open(), |s: StreamView| s.tunnel_open())
}

/// How often the command that removes the tunnel was run.
pub open spec fn tunnels_removed(session: StreamView, events: Seq<StreamEvent>) -> nat {
    passages(session, events, |s: StreamView| s.phase is Closing, |s: StreamView| true)
}

/// How often the app was installed.
pub open spec fn installs(session: StreamView, events: Seq<StreamEvent>) -> nat {
    passages(session, events, |s: StreamView| !s.app_installed(), |s: StreamView| s.app_installed())
}

/// How often the command that stops the app was run.
pub open spec fn stops(session: StreamView, events: Seq<StreamEvent>) -> nat {
    passages(session, events, |s: StreamView| s.phase is Stopping, |s: StreamView| true)
}

/// How often the command that uninstalls the app was run.
pub open spec fn uninstalls(session: StreamView, events: Seq<StreamEvent>) -> nat {
    passages(session, events, |s: StreamView| s.phase is Uninstalling, |s: StreamView| true)
}

/// One for yes, none for no.
pub open spec fn one_if(yes: bool) -> nat {
    if yes {
        1
    } else {
        0
    }
}

/// However a session goes, nothing of it stays on the device: an app that was
/// installed is stopped and uninstalled, and a tunnel that was opened is removed,
/// each once, before the session is over.
pub proof fn law_nothing_stays_behind(
    apk: Seq<char>,
    wanted: Option<Seq<char>>,
    port: u16,
    output_idx: u32,
    framerate: u32,
    events: Seq<StreamEvent>,
)
    requires
        started(apk, wanted, port, output_idx, framerate).accepts_all(events),
    ensures
        ({
            let session = started(apk, wanted, port, output_idx, framerate);
            let end = session.after_all(events);
            &&& end.wf()
            &&& tunnels_opened(session, events) == tunnels_removed(session, events) + one_if(
                end.tunnel_open(),
            )
            &&& installs(session, events) == uninstalls(session, events) + one_if(
                end.app_installed(),
            )
            &&& stops(session, events) == uninstalls(session, events) + one_if(
                end.phase is Uninstalling,
            )
        }),
    decreases events.len(),
{
    if events.len() > 0 {
        law_nothing_stays_behind(apk, wanted, port, output_idx, framerate, events.drop_last());
    }
}

/// The app is taken down before the tunnel: the tunnel is removed while the app
/// is not installed, and the app is uninstalled after it was stopped.
pub proof fn law_app_goes_before_tunnel(session: StreamView, event: StreamEvent)
    requires
        session.wf(),
        session.accepts(event),
    ensures
        session.tunnel_open() && !session.after(event).tunnel_open() ==> session.phase is Closing
            && !session.app_installed(),
        session.app_installed() && !session.after(event).app_installed() ==> session.phase
            is Uninstalling,
        session.after(event).phase is Uninstalling ==> session.phase is Stopping,
{
}

/// What ends a session is what is reported: nothing that happens in the teardown
/// takes its place. A session that is over always has such a cause, since it
/// streams until something fails.
pub proof fn law_first_failure_is_reported(session: StreamView, event: StreamEvent)
    requires
        session.wf(),
        session.accepts(event),
    ensures
        session.failure is Some ==> session.after(event).failure == session.failure,
        session.after(event).phase is Finished ==> session.after(event).failure is Some,
{
}

/// The bytes that were written in an event.
pub open spec fn written(session: StreamView, event: StreamEvent) -> Seq<u8> {
    match event {
        StreamEvent::Done(Ok(_)) => match session.asks() {
            StreamAsk::Send(bytes) => bytes,
            _ => seq![],
        },
        _ => seq![],
    }
}

/// The bytes that were written in the course of `events`.
pub open spec fn all_written(session: StreamView, events: Seq<StreamEvent>) -> Seq<u8>
    decreases events.len(),
{
    if events.len() == 0 {
        seq![]
    } else {
        all_written(session, events.drop_last()) + written(
            session.after_all(events.drop_last()),
            events.last(),
        )
    }
}

/// The packet that an event brings, if it can be framed.
pub open spec fn brought(event: StreamEvent) -> Seq<Seq<u8>> {
    match event {
        StreamEvent::Pulled(Ok(Some(packet))) => if packet.data@.len() <= 0xffff_ffff {
            seq![packet.data@]
        } else {
            seq![]
        },
        _ => seq![],
    }
}

/// The packets that `events` bring.
pub open spec fn all_brought(events: Seq<StreamEvent>) -> Seq<Seq<u8>>
    decreases events.len(),
{
    if events.len() == 0 {
        seq![]
    } else {
        all_brought(events.drop_last()) + brought(events.last())
    }
}

/// How what was written relates to the packets that the capture produced.
pub open spec fn in_step(s: StreamView, sent: Seq<u8>, packets: Seq<Seq<u8>>) -> bool {
    match s.phase {
        StreamPhase::Checking
        | StreamPhase::Selecting
        | StreamPhase::Binding
        | StreamPhase::Tunnelling
        | StreamPhase::Installing
        | StreamPhase::Launching
        | StreamPhase::Accepting
        | StreamPhase::Tuning => sent.len() == 0 && packets.len() == 0,
        StreamPhase::Greeting => {
            &&& sent.len() == 0
            &&& packets.len() == 0
            &&& s.now == seq![protocol::EXTEND_PROTOCOL_VERSION]
        },
        StreamPhase::Starting | StreamPhase::Pulling => sent == protocol::stream_of(packets),
        StreamPhase::Heading => {
            &&& packets.len() > 0
            &&& sent == protocol::stream_of(packets.drop_last())
            &&& s.now == protocol::to_be(packets.last().len())
            &&& s.next == packets.last()
        },
        StreamPhase::Sending => {
            &&& packets.len() > 0
            &&& sent == protocol::stream_of(packets.drop_last()) + protocol::to_be(
                packets.last().len(),
            )
            &&& s.now == packets.last()
        },
        _ => sent.is_prefix_of(protocol::stream_of(packets)),
    }
}

/// One event keeps what is written in step with the packets.
#[verifier::spinoff_prover]
proof fn lemma_in_step(s: StreamView, event: StreamEvent, sent: Seq<u8>, packets: Seq<Seq<u8>>)
    requires
        s.accepts(event),
        in_step(s, sent, packets),
    ensures
        in_step(s.after(event), sent + written(s, event), packets + brought(event)),
{
    let none: Seq<Seq<u8>> = seq![];
    let sent2 = sent + written(s, event);
    let packets2 = packets + brought(event);
    if brought(event).len() == 0 {
        assert(packets2 == packets);
    } else {
        assert(packets2.drop_last() == packets);
        assert(packets2.last() == brought(event)[0]);
    }
    if written(s, event).len() == 0 {
        assert(sent2 == sent);
    }
    if packets.len() > 0 {
        let front = packets.drop_last();
        let head = protocol::to_be(packets.last().len());
        assert(protocol::stream_of(packets) == protocol::stream_of(front) + head
            + packets.last());
    }
    if packets.len() == 0 {
        assert(packets == none);
        assert(protocol::messages_of(packets) == Seq::<u8>::empty());
        assert(protocol::stream_of(packets) == seq![protocol::EXTEND_PROTOCOL_VERSION]);
    }
}

/// What the device gets: the version byte, and then every packet that the
/// capture produced, whole and in order, each in a message of its own. Between
/// two packets just that was written; a session that is broken off has written a
/// part of it, from its start.
pub proof fn law_packets_are_streamed(
    apk: Seq<char>,
    wanted: Option<Seq<char>>,
    port: u16,
    output_idx: u32,
    framerate: u32,
    events: Seq<StreamEvent>,
)
    requires
        started(apk, wanted, port, output_idx, framerate).accepts_all(events),
    ensures
        ({
            let session = started(apk, wanted, port, output_idx, framerate);
            let end = session.after_all(events);
            let sent = all_written(session, events);
            &&& in_step(end, sent, all_brought(events))
            &&& sent.is_prefix_of(protocol::stream_of(all_brought(events)))
            &&& end.asks() is NextPacket ==> sent == protocol::stream_of(all_brought(events))
        }),
    decreases events.len(),
{
    let session = started(apk, wanted, port, output_idx, framerate);
    let end = session.after_all(events);
    let sent = all_written(session, events);
    let packets = all_brought(events);
    if events.len() > 0 {
        law_packets_are_streamed(apk, wanted, port, output_idx, framerate, events.drop_last());
        lemma_in_step(
            session.after_all(events.drop_last()),
            events.last(),
            all_written(session, events.drop_last()),
            all_brought(events.drop_last()),
        );
    }
    if packets.len() > 0 {
        let head = protocol::to_be(packets.last().len());
        assert(protocol::stream_of(packets) == protocol::stream_of(packets.drop_last()) + head
            + packets.last());
    }
}

/// A device that reads the stream gets back the packets that the capture
/// produced.
pub proof fn law_packets_arrive(
    apk: Seq<char>,
    wanted: Option<Seq<char>>,
    port: u16,
    output_idx: u32,
    framerate: u32,
    events: Seq<StreamEvent>,
)
    requires
        started(apk, wanted, port, output_idx, framerate).accepts_all(events),
        started(apk, wanted, port, output_idx, framerate).after_all(events).asks() is NextPacket,
    ensures
        protocol::received(all_written(started(apk, wanted, port, output_idx, framerate), events)) == all_brought(events),
{
    law_packets_are_streamed(apk, wanted, port, output_idx, framerate, events);
    lemma_brought_fit(events);
    let none: Seq<u8> = seq![];
    protocol::law_stream_is_read_back(all_brought(events), none, 0);
}

/// Only packets that can be framed are brought.
proof fn lemma_brought_fit(events: Seq<StreamEvent>)
    ensures
        forall|i: int|
            0 <= i < all_brought(events).len() ==> protocol::fits(#[trigger] all_brought(events)[i]),
    decreases events.len(),
{
    if events.len() > 0 {
        lemma_brought_fit(events.drop_last());
        let front = all_brought(events.drop_last());
        assert forall|i: int| 0 <= i < all_brought(events).len() implies protocol::fits(
            #[trigger] all_brought(events)[i],
        ) by {
            if i < front.len() {
                assert(all_brought(events)[i] == front[i]);
            } else {
                assert(all_brought(events)[i] == brought(events.last())[i - front.len()]);
            }
        }
    }
}

/// A session that has taken up with a device stays with it.
proof fn lemma_serial_stays(session: StreamView, event: StreamEvent)
    requires
        session.accepts(event),
        !(session.phase is Checking || session.phase is Selecting),
    ensures
        session.after(event).serial == session.serial,
        !(session.after(event).phase is Checking || session.after(event).phase is Selecting),
{
}

/// Whatever happens after a device was selected, each command is for that device.
proof fn lemma_later_commands(session: StreamView, events: Seq<StreamEvent>, n: int)
    requires
        0 <= n <= events.len(),
        session.accepts_all(events),
        ({
            let then = session.after_all(events.take(n));
            !(then.phase is Checking || then.phase is Selecting)
        }),
    ensures
        ({
            let then = session.after_all(events.take(n));
            let end = session.after_all(events);
            &&& end.serial == then.serial
            &&& !(end.phase is Checking || end.phase is Selecting)
            &&& end.asks() matches StreamAsk::Adb(args) ==> adb::addressed(args, then.serial)
        }),
    decreases events.len(),
{
    if n == events.len() {
        assert(events.take(n) == events);
    } else {
        let front = events.drop_last();
        assert(front.take(n) == events.take(n));
        lemma_later_commands(session, front, n);
        lemma_serial_stays(session.after_all(front), events.last());
    }
}

/// The serial that a session was asked for decides among several devices: if one of
/// those that the listing shows as ready has it, the session goes on with that one,
/// and every later command is for it. If none has it, the session is over and says
/// so.
#[verifier::spinoff_prover]
pub proof fn law_asked_serial_is_used(
    apk: Seq<char>,
    serial: Seq<char>,
    port: u16,
    output_idx: u32,
    framerate: u32,
    out: Output,
    events: Seq<StreamEvent>,
    i: int,
)
    requires
        started(apk, Some(serial), port, output_idx, framerate).accepts_all(events),
        events.len() >= 2,
        events[0] == StreamEvent::Checked(true),
        events[1] == StreamEvent::Replied(Reply::Finished(out)),
        out.success,
        adb::devices_in(adb::utf8_lossy(out.stdout@)).len() > 1,
    ensures
        ({
            let devs = adb::devices_in(adb::utf8_lossy(out.stdout@));
            let session = started(apk, Some(serial), port, output_idx, framerate);
            let then = session.after_all(events.take(2));
            let end = session.after_all(events);
            &&& 0 <= i < devs.len() && devs[i].serial == serial ==> {
                &&& then.failure is None
                &&& then.asks() == StreamAsk::Bind(port)
                &&& end.serial == serial
                &&& end.asks() matches StreamAsk::Adb(args) ==> adb::addressed(args, serial)
            }
            &&& (forall|k: int| 0 <= k < devs.len() ==> devs[k].serial != serial) ==> {
                &&& then.asks() is Finish
                &&& then.failure is Some
                &&& then.failure->Some_0.cause == "--serial "@ + serial
                    + " not found among connected devices"@
            }
        }),
{
    let devs = adb::devices_in(adb::utf8_lossy(out.stdout@));
    let session = started(apk, Some(serial), port, output_idx, framerate);
    let two = events.take(2);
    let then = session.after_all(two);
    assert(two.drop_last().drop_last() == Seq::<StreamEvent>::empty());
    assert(two.drop_last().last() == events[0]);
    assert(two.last() == events[1]);
    reveal_with_fuel(StreamView::after_all, 3);
    adb::law_listing_decides(Some(serial), Reply::Finished(out));
    adb::law_selected_device_is_listed(devs, Some(serial));
    adb::lemma_first_with(devs, serial);
    reveal_strlit("");
    assert(""@ + adb::Refusal::NotFound(serial).words() =~= adb::Refusal::NotFound(
        serial,
    ).words());
    if 0 <= i < devs.len() && devs[i].serial == serial {
        lemma_later_commands(session, events, 2);
    }
}

/// Without several devices, or without a serial, the listing decides alone: the only
/// device is taken, and else the session is over and says why.
pub proof fn law_listing_decides_alone(
    apk: Seq<char>,
    wanted: Option<Seq<char>>,
    port: u16,
    output_idx: u32,
    framerate: u32,
    reply: Reply,
)
    ensures
        ({
            let session = started(apk, wanted, port, output_idx, framerate).after(
                StreamEvent::Checked(true),
            );
            let then = session.after(StreamEvent::Replied(reply));
            &&& session.asks() == StreamAsk::Adb(adb::devices_args())
            &&& adb::outcome(reply) matches Err(e) ==> {
                &&& then.asks() is Finish
                &&& then.failure is Some
                &&& then.failure->Some_0.cause == e.words()
            }
            &&& adb::outcome(reply) matches Ok(raw) ==> {
                let devs = adb::devices_in(raw);
                &&& devs.len() == 0 ==> {
                    &&& then.asks() is Finish
                    &&& then.failure is Some
                    &&& then.failure->Some_0.cause
                        == "no connected devices. Plug in a phone and enable USB debugging."@
                }
                &&& devs.len() == 1 ==> {
                    &&& then.asks() == StreamAsk::Bind(port)
                    &&& then.failure is None
                    &&& then.serial == devs[0].serial
                }
                &&& devs.len() > 1 && wanted is None ==> {
                    &&& then.asks() is Finish
                    &&& then.failure is Some
                    &&& then.failure->Some_0.cause == adb::Refusal::Ambiguous(devs.len()).words()
                }
            }
        }),
{
    adb::law_listing_decides(wanted, reply);
    reveal_strlit("");
    let session = started(apk, wanted, port, output_idx, framerate).after(
        StreamEvent::Checked(true),
    );
    let then = session.after(StreamEvent::Replied(reply));
    if then.failure is Some {
        let e = adb::selected_from(wanted, reply)->Err_0;
        assert(then.failure->Some_0.cause =~= e.words());
    }
}

/// However its commands are answered, a session that is on its way out with the app
/// installed stops it, uninstalls it, removes the tunnel and is over, and keeps
/// saying what ended it.
pub open spec fn is_taken_down(session: StreamView, serial: Seq<char>, port: u16) -> bool {
    &&& session.failure is Some
    &&& session.asks() == StreamAsk::Adb(
        seq!["-s"@, serial, "shell"@, "am"@, "force-stop"@, "dev.usbdisplaybridge.extend"@],
    )
    &&& forall|a: Reply|
        {
            let next = #[trigger] session.after(StreamEvent::Replied(a));
            &&& next.failure == session.failure
            &&& next.asks() == StreamAsk::Adb(
                seq!["-s"@, serial, "uninstall"@, "dev.usbdisplaybridge.extend"@],
            )
            &&& forall|b: Reply|
                loses_its_tunnel(
                    #[trigger] next.after(StreamEvent::Replied(b)),
                    serial,
                    port,
                    session.failure,
                )
        }
}

/// However its command is answered, a session that is on its way out removes the
/// tunnel and is over, and keeps saying what ended it.
pub open spec fn loses_its_tunnel(
    session: StreamView,
    serial: Seq<char>,
    port: u16,
    failure: Option<FailureView<StreamPhase>>,
) -> bool {
    &&& session.failure == failure
    &&& exists|end: Seq<char>|
        adb::names_port(end, port) && session.asks() == StreamAsk::Adb(
            #[trigger] seq!["-s"@, serial, "reverse"@, "--remove"@, end],
        )
    &&& forall|c: Reply|
        {
            let over = #[trigger] session.after(StreamEvent::Replied(c));
            over.asks() is Finish && over.failure == failure
        }
}

/// A session whose tunnel is to be removed loses it.
proof fn lemma_loses_its_tunnel(session: StreamView)
    requires
        session.phase is Closing,
    ensures
        loses_its_tunnel(session, session.serial, session.port, session.failure),
{
    adb::law_tunnel_ends_are_named(session.port, seq![]);
    let end = adb::host_spec(session.port);
    assert(adb::names_port(end, session.port) && session.asks() == StreamAsk::Adb(
        seq!["-s"@, session.serial, "reverse"@, "--remove"@, end],
    ));
}

/// A session whose app is to be stopped is taken down.
#[verifier::spinoff_prover]
proof fn lemma_is_taken_down(session: StreamView)
    requires
        session.phase is Stopping,
        session.failure is Some,
    ensures
        is_taken_down(session, session.serial, session.port),
{
    assert forall|a: Reply|
        {
            let next = #[trigger] session.after(StreamEvent::Replied(a));
            &&& next.failure == session.failure
            &&& next.asks() == StreamAsk::Adb(
                seq!["-s"@, session.serial, "uninstall"@, "dev.usbdisplaybridge.extend"@],
            )
            &&& forall|b: Reply|
                loses_its_tunnel(
                    #[trigger] next.after(StreamEvent::Replied(b)),
                    session.serial,
                    session.port,
                    session.failure,
                )
        } by {
        let next = session.after(StreamEvent::Replied(a));
        assert forall|b: Reply|
            loses_its_tunnel(
                #[trigger] next.after(StreamEvent::Replied(b)),
                session.serial,
                session.port,
                session.failure,
            ) by {
            lemma_loses_its_tunnel(next.after(StreamEvent::Replied(b)));
        }
    }
}

/// A session sets out as it should: it looks for the app, selects the device, binds
/// the port, opens a tunnel from the same port of the device, installs the app and
/// starts it, accepts its connection, has it send at once, sends the byte one,
/// starts the capture that was asked for, and asks it for packets. Where a step
/// fails, the session says which and why, and takes down what was set up by then.
#[verifier::rlimit(40)]
#[verifier::spinoff_prover]
pub proof fn law_session_sets_out(
    apk: Seq<char>,
    wanted: Option<Seq<char>>,
    port: u16,
    output_idx: u32,
    framerate: u32,
    dev: adb::DeviceView,
    listed: Reply,
    good: Reply,
    bad: Reply,
    why: String,
)
    requires
        adb::selected_from(wanted, listed) == Ok::<_, adb::Refusal>(dev),
        adb::outcome(good) is Ok,
        adb::outcome(bad) is Err,
    ensures
        ({
            let serial = dev.serial;
            let said = adb::outcome(bad)->Err_0.words();
            let done = StreamEvent::Done(Ok(()));
            let failed = StreamEvent::Done(Err(why));
            let s0 = started(apk, wanted, port, output_idx, framerate);
            let s1 = s0.after(StreamEvent::Checked(true));
            let s2 = s1.after(StreamEvent::Replied(listed));
            let s3 = s2.after(done);
            let s4 = s3.after(StreamEvent::Replied(good));
            let s5 = s4.after(StreamEvent::Replied(good));
            let s6 = s5.after(StreamEvent::Replied(good));
            let s7 = s6.after(done);
            let s8 = s7.after(done);
            let s9 = s8.after(done);
            let s10 = s9.after(done);
            let f0 = s0.after(StreamEvent::Checked(false));
            let f2 = s2.after(failed);
            let f3 = s3.after(StreamEvent::Replied(bad));
            let f4 = s4.after(StreamEvent::Replied(bad));
            let f5 = s5.after(StreamEvent::Replied(bad));
            let f6 = s6.after(failed);
            let f7 = s7.after(failed);
            let f8 = s8.after(failed);
            let f9 = s9.after(failed);
            &&& s0.asks() is CheckApk
            &&& s1.asks() == StreamAsk::Adb(seq!["devices"@, "-l"@])
            &&& s2.asks() == StreamAsk::Bind(port)
            &&& s3.asks() matches StreamAsk::Adb(args)
            &&& args.len() == 5 && args.take(3) == seq!["-s"@, serial, "reverse"@]
            &&& adb::names_port(args[3], port) && adb::names_port(args[4], port)
            &&& s4.asks() == StreamAsk::Adb(seq!["-s"@, serial, "install"@, "-r"@, apk])
            &&& s5.asks() matches StreamAsk::Adb(launch)
            &&& launch.len() == 7
            &&& launch.take(6) == seq!["-s"@, serial, "shell"@, "am"@, "start"@, "-n"@]
            &&& launch[6] == "dev.usbdisplaybridge.extend"@ + seq!['/'] + ".MainActivity"@
            &&& s6.asks() is Accept
            &&& s7.asks() is SetNodelay
            &&& s8.asks() == StreamAsk::Send(seq![1u8])
            &&& s9.asks() == (StreamAsk::StartCapture { output_idx, framerate })
            &&& s10.asks() is NextPacket
            &&& s10.failure is None && s10.serial == serial && s10.port == port
            &&& f0.asks() is Finish && f0.failure->Some_0.cause == "device-app APK not found at "@
                + apk + " -- run `cd device-app && ./gradlew assembleDebug` first"@
            &&& f2.asks() is Finish
            &&& exists|n: Seq<char>|
                text::writes(n, port as nat) && f2.failure->Some_0.cause
                    == #[trigger] ("binding 127.0.0.1:"@ + n + ": "@ + why@)
            &&& f3.asks() is Finish && f3.failure->Some_0.cause == "adb reverse failed: "@ + said
            &&& loses_its_tunnel(f4, serial, port, f4.failure)
            &&& f4.failure->Some_0.cause == "installing device-app: "@ + "adb install failed: "@
                + said
            &&& is_taken_down(f5, serial, port)
            &&& f5.failure->Some_0.cause == "launching device-app: "@
                + "adb shell am start failed: "@ + said
            &&& is_taken_down(f6, serial, port)
            &&& f6.failure->Some_0.cause == "accepting device-app connection: "@ + why@
            &&& is_taken_down(f7, serial, port)
            &&& f7.failure->Some_0.cause == "setting TCP_NODELAY: "@ + why@
            &&& is_taken_down(f8, serial, port)
            &&& f8.failure->Some_0.cause == "sending version byte: "@ + why@
            &&& is_taken_down(f9, serial, port)
            &&& f9.failure->Some_0.cause == "starting display capture: "@ + why@
        }),
{
    let serial = dev.serial;
    let said = adb::outcome(bad)->Err_0.words();
    let done = StreamEvent::Done(Ok(()));
    let failed = StreamEvent::Done(Err(why));
    let s0 = started(apk, wanted, port, output_idx, framerate);
    let s1 = s0.after(StreamEvent::Checked(true));
    let s2 = s1.after(StreamEvent::Replied(listed));
    let s3 = s2.after(done);
    let s4 = s3.after(StreamEvent::Replied(good));
    let s5 = s4.after(StreamEvent::Replied(good));
    let s6 = s5.after(StreamEvent::Replied(good));
    let s7 = s6.after(done);
    let s8 = s7.after(done);
    let s9 = s8.after(done);
    let s10 = s9.after(done);
    assert(s2.phase is Binding && s3.phase is Tunnelling && s4.phase is Installing);
    assert(s5.phase is Launching && s6.phase is Accepting && s7.phase is Tuning);
    assert(s8.phase is Greeting && s9.phase is Starting && s10.phase is Pulling);
    adb::law_tunnel_ends_are_named(port, seq![]);
    adb::law_commands_say_what_is_asked(
        serial,
        EXTEND_PACKAGE@,
        EXTEND_ACTIVITY@,
        port,
    );
    adb::law_commands_say_what_is_asked(serial, adb::host_spec(port), EXTEND_ACTIVITY@, port);
    let args = adb::reverse_args(serial, adb::host_spec(port), port);
    assert(args.take(3) == seq!["-s"@, serial, "reverse"@]);
    reveal_strlit("");
    let f0 = s0.after(StreamEvent::Checked(false));
    assert(f0.failure->Some_0.cause =~= "device-app APK not found at "@ + apk
        + " -- run `cd device-app && ./gradlew assembleDebug` first"@);
    let f2 = s2.after(failed);
    let n = text::decimal(port as nat);
    text::law_decimal_reads_back(port as nat);
    assert(text::writes(n, port as nat) && f2.failure->Some_0.cause == "binding 127.0.0.1:"@ + n
        + ": "@ + why@);
    let f3 = s3.after(StreamEvent::Replied(bad));
    assert(f3.failure->Some_0.cause =~= "adb reverse failed: "@ + said);
    let f4 = s4.after(StreamEvent::Replied(bad));
    lemma_loses_its_tunnel(f4);
    assert(f4.failure->Some_0.cause =~= "installing device-app: "@ + "adb install failed: "@
        + said);
    let f5 = s5.after(StreamEvent::Replied(bad));
    lemma_is_taken_down(f5);
    assert(f5.failure->Some_0.cause =~= "launching device-app: "@ + "adb shell am start failed: "@
        + said);
    lemma_is_taken_down(s6.after(failed));
    lemma_is_taken_down(s7.after(failed));
    lemma_is_taken_down(s8.after(failed));
    lemma_is_taken_down(s9.after(failed));
}

/// Every packet that the capture produces is sent: first the four bytes of its
/// length, most significant first, then the packet as it is; then the next is asked
/// for. Where none was produced, it is asked for again. Only a packet whose length
/// four bytes cannot hold ends the session, as does anything that fails, and the
/// cause is told.
#[verifier::rlimit(40)]
#[verifier::spinoff_prover]
pub proof fn law_packet_is_sent(session: StreamView, packet: EncodedPacket, why: String)
    requires
        session.wf(),
        session.asks() is NextPacket,
    ensures
        ({
            let none = session.after(StreamEvent::Pulled(Ok(None)));
            let lost = session.after(StreamEvent::Pulled(Err(why)));
            let s1 = session.after(StreamEvent::Pulled(Ok(Some(packet))));
            let s2 = s1.after(StreamEvent::Done(Ok(())));
            let s3 = s2.after(StreamEvent::Done(Ok(())));
            let f1 = s1.after(StreamEvent::Done(Err(why)));
            let f2 = s2.after(StreamEvent::Done(Err(why)));
            &&& none == session
            &&& is_taken_down(lost, session.serial, session.port)
            &&& lost.failure->Some_0.cause == why@
            &&& packet.data@.len() <= 0xffff_ffff ==> {
                &&& s1.asks() matches StreamAsk::Send(head)
                &&& head.len() == 4
                &&& head[0] * 0x100_0000 + head[1] * 0x1_0000 + head[2] * 0x100 + head[3]
                    == packet.data@.len()
                &&& s2.asks() == StreamAsk::Send(packet.data@)
                &&& s3.asks() is NextPacket
                &&& s3.failure is None
                &&& s3.serial == session.serial
                &&& s3.port == session.port
                &&& is_taken_down(f1, session.serial, session.port)
                &&& f1.failure->Some_0.cause == "writing frame length: "@ + why@
                &&& is_taken_down(f2, session.serial, session.port)
                &&& f2.failure->Some_0.cause == "writing frame payload: "@ + why@
            }
            &&& packet.data@.len() > 0xffff_ffff ==> {
                &&& is_taken_down(s1, session.serial, session.port)
                &&& s1.failure->Some_0.cause
                    == "packet too large to frame: out of range integral type conversion attempted"@
            }
        }),
{
    let lost = session.after(StreamEvent::Pulled(Err(why)));
    let s1 = session.after(StreamEvent::Pulled(Ok(Some(packet))));
    let s2 = s1.after(StreamEvent::Done(Ok(())));
    reveal_strlit("");
    lemma_is_taken_down(lost);
    assert(lost.failure->Some_0.cause =~= why@);
    if packet.data@.len() <= 0xffff_ffff {
        protocol::law_header_bytes_are_weighed(packet.data@.len());
        lemma_is_taken_down(s1.after(StreamEvent::Done(Err(why))));
        lemma_is_taken_down(s2.after(StreamEvent::Done(Err(why))));
    } else {
        lemma_is_taken_down(s1);
        assert(s1.failure->Some_0.cause =~= too_large_words());
    }
}

/// What a session was given and what it did is seen whole.
pub proof fn law_session_is_seen_whole(session: ExtendStream)
    ensures
        session@.apk == session.apk@,
        session@.wanted == match session.wanted {
            Some(serial) => Some(serial@),
            None => None,
        },
        session@.port == session.port,
        session@.output_idx == session.output_idx,
        session@.framerate == session.framerate,
        session@.phase == session.phase,
        session@.serial == session.serial@,
        session@.now == session.now@,
        session@.next == session.next@,
        session@.failure == match session.failure {
            Some(f) => Some(FailureView { at: f.at, cause: f.cause@ }),
            None => None,
        },
{
}

/// A command was run, and with success if that is asked for.
pub open spec fn ran(
    session: StreamView,
    event: StreamEvent,
    args: Seq<Seq<char>>,
    succeeded: bool,
) -> bool {
    &&& session.asks() == StreamAsk::Adb(args)
    &&& event matches StreamEvent::Replied(reply)
    &&& succeeded ==> adb::outcome(reply) is Ok
}

/// The commands that leave something on the device, and those that take it away.
pub enum Trace {
    Opened,
    Removed,
    Installed,
    Stopped,
    Uninstalled,
}

/// `event` is such a command, run on the session's device.
pub open spec fn leaves(session: StreamView, event: StreamEvent, trace: Trace) -> bool {
    let serial = session.serial;
    let end = adb::host_spec(session.port);
    let package = "dev.usbdisplaybridge.extend"@;
    match trace {
        Trace::Opened => ran(
            session,
            event,
            seq!["-s"@, serial, "reverse"@, end, end],
            true,
        ),
        Trace::Removed => ran(
            session,
            event,
            seq!["-s"@, serial, "reverse"@, "--remove"@, end],
            false,
        ),
        Trace::Installed => ran(
            session,
            event,
            seq!["-s"@, serial, "install"@, "-r"@, session.apk],
            true,
        ),
        Trace::Stopped => ran(
            session,
            event,
            seq!["-s"@, serial, "shell"@, "am"@, "force-stop"@, package],
            false,
        ),
        Trace::Uninstalled => ran(
            session,
            event,
            seq!["-s"@, serial, "uninstall"@, package],
            false,
        ),
    }
}

/// How many of `events` are such commands.
pub open spec fn traces(session: StreamView, events: Seq<StreamEvent>, trace: Trace) -> nat
    decreases events.len(),
{
    if events.len() == 0 {
        0
    } else {
        let front = events.drop_last();
        traces(session, front, trace) + one_if(
            leaves(session.after_all(front), events.last(), trace),
        )
    }
}

/// The commands are told apart by their words.
proof fn lemma_commands_differ(session: StreamView, event: StreamEvent)
    requires
        session.accepts(event),
    ensures
        leaves(session, event, Trace::Opened) <==> session.phase is Tunnelling && (
        event matches StreamEvent::Replied(r) && adb::outcome(r) is Ok),
        leaves(session, event, Trace::Removed) <==> session.phase is Closing,
        leaves(session, event, Trace::Installed) <==> session.phase is Installing && (
        event matches StreamEvent::Replied(r) && adb::outcome(r) is Ok),
        leaves(session, event, Trace::Stopped) <==> session.phase is Stopping,
        leaves(session, event, Trace::Uninstalled) <==> session.phase is Uninstalling,
{
    reveal_strlit("reverse");
    reveal_strlit("install");
    reveal_strlit("--remove");
    reveal_strlit("tcp:");
    let end = adb::host_spec(session.port);
    assert(end[0] == 't');
    assert("--remove"@[0] == '-');
    assert("reverse"@[0] == 'r');
    assert("install"@[0] == 'i');
    let serial = session.serial;
    let reverse = adb::reverse_args(serial, end, session.port);
    let remove = adb::remove_args(serial, end);
    let install = adb::install_args(serial, session.apk);
    assert(reverse[2] != install[2]);
    assert(remove[2] != install[2]);
    assert(reverse[3] != remove[3]);
    assert(reverse == seq!["-s"@, serial, "reverse"@, end, end]);
    assert(adb::start_args(serial, EXTEND_PACKAGE@, EXTEND_ACTIVITY@).len() == 7);
    assert(adb::force_stop_args(serial, EXTEND_PACKAGE@).len() == 6);
    assert(adb::uninstall_args(serial, EXTEND_PACKAGE@).len() == 4);
    assert(adb::devices_args().len() == 2);
}

/// Whatever is answered, a session that is over has left nothing on the device: it
/// has run the command that removes the tunnel as often as one was opened, and the
/// commands that stop and uninstall the app as often as it was installed.
#[verifier::spinoff_prover]
pub proof fn law_device_is_left_clean(
    apk: Seq<char>,
    wanted: Option<Seq<char>>,
    port: u16,
    output_idx: u32,
    framerate: u32,
    events: Seq<StreamEvent>,
)
    requires
        started(apk, wanted, port, output_idx, framerate).accepts_all(events),
    ensures
        ({
            let session = started(apk, wanted, port, output_idx, framerate);
            let end = session.after_all(events);
            &&& traces(session, events, Trace::Opened) == traces(session, events, Trace::Removed)
                + one_if(end.tunnel_open())
            &&& traces(session, events, Trace::Installed) == traces(
                session,
                events,
                Trace::Uninstalled,
            ) + one_if(end.app_installed())
            &&& traces(session, events, Trace::Stopped) == traces(
                session,
                events,
                Trace::Uninstalled,
            ) + one_if(end.phase is Uninstalling)
            &&& end.asks() is Finish ==> {
                &&& traces(session, events, Trace::Opened) == traces(
                    session,
                    events,
                    Trace::Removed,
                )
                &&& traces(session, events, Trace::Installed) == traces(
                    session,
                    events,
                    Trace::Uninstalled,
                )
                &&& traces(session, events, Trace::Stopped) == traces(
                    session,
                    events,
                    Trace::Uninstalled,
                )
                &&& end.failure is Some
            }
        }),
    decreases events.len(),
{
    law_nothing_stays_behind(apk, wanted, port, output_idx, framerate, events);
    if events.len() > 0 {
        let front = events.drop_last();
        law_device_is_left_clean(apk, wanted, port, output_idx, framerate, front);
        lemma_commands_differ(
            started(apk, wanted, port, output_idx, framerate).after_all(front),
            events.last(),
        );
    }
}

/// A session takes every answer to what it asks for, and no other: whether the file
/// is there, a reply to a command, a success or a failure, and what the capture
/// produced.
pub proof fn law_every_answer_is_taken(session: StreamView, event: StreamEvent)
    ensures
        session.accepts(event) <==> match event {
            StreamEvent::Checked(_) => session.asks() is CheckApk,
            StreamEvent::Replied(_) => session.asks() is Adb,
            StreamEvent::Pulled(_) => session.asks() is NextPacket,
            StreamEvent::Done(_) => {
                ||| session.asks() is Bind
                ||| session.asks() is Accept
                ||| session.asks() is SetNodelay
                ||| session.asks() is StartCapture
                ||| session.asks() is Send
            },
        },
{
}

/// What fails while a session is taken down is handed back to be logged, and nothing
/// else is: any other failure is told as the session's own.
pub proof fn law_teardown_is_logged(
    session: StreamView,
    reply: Reply,
    logged: Option<AdbError>,
)
    requires
        session.logs(reply, logged),
    ensures
        session.failure is None ==> logged is None,
        session.failure is Some ==> match adb::outcome(reply) {
            Ok(_) => logged is None,
            Err(e) => logged is Some && logged->Some_0@ == e,
        },
{
}

} // verus!
