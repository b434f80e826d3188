//! Mirror mode: the screen of the device is shown in a window of the host.
//!
//! One thread reads the video, decodes it and leaves each picture in a mailbox;
//! another takes the newest picture from there and shows it.
use crate::adb;
use crate::adb::{Output, Reply};
use crate::capture;
use crate::capture::Capture;
use crate::failure;
use crate::failure::{Failure, FailureView};
use crate::frame;
use crate::frame::{DecodedFrame, FrameBuf, PixelFormat, PlanesView, WrongFormat, YuvPlanes};
use crate::render;
use crate::text;
use vstd::prelude::*;
use vstd::string::*;

verus! {

/// The title of the window.
pub const MIRROR_TITLE: &'static str = "USB Display Bridge -- mirror (naive, M1)";

/// How many milliseconds the window waits for a picture before it looks for
/// events again.
pub const WAIT_MILLIS: u64 = 16;

/// How many bytes of video are read at a time.
pub const READ_SIZE: usize = 65536;

/// What the session is doing.
#[derive(Debug, Clone, Copy, PartialEq, Eq, Structural)]
pub enum MirrorPhase {
    /// Listing the devices, to select one.
    Selecting,
    /// Starting the capture.
    Capturing,
    /// Starting the thread that decodes.
    Spawning,
    /// Opening the window.
    Opening,
    /// Looking for events of the window.
    Polling,
    /// Waiting for a picture.
    Waiting,
    /// Making a texture for its size.
    Texturing,
    /// Showing it.
    Presenting,
    /// Ending the capture.
    Stopping,
    /// Waiting for the thread that decodes.
    Joining,
    /// Nothing any more.
    Finished,
}

/// What is to be done next.
pub enum MirrorAction<'a> {
    /// Run this `adb` command.
    Adb(Vec<String>),
    /// Start the capture that these arguments describe.
    StartCapture(Vec<String>),
    /// Start the thread that decodes what the capture produces.
    SpawnDecoder,
    /// Open a window.
    OpenWindow { title: &'static str, width: u32, height: u32 },
    /// See whether the window should close.
    Poll,
    /// Wait this many milliseconds at most for a picture.
    Wait(u64),
    /// Make a texture of this size, in place of the one there is.
    NewTexture { width: u32, height: u32 },
    /// Show a picture.
    Present(YuvPlanes<'a>),
    /// End the capture.
    StopCapture,
    /// Wait for the thread that decodes to end.
    JoinDecoder,
    /// Nothing: the session is over.
    Finish,
}

/// The contents of a [`MirrorAction`].
pub enum MirrorAsk {
    Adb(Seq<Seq<char>>),
    StartCapture(Seq<Seq<char>>),
    SpawnDecoder,
    OpenWindow { title: Seq<char>, width: u32, height: u32 },
    Poll,
    Wait(u64),
    NewTexture { width: u32, height: u32 },
    Present(PlanesView),
    StopCapture,
    JoinDecoder,
    Finish,
}

impl View for MirrorAction<'_> {
    type V = MirrorAsk;

    open spec fn view(&self) -> MirrorAsk {
        match *self {
            MirrorAction::Adb(args) => MirrorAsk::Adb(text::texts(args@)),
            MirrorAction::StartCapture(args) => MirrorAsk::StartCapture(text::texts(args@)),
            MirrorAction::SpawnDecoder => MirrorAsk::SpawnDecoder,
            MirrorAction::OpenWindow { title, width, height } => MirrorAsk::OpenWindow {
                title: title@,
                width,
                height,
            },
            MirrorAction::Poll => MirrorAsk::Poll,
            MirrorAction::Wait(millis) => MirrorAsk::Wait(millis),
            MirrorAction::NewTexture { width, height } => MirrorAsk::NewTexture { width, height },
            MirrorAction::Present(planes) => MirrorAsk::Present(planes@),
            MirrorAction::StopCapture => MirrorAsk::StopCapture,
            MirrorAction::JoinDecoder => MirrorAsk::JoinDecoder,
            MirrorAction::Finish => MirrorAsk::Finish,
        }
    }
}

/// What came of an action.
pub enum MirrorEvent {
    /// The `adb` command was run.
    Replied(Reply),
    /// The action succeeded, or failed for the cause given.
    Done(Result<(), String>),
    /// The window should close, or should not.
    Polled(bool),
    /// This picture was waiting, or none came.
    Waited(Option<FrameBuf>),
}

/// The course of a session.
pub struct Mirror {
    /// The serial that was asked for.
    pub wanted: Option<String>,
    /// The size of the capture and of the window.
    pub width: u32,
    pub height: u32,
    pub phase: MirrorPhase,
    /// The device, once it is selected.
    pub serial: String,
    /// The size of the texture, once there is one.
    pub texture: Option<(u32, u32)>,
    /// The picture that is being shown.
    pub picture: Option<FrameBuf>,
    /// Why the session failed, if it did.
    pub failure: Option<Failure<MirrorPhase>>,
}

/// The text of a [`Mirror`].
pub struct MirrorView {
    pub wanted: Option<Seq<char>>,
    pub width: u32,
    pub height: u32,
    pub phase: MirrorPhase,
    pub serial: Seq<char>,
    pub texture: Option<(u32, u32)>,
    pub picture: Option<FrameBuf>,
    pub failure: Option<FailureView<MirrorPhase>>,
}

impl View for Mirror {
    type V = MirrorView;

    open spec fn view(&self) -> MirrorView {
        MirrorView {
            wanted: adb::name_in(self.wanted),
            width: self.width,
            height: self.height,
            phase: self.phase,
            serial: self.serial@,
            texture: self.texture,
            picture: self.picture,
            failure: failure::failed(self.failure),
        }
    }
}

/// What is said before the cause of a failure.
pub open spec fn context(phase: MirrorPhase) -> Seq<char> {
    match phase {
        MirrorPhase::Capturing => "starting screenrecord capture: "@,
        MirrorPhase::Spawning => "spawning decode thread: "@,
        _ => ""@,
    }
}

impl MirrorView {
    /// The session as it goes on in another phase.
    pub open spec fn in_phase(self, phase: MirrorPhase) -> MirrorView {
        MirrorView { phase, ..self }
    }

    /// The session has failed. A capture that runs is ended all the same.
    pub open spec fn failing(self, cause: Seq<char>) -> MirrorView {
        MirrorView {
            phase: if self.phase is Selecting || self.phase is Capturing {
                MirrorPhase::Finished
            } else {
                MirrorPhase::Stopping
            },
            failure: Some(FailureView { at: self.phase, cause: context(self.phase) + cause }),
            ..self
        }
    }

    /// What the session asks for next.
    pub open spec fn asks(self) -> MirrorAsk {
        match self.phase {
            MirrorPhase::Selecting => MirrorAsk::Adb(adb::devices_args()),
            MirrorPhase::Capturing => MirrorAsk::StartCapture(
                capture::record_args(self.serial, self.width, self.height),
            ),
            MirrorPhase::Spawning => MirrorAsk::SpawnDecoder,
            MirrorPhase::Opening => MirrorAsk::OpenWindow {
                title: MIRROR_TITLE@,
                width: self.width,
                height: self.height,
            },
            MirrorPhase::Polling => MirrorAsk::Poll,
            MirrorPhase::Waiting => MirrorAsk::Wait(WAIT_MILLIS),
            MirrorPhase::Texturing => MirrorAsk::NewTexture {
                width: self.picture->0.width,
                height: self.picture->0.height,
            },
            MirrorPhase::Presenting => MirrorAsk::Present(self.picture->0.spread()),
            MirrorPhase::Stopping => MirrorAsk::StopCapture,
            MirrorPhase::Joining => MirrorAsk::JoinDecoder,
            MirrorPhase::Finished => MirrorAsk::Finish,
        }
    }

    /// `event` answers what is to be done now.
    pub open spec fn accepts(self, event: MirrorEvent) -> bool {
        match event {
            MirrorEvent::Replied(_) => self.phase is Selecting,
            MirrorEvent::Polled(_) => self.phase is Polling,
            MirrorEvent::Waited(_) => self.phase is Waiting,
            MirrorEvent::Done(_) => {
                ||| self.phase is Capturing
                ||| self.phase is Spawning
                ||| self.phase is Opening
                ||| self.phase is Texturing
                ||| self.phase is Presenting
                ||| self.phase is Stopping
                ||| self.phase is Joining
            },
        }
    }

    /// The session after an action succeeded.
    pub open spec fn done(self) -> MirrorView {
        match self.phase {
            MirrorPhase::Capturing => self.in_phase(MirrorPhase::Spawning),
            MirrorPhase::Spawning => self.in_phase(MirrorPhase::Opening),
            MirrorPhase::Opening => self.in_phase(MirrorPhase::Polling),
            MirrorPhase::Texturing => MirrorView {
                phase: MirrorPhase::Presenting,
                texture: Some((self.picture->0.width, self.picture->0.height)),
                ..self
            },
            MirrorPhase::Presenting => MirrorView {
                phase: MirrorPhase::Polling,
                picture: None,
                ..self
            },
            _ => self,
        }
    }

    /// The session after `event`. Ending the capture and waiting for the thread
    /// cannot fail the session.
    pub open spec fn after(self, event: MirrorEvent) -> MirrorView {
        match event {
            MirrorEvent::Replied(reply) => match adb::selected_from(self.wanted, reply) {
                Ok(dev) => MirrorView {
                    phase: MirrorPhase::Capturing,
                    serial: dev.serial,
                    ..self
                },
                Err(e) => self.failing(e.words()),
            },
            MirrorEvent::Polled(quit) => self.in_phase(
                if quit {
                    MirrorPhase::Stopping
                } else {
                    MirrorPhase::Waiting
                },
            ),
            MirrorEvent::Waited(None) => self.in_phase(MirrorPhase::Polling),
            MirrorEvent::Waited(Some(picture)) => MirrorView {
                phase: if self.texture == Some((picture.width, picture.height)) {
                    MirrorPhase::Presenting
                } else {
                    MirrorPhase::Texturing
                },
                picture: Some(picture),
                ..self
            },
            MirrorEvent::Done(res) => match self.phase {
                MirrorPhase::Stopping => self.in_phase(
                    if self.failure is Some {
                        MirrorPhase::Finished
                    } else {
                        MirrorPhase::Joining
                    },
                ),
                MirrorPhase::Joining => self.in_phase(MirrorPhase::Finished),
                _ => match res {
                    Ok(_) => self.done(),
                    Err(why) => self.failing(why@),
                },
            },
        }
    }

    /// The session after `events`.
    pub open spec fn after_all(self, events: Seq<MirrorEvent>) -> MirrorView
        decreases events.len(),
    {
        if events.len() == 0 {
            self
        } else {
            self.after_all(events.drop_last()).after(events.last())
        }
    }

    /// Each of `events` answers what is to be done when it happens.
    pub open spec fn accepts_all(self, events: Seq<MirrorEvent>) -> bool
        decreases events.len(),
    {
        events.len() > 0 ==> self.accepts_all(events.drop_last()) && self.after_all(
            events.drop_last(),
        ).accepts(events.last())
    }

    /// The capture runs.
    pub open spec fn capture_runs(self) -> bool {
        !(self.phase is Selecting || self.phase is Capturing || self.phase is Joining
            || self.phase is Finished)
    }

    /// There is a picture while one is being shown, and it is shown in a texture
    /// of its size. A session that has failed is on its way out.
    pub open spec fn wf(self) -> bool {
        &&& self.phase is Texturing || self.phase is Presenting ==> self.picture is Some
        &&& self.phase is Presenting ==> self.texture == Some(
            (self.picture->0.width, self.picture->0.height),
        )
        &&& self.failure is Some ==> self.phase is Stopping || self.phase is Finished
    }
}

/// A session before anything was done.
pub open spec fn started(wanted: Option<Seq<char>>, width: u32, height: u32) -> MirrorView {
    MirrorView {
        wanted,
        width,
        height,
        phase: MirrorPhase::Selecting,
        serial: seq![],
        texture: None,
        picture: None,
        failure: None,
    }
}

impl Mirror {
    /// A session with the device `wanted`, or the only one, in a window of
    /// `width` by `height`.
    pub fn new(wanted: Option<String>, width: u32, height: u32) -> (session: Mirror)
        ensures
            session@ == started(adb::name_in(wanted), width, height),
            session@.wf(),
            session.wanted == wanted,
    {
        Mirror {
            wanted,
            width,
            height,
            phase: MirrorPhase::Selecting,
            serial: String::new(),
            texture: None,
            picture: None,
            failure: None,
        }
    }

    /// What is to be done next.
    pub fn action(&self) -> (action: MirrorAction<'_>)
        requires
            self@.wf(),
        ensures
            match self.phase {
                MirrorPhase::Selecting => action matches MirrorAction::Adb(args) && text::texts(
                    args@,
                ) == adb::devices_args(),
                MirrorPhase::Capturing => action matches MirrorAction::StartCapture(args)
                    && text::texts(args@) == capture::record_args(
                    self.serial@,
                    self.width,
                    self.height,
                ),
                MirrorPhase::Spawning => action == MirrorAction::SpawnDecoder,
                MirrorPhase::Opening => action == (MirrorAction::OpenWindow {
                    title: MIRROR_TITLE,
                    width: self.width,
                    height: self.height,
                }),
                MirrorPhase::Polling => action == MirrorAction::Poll,
                MirrorPhase::Waiting => action == MirrorAction::Wait(WAIT_MILLIS),
                MirrorPhase::Texturing => action == (MirrorAction::NewTexture {
                    width: self.picture->0.width,
                    height: self.picture->0.height,
                }),
                MirrorPhase::Presenting => action matches MirrorAction::Present(planes)
                    && frame::planes_of(self.picture->0, planes),
                MirrorPhase::Stopping => action == MirrorAction::StopCapture,
                MirrorPhase::Joining => action == MirrorAction::JoinDecoder,
                MirrorPhase::Finished => action == MirrorAction::Finish,
            },
            action@ == self@.asks(),
    {
        match self.phase {
            MirrorPhase::Selecting => MirrorAction::Adb(adb::list_devices(None).command()),
            MirrorPhase::Capturing => MirrorAction::StartCapture(
                Capture::start(self.serial.as_str(), self.width, self.height).args,
            ),
            MirrorPhase::Spawning => MirrorAction::SpawnDecoder,
            MirrorPhase::Opening => MirrorAction::OpenWindow {
                title: MIRROR_TITLE,
                width: self.width,
                height: self.height,
            },
            MirrorPhase::Polling => MirrorAction::Poll,
            MirrorPhase::Waiting => MirrorAction::Wait(WAIT_MILLIS),
            MirrorPhase::Texturing => match &self.picture {
                Some(picture) => MirrorAction::NewTexture {
                    width: picture.width,
                    height: picture.height,
                },
                None => vstd::pervasive::unreached(),
            },
            MirrorPhase::Presenting => match &self.picture {
                Some(picture) => MirrorAction::Present(picture.planes()),
                None => vstd::pervasive::unreached(),
            },
            MirrorPhase::Stopping => MirrorAction::StopCapture,
            MirrorPhase::Joining => MirrorAction::JoinDecoder,
            MirrorPhase::Finished => MirrorAction::Finish,
        }
    }

    /// The session has failed.
    fn fail(&mut self, cause: String)
        ensures
            final(self)@ == old(self)@.failing(cause@),
    {
        let at: MirrorPhase = self.phase;
        let context: String = match at {
            MirrorPhase::Capturing => "starting screenrecord capture: ".to_owned(),
            MirrorPhase::Spawning => "spawning decode thread: ".to_owned(),
            _ => "".to_owned(),
        };
        self.failure = Some(Failure { at, cause: context.concat(cause.as_str()) });
        self.phase = if at == MirrorPhase::Selecting || at == MirrorPhase::Capturing {
            MirrorPhase::Finished
        } else {
            MirrorPhase::Stopping
        };
    }

    /// Go on after an action succeeded.
    fn take_success(&mut self)
        requires
            old(self)@.wf(),
        ensures
            final(self)@ == old(self)@.done(),
    {
        match self.phase {
            MirrorPhase::Capturing => {
                self.phase = MirrorPhase::Spawning;
            },
            MirrorPhase::Spawning => {
                self.phase = MirrorPhase::Opening;
            },
            MirrorPhase::Opening => {
                self.phase = MirrorPhase::Polling;
            },
            MirrorPhase::Texturing => {
                self.texture = match &self.picture {
                    Some(picture) => Some((picture.width, picture.height)),
                    None => vstd::pervasive::unreached(),
                };
                self.phase = MirrorPhase::Presenting;
            },
            MirrorPhase::Presenting => {
                self.picture = None;
                self.phase = MirrorPhase::Polling;
            },
            _ => {},
        }
    }

    /// Go on after `event`.
    pub fn advance(&mut self, event: MirrorEvent)
        requires
            old(self)@.wf(),
            old(self)@.accepts(event),
        ensures
            final(self)@ == old(self)@.after(event),
            final(self)@.wf(),
            event matches MirrorEvent::Replied(reply) ==> adb::read_plainly(reply),
    {
        match event {
            MirrorEvent::Replied(reply) => {
                let wanted: Option<&str> = match &self.wanted {
                    Some(s) => Some(s.as_str()),
                    None => None,
                };
                match adb::select_device(wanted, Some(reply)).result() {
                    Ok(dev) => {
                        self.serial = dev.serial;
                        self.phase = MirrorPhase::Capturing;
                    },
                    Err(e) => self.fail(e.message()),
                }
            },
            MirrorEvent::Polled(quit) => {
                self.phase = if quit {
                    MirrorPhase::Stopping
                } else {
                    MirrorPhase::Waiting
                };
            },
            MirrorEvent::Waited(None) => {
                self.phase = MirrorPhase::Polling;
            },
            MirrorEvent::Waited(Some(picture)) => {
                self.phase = if render::needs_texture(
                    self.texture,
                    picture.width,
                    picture.height,
                ) {
                    MirrorPhase::Texturing
                } else {
                    MirrorPhase::Presenting
                };
                self.picture = Some(picture);
            },
            MirrorEvent::Done(res) => {
                if self.phase == MirrorPhase::Stopping {
                    self.phase = if self.failure.is_some() {
                        MirrorPhase::Finished
                    } else {
                        MirrorPhase::Joining
                    };
                } else if self.phase == MirrorPhase::Joining {
                    self.phase = MirrorPhase::Finished;
                } else {
                    match res {
                        Ok(_) => self.take_success(),
                        Err(why) => self.fail(why),
                    }
                }
            },
        }
    }
}

/// How often the capture was started in the course of `events`.
pub open spec fn starts(session: MirrorView, events: Seq<MirrorEvent>) -> nat
    decreases events.len(),
{
    if events.len() == 0 {
        0
    } else {
        let before = session.after_all(events.drop_last());
        starts(session, events.drop_last()) + if !before.capture_runs() && before.after(
            events.last(),
        ).capture_runs() {
            1nat
        } else {
            0nat
        }
    }
}

/// How often the capture was ended in the course of `events`.
pub open spec fn stops(session: MirrorView, events: Seq<MirrorEvent>) -> nat
    decreases events.len(),
{
    if events.len() == 0 {
        0
    } else {
        stops(session, events.drop_last()) + if session.after_all(events.drop_last()).phase
            is Stopping {
            1nat
        } else {
            0nat
        }
    }
}

/// However a session goes, a capture that was started is ended before the
/// session is over: no process is left behind.
pub proof fn law_capture_is_ended(
    wanted: Option<Seq<char>>,
    width: u32,
    height: u32,
    events: Seq<MirrorEvent>,
)
    requires
        started(wanted, width, height).accepts_all(events),
    ensures
        ({
            let session = started(wanted, width, height);
            let end = session.after_all(events);
            &&& end.wf()
            &&& starts(session, events) == stops(session, events) + if end.capture_runs() {
                1nat
            } else {
                0nat
            }
            &&& end.phase is Finished ==> starts(session, events) == stops(session, events)
        }),
    decreases events.len(),
{
    if events.len() > 0 {
        law_capture_is_ended(wanted, width, height, events.drop_last());
    }
}

/// The capture is ended before the thread is waited for, which would else wait
/// for more video. Only a session that has not failed waits for it.
pub proof fn law_capture_ends_before_join(session: MirrorView, event: MirrorEvent)
    requires
        session.wf(),
        session.accepts(event),
        session.after(event).phase is Joining,
    ensures
        session.phase is Stopping,
        session.failure is None,
{
}

/// A picture that was waiting is shown as it is, in a texture of its size, before
/// the next one is waited for.
pub proof fn law_picture_is_shown(session: MirrorView, picture: FrameBuf)
    requires
        session.wf(),
        session.phase is Waiting,
    ensures
        ({
            let got = session.after(MirrorEvent::Waited(Some(picture)));
            let showing = if got.phase is Texturing {
                got.after(MirrorEvent::Done(Ok(())))
            } else {
                got
            };
            &&& got.phase is Texturing <==> session.texture != Some(
                (picture.width, picture.height),
            )
            &&& showing.phase is Presenting
            &&& showing.picture == Some(picture)
            &&& showing.texture == Some((picture.width, picture.height))
            &&& showing.after(MirrorEvent::Done(Ok(()))).phase is Polling
        }),
{
}

/// The picture that an event brings, if it brings one.
pub open spec fn taken(event: MirrorEvent) -> Seq<FrameBuf> {
    match event {
        MirrorEvent::Waited(Some(picture)) => seq![picture],
        _ => seq![],
    }
}

/// The pictures that were taken from the mailbox in the course of `events`.
pub open spec fn all_taken(events: Seq<MirrorEvent>) -> Seq<FrameBuf>
    decreases events.len(),
{
    if events.len() == 0 {
        seq![]
    } else {
        all_taken(events.drop_last()) + taken(events.last())
    }
}

/// The picture that was shown in an event, if one was.
pub open spec fn shown(session: MirrorView, event: MirrorEvent) -> Seq<FrameBuf> {
    match event {
        MirrorEvent::Done(Ok(_)) => if session.phase is Presenting {
            seq![session.picture->0]
        } else {
            seq![]
        },
        _ => seq![],
    }
}

/// The pictures that were shown in the course of `events`.
pub open spec fn all_shown(session: MirrorView, events: Seq<MirrorEvent>) -> Seq<FrameBuf>
    decreases events.len(),
{
    if events.len() == 0 {
        seq![]
    } else {
        all_shown(session, events.drop_last()) + shown(
            session.after_all(events.drop_last()),
            events.last(),
        )
    }
}

/// The picture that is still to be shown, if there is one.
pub open spec fn pending(session: MirrorView) -> Seq<FrameBuf> {
    if session.phase is Texturing || session.phase is Presenting {
        seq![session.picture->0]
    } else {
        seq![]
    }
}

/// The size of a picture.
pub open spec fn size_of(picture: FrameBuf) -> (u32, u32) {
    (picture.width, picture.height)
}

/// The size of the texture that was made in an event, if one was.
pub open spec fn textured(session: MirrorView, event: MirrorEvent) -> Seq<(u32, u32)> {
    match event {
        MirrorEvent::Done(Ok(_)) => if session.phase is Texturing {
            seq![size_of(session.picture->0)]
        } else {
            seq![]
        },
        _ => seq![],
    }
}

/// The sizes of the textures that were made in the course of `events`.
pub open spec fn all_textured(session: MirrorView, events: Seq<MirrorEvent>) -> Seq<(u32, u32)>
    decreases events.len(),
{
    if events.len() == 0 {
        seq![]
    } else {
        all_textured(session, events.drop_last()) + textured(
            session.after_all(events.drop_last()),
            events.last(),
        )
    }
}

/// The texture that is still to be made, if one is.
pub open spec fn texture_due(session: MirrorView) -> Seq<(u32, u32)> {
    if session.phase is Texturing {
        seq![size_of(session.picture->0)]
    } else {
        seq![]
    }
}

/// The size of the last of `pictures`, if there is one.
pub open spec fn last_size(pictures: Seq<FrameBuf>) -> Option<(u32, u32)> {
    if pictures.len() == 0 {
        None
    } else {
        Some(size_of(pictures.last()))
    }
}

/// The sizes of those pictures that are not as large as the one before, and of
/// the first.
pub open spec fn new_sizes(pictures: Seq<FrameBuf>) -> Seq<(u32, u32)>
    decreases pictures.len(),
{
    if pictures.len() == 0 {
        seq![]
    } else {
        let front = pictures.drop_last();
        new_sizes(front) + if last_size(front) == last_size(pictures) {
            seq![]
        } else {
            seq![size_of(pictures.last())]
        }
    }
}

/// What is kept over the course of a session: how the texture that is held
/// relates to the pictures that were taken.
pub open spec fn texture_fits(session: MirrorView, pictures: Seq<FrameBuf>) -> bool {
    if session.phase is Texturing {
        &&& pictures.len() > 0
        &&& session.picture == Some(pictures.last())
        &&& session.texture == last_size(pictures.drop_last())
    } else {
        session.texture == last_size(pictures)
    }
}

/// How the pictures that were shown and the textures that were made relate to
/// the pictures that were taken.
pub open spec fn in_step(
    session: MirrorView,
    pictures: Seq<FrameBuf>,
    seen: Seq<FrameBuf>,
    made: Seq<(u32, u32)>,
) -> bool {
    if session.failure is None {
        &&& seen + pending(session) == pictures
        &&& made + texture_due(session) == new_sizes(pictures)
        &&& texture_fits(session, pictures)
    } else {
        &&& seen.is_prefix_of(pictures)
        &&& made.is_prefix_of(new_sizes(pictures))
    }
}

/// One event keeps what is shown in step with what was taken.
proof fn lemma_in_step(
    session: MirrorView,
    event: MirrorEvent,
    pictures: Seq<FrameBuf>,
    seen: Seq<FrameBuf>,
    made: Seq<(u32, u32)>,
)
    requires
        session.wf(),
        session.accepts(event),
        in_step(session, pictures, seen, made),
    ensures
        session.after(event).wf(),
        in_step(
            session.after(event),
            pictures + taken(event),
            seen + shown(session, event),
            made + textured(session, event),
        ),
{
    let next = session.after(event);
    let pictures2 = pictures + taken(event);
    let seen2 = seen + shown(session, event);
    let made2 = made + textured(session, event);
    match event {
        MirrorEvent::Waited(Some(picture)) => {
            assert(pictures2.drop_last() == pictures);
            assert(pictures2.last() == picture);
            assert(seen2 + pending(next) =~= pictures2);
            assert(made2 + texture_due(next) =~= new_sizes(pictures2));
        },
        _ => {
            assert(pictures2 == pictures);
            if next.failure is None {
                assert(seen2 + pending(next) =~= seen + pending(session));
                assert(made2 + texture_due(next) =~= made + texture_due(session));
            } else {
                assert(seen2 == seen);
                assert(made2 == made);
            }
        },
    }
}

/// Every picture that is taken from the mailbox is shown, in order and once, and a
/// new texture is made exactly where the size changes: as long as a session has
/// not failed, what was shown and what is still to be shown make up what was
/// taken. A session that has failed has shown and made a part of that, from its
/// start.
pub proof fn law_every_picture_is_shown(
    wanted: Option<Seq<char>>,
    width: u32,
    height: u32,
    events: Seq<MirrorEvent>,
)
    requires
        started(wanted, width, height).accepts_all(events),
    ensures
        ({
            let session = started(wanted, width, height);
            let end = session.after_all(events);
            let pictures = all_taken(events);
            let seen = all_shown(session, events);
            let made = all_textured(session, events);
            &&& end.wf()
            &&& in_step(end, pictures, seen, made)
            &&& seen.is_prefix_of(pictures)
            &&& made.is_prefix_of(new_sizes(pictures))
            &&& end.failure is None ==> seen + pending(end) == pictures && made + texture_due(end)
                == new_sizes(pictures)
        }),
    decreases events.len(),
{
    let session = started(wanted, width, height);
    if events.len() > 0 {
        let front = events.drop_last();
        law_every_picture_is_shown(wanted, width, height, front);
        lemma_in_step(
            session.after_all(front),
            events.last(),
            all_taken(front),
            all_shown(session, front),
            all_textured(session, front),
        );
    }
}

/// Why the thread that decodes ended.
#[derive(Debug)]
pub enum DecodeEnd {
    /// The decoder could not be opened.
    NoDecoder(String),
    /// The video ended.
    StreamEnded,
    /// The video could not be read.
    ReadFailed(String),
    /// The video could not be decoded.
    DecodeFailed(String),
}

/// What the thread that decodes is to do next.
#[derive(Debug, Clone, Copy, PartialEq, Eq, Structural)]
pub enum DecodeStep {
    /// Open the decoder.
    Open,
    /// Read at most [`READ_SIZE`] bytes of video.
    Read,
    /// Decode the bytes that were read, of which there are so many.
    Push(usize),
    /// Nothing: the thread ends.
    End,
}

/// What came of a step.
pub enum DecodeNews {
    /// The decoder is open, or could not be opened.
    Opened(Result<(), String>),
    /// So many bytes were read, none at the end of the video, or reading failed.
    Read(Result<usize, String>),
    /// These frames were decoded, or decoding failed.
    Decoded(Result<Vec<DecodedFrame>, String>),
}

/// The course of the thread that decodes.
pub struct DecodeLoop {
    pub step: DecodeStep,
    /// Why the thread ended, once it did.
    pub end: Option<DecodeEnd>,
}

/// The pictures in `frames` that can be shown, in order. The others are dropped.
pub fn storable(frames: Vec<DecodedFrame>) -> (stored: Vec<FrameBuf>)
    ensures
        stored@ == frame::pictures(frames@),
{
    let ghost can = |f: DecodedFrame| frame::showable(f);
    let ghost take = |f: DecodedFrame| frame::picture(f);
    let mut stored: Vec<FrameBuf> = Vec::new();
    let mut left: Vec<DecodedFrame> = frames;
    let ghost mut n: int = 0;
    proof {
        reveal(Seq::filter);
        assert(frames@.skip(0) == frames@);
        assert(stored@ == frames@.take(0).filter(can).map_values(take));
    }
    while left.len() > 0
        invariant
            0 <= n <= frames@.len(),
            left@ == frames@.skip(n),
            can == (|f: DecodedFrame| frame::showable(f)),
            take == (|f: DecodedFrame| frame::picture(f)),
            stored@ == frames@.take(n).filter(can).map_values(take),
        decreases left.len(),
    {
        let ghost before = stored@;
        let ghost f = left[0];
        proof {
            reveal(Seq::filter);
            assert(frames@.take(n + 1).drop_last() == frames@.take(n));
            assert(frames@.take(n + 1).last() == f);
            assert(left@.remove(0) == frames@.skip(n + 1));
        }
        match FrameBuf::from_yuv420p(left.remove(0)) {
            Ok(picture) => {
                stored.push(picture);
                assert(stored@ == frames@.take(n).filter(can).push(f).map_values(take));
            },
            Err(_) => {},
        }
        proof {
            n = n + 1;
        }
    }
    assert(frames@.take(n) == frames@);
    stored
}

/// Why the frames that cannot be shown are dropped, in order.
pub fn refusals(frames: &Vec<DecodedFrame>) -> (said: Vec<String>)
    ensures
        text::texts(said@) == frame::refused(frames@),
{
    let ghost odd = |f: DecodedFrame| !frame::showable(f);
    let ghost why = |f: DecodedFrame| frame::refusal(f);
    let mut said: Vec<String> = Vec::new();
    let mut i: usize = 0;
    proof {
        reveal(Seq::filter);
        assert(text::texts(said@) == frames@.take(0).filter(odd).map_values(why));
    }
    while i < frames.len()
        invariant
            i <= frames.len(),
            odd == (|f: DecodedFrame| !frame::showable(f)),
            why == (|f: DecodedFrame| frame::refusal(f)),
            text::texts(said@) == frames@.take(i as int).filter(odd).map_values(why),
        decreases frames.len() - i,
    {
        let ghost before = said@;
        let ghost f = frames[i as int];
        proof {
            reveal(Seq::filter);
            assert(frames@.take(i + 1).drop_last() == frames@.take(i as int));
            assert(frames@.take(i + 1).last() == f);
        }
        match &frames[i].format {
            PixelFormat::Other(name) => {
                let m: String = WrongFormat { format: name.as_str().to_owned() }.message();
                assert(m@ == frame::refusal(f));
                said.push(m);
                assert(text::texts(said@) == text::texts(before).push(m@));
                assert(frames@.take(i as int).filter(odd).push(f).map_values(why)
                    == frames@.take(i as int).filter(odd).map_values(why).push(m@));
            },
            PixelFormat::Yuv420p => {},
        }
        i = i + 1;
    }
    assert(frames@.take(i as int) == frames@);
    said
}

impl DecodeLoop {
    /// `news` answers what is to be done now.
    pub open spec fn accepts(self, news: DecodeNews) -> bool {
        match news {
            DecodeNews::Opened(_) => self.step is Open,
            DecodeNews::Read(_) => self.step is Read,
            DecodeNews::Decoded(_) => self.step is Push,
        }
    }

    /// The thread as it ends.
    pub open spec fn ending(why: DecodeEnd) -> DecodeLoop {
        DecodeLoop { step: DecodeStep::End, end: Some(why) }
    }

    /// The thread as it goes on.
    pub open spec fn going_on(step: DecodeStep) -> DecodeLoop {
        DecodeLoop { step, end: None }
    }

    /// The thread after `news`.
    pub open spec fn after(self, news: DecodeNews) -> DecodeLoop {
        match news {
            DecodeNews::Opened(Ok(_)) => DecodeLoop::going_on(DecodeStep::Read),
            DecodeNews::Opened(Err(why)) => DecodeLoop::ending(DecodeEnd::NoDecoder(why)),
            DecodeNews::Read(Ok(n)) => if n == 0 {
                DecodeLoop::ending(DecodeEnd::StreamEnded)
            } else {
                DecodeLoop::going_on(DecodeStep::Push(n))
            },
            DecodeNews::Read(Err(why)) => DecodeLoop::ending(DecodeEnd::ReadFailed(why)),
            DecodeNews::Decoded(Ok(_)) => DecodeLoop::going_on(DecodeStep::Read),
            DecodeNews::Decoded(Err(why)) => DecodeLoop::ending(DecodeEnd::DecodeFailed(why)),
        }
    }

    /// The pictures that are put in the mailbox after `news`: those that can be
    /// shown, and none if decoding failed.
    pub open spec fn yields(news: DecodeNews) -> Seq<FrameBuf> {
        match news {
            DecodeNews::Decoded(Ok(frames)) => frame::pictures(frames@),
            _ => seq![],
        }
    }

    /// A thread that has done nothing yet.
    pub fn new() -> (thread: DecodeLoop)
        ensures
            thread == DecodeLoop::going_on(DecodeStep::Open),
    {
        DecodeLoop { step: DecodeStep::Open, end: None }
    }

    /// Go on after `news`. The pictures that are handed back are to be put in the
    /// mailbox, one after the other.
    pub fn advance(&mut self, news: DecodeNews) -> (stored: Vec<FrameBuf>)
        requires
            old(self).accepts(news),
        ensures
            *final(self) == old(self).after(news),
            stored@ == DecodeLoop::yields(news),
    {
        let mut stored: Vec<FrameBuf> = Vec::new();
        assert(stored@ == Seq::<FrameBuf>::empty());
        let step: DecodeStep;
        let mut end: Option<DecodeEnd> = None;
        match news {
            DecodeNews::Opened(Ok(_)) => {
                step = DecodeStep::Read;
            },
            DecodeNews::Opened(Err(why)) => {
                step = DecodeStep::End;
                end = Some(DecodeEnd::NoDecoder(why));
            },
            DecodeNews::Read(Ok(n)) => {
                if n == 0 {
                    step = DecodeStep::End;
                    end = Some(DecodeEnd::StreamEnded);
                } else {
                    step = DecodeStep::Push(n);
                }
            },
            DecodeNews::Read(Err(why)) => {
                step = DecodeStep::End;
                end = Some(DecodeEnd::ReadFailed(why));
            },
            DecodeNews::Decoded(Ok(frames)) => {
                stored = storable(frames);
                step = DecodeStep::Read;
            },
            DecodeNews::Decoded(Err(why)) => {
                step = DecodeStep::End;
                end = Some(DecodeEnd::DecodeFailed(why));
            },
        }
        self.step = step;
        self.end = end;
        stored
    }
}

/// What a mailbox that is not emptied meanwhile holds after one batch of frames:
/// the last of them that can be shown, and what it held before if none can.
pub proof fn law_last_picture_waits(uses: Seq<frame::SlotUse>, frames: Seq<DecodedFrame>)
    ensures
        ({
            let shown = frame::pictures(frames);
            let put = shown.map_values(|p: FrameBuf| frame::SlotUse::Put(p));
            frame::held_after(uses + put) == if shown.len() == 0 {
                frame::held_after(uses)
            } else {
                Some(shown.last())
            }
        }),
{
    let shown = frame::pictures(frames);
    let put = shown.map_values(|p: FrameBuf| frame::SlotUse::Put(p));
    if shown.len() == 0 {
        assert(uses + put == uses);
    } else {
        assert((uses + put).last() == frame::SlotUse::Put(shown.last()));
    }
}

/// The serial that a session was asked for decides among several devices: if one of
/// those that the listing shows as ready has it, that one is recorded. If none has
/// it, the session is over and says so. A single device is taken.
pub proof fn law_asked_serial_is_used(
    serial: Seq<char>,
    width: u32,
    height: u32,
    out: Output,
    i: int,
)
    requires
        out.success,
    ensures
        ({
            let devs = adb::devices_in(adb::utf8_lossy(out.stdout@));
            let then = started(Some(serial), width, height).after(
                MirrorEvent::Replied(Reply::Finished(out)),
            );
            &&& devs.len() > 1 && 0 <= i < devs.len() && devs[i].serial == serial ==> {
                &&& then.failure is None
                &&& then.serial == serial
                &&& then.asks() matches MirrorAsk::StartCapture(args)
                &&& adb::addressed(args, serial)
            }
            &&& devs.len() > 1 && (forall|k: int|
                0 <= k < devs.len() ==> devs[k].serial != serial) ==> {
                &&& then.asks() is Finish
                &&& then.failure is Some
                &&& then.failure->Some_0.cause == "--serial "@ + serial
                    + " not found among connected devices"@
            }
            &&& devs.len() == 1 ==> then.failure is None && then.serial == devs[0].serial
        }),
{
    let devs = adb::devices_in(adb::utf8_lossy(out.stdout@));
    adb::law_listing_decides(Some(serial), Reply::Finished(out));
    adb::law_selected_device_is_listed(devs, Some(serial));
    adb::lemma_first_with(devs, serial);
    reveal_strlit("");
    assert(""@ + adb::Refusal::NotFound(serial).words() =~= adb::Refusal::NotFound(
        serial,
    ).words());
}

/// A session that is on its way out ends the capture and is over, and keeps saying
/// what ended it.
pub open spec fn is_taken_down(session: MirrorView, cause: Seq<char>) -> bool {
    &&& session.failure is Some
    &&& session.failure->Some_0.cause == cause
    &&& session.asks() is StopCapture
    &&& forall|res: Result<(), String>|
        {
            let over = #[trigger] session.after(MirrorEvent::Done(res));
            over.asks() is Finish && over.failure == session.failure
        }
}

/// A session sets out as it should: it selects the device, records it at the width
/// and height that were asked for, starts the thread that decodes, opens a window of
/// the same width and height, and looks for events. Where a step fails, the session
/// says which and why, and ends the capture if it runs.
pub proof fn law_session_sets_out(
    wanted: Option<Seq<char>>,
    width: u32,
    height: u32,
    dev: adb::DeviceView,
    listed: Reply,
    unlisted: Reply,
    why: String,
)
    requires
        adb::selected_from(wanted, listed) == Ok::<_, adb::Refusal>(dev),
        adb::selected_from(wanted, unlisted) is Err,
    ensures
        ({
            let done = MirrorEvent::Done(Ok(()));
            let failed = MirrorEvent::Done(Err(why));
            let s0 = started(wanted, width, height);
            let s1 = s0.after(MirrorEvent::Replied(listed));
            let s2 = s1.after(done);
            let s3 = s2.after(done);
            let s4 = s3.after(done);
            let f0 = s0.after(MirrorEvent::Replied(unlisted));
            let f1 = s1.after(failed);
            &&& s0.asks() == MirrorAsk::Adb(seq!["devices"@, "-l"@])
            &&& s1.asks() matches MirrorAsk::StartCapture(args)
            &&& args.len() == 8
            &&& args[0] == "-s"@
            &&& args[1] == dev.serial
            &&& args[5] == "--size"@
            &&& capture::gives_size(args[6], width, height)
            &&& s2.asks() is SpawnDecoder
            &&& s3.asks() == (MirrorAsk::OpenWindow {
                title: "USB Display Bridge -- mirror (naive, M1)"@,
                width,
                height,
            })
            &&& s4.asks() is Poll
            &&& s4.failure is None
            &&& s4.texture is None
            &&& f0.asks() is Finish
            &&& f0.failure->Some_0.cause == adb::selected_from(wanted, unlisted)->Err_0.words()
            &&& f1.asks() is Finish
            &&& f1.failure->Some_0.cause == "starting screenrecord capture: "@ + why@
            &&& is_taken_down(s2.after(failed), "spawning decode thread: "@ + why@)
            &&& is_taken_down(s3.after(failed), why@)
        }),
{
    capture::law_recorder_is_told_the_size(dev.serial, width, height);
    let args = capture::record_args(dev.serial, width, height);
    assert(args.take(6)[0] == args[0]);
    assert(args.take(6)[1] == args[1]);
    assert(args.take(6)[5] == args[5]);
    reveal_strlit("");
    let s0 = started(wanted, width, height);
    let s1 = s0.after(MirrorEvent::Replied(listed));
    let s3 = s1.after(MirrorEvent::Done(Ok(()))).after(MirrorEvent::Done(Ok(())));
    let f0 = s0.after(MirrorEvent::Replied(unlisted));
    assert(f0.failure->Some_0.cause =~= adb::selected_from(wanted, unlisted)->Err_0.words());
    let f3 = s3.after(MirrorEvent::Done(Err(why)));
    assert(f3.failure->Some_0.cause =~= why@);
}

/// The session goes round as it should: unless the window should close it waits for
/// a picture, at most sixteen milliseconds. Without one it looks for events again. A
/// picture is shown as it is, in a texture of its size, which is made first if the
/// one that is held has another; then the session looks for events again. A window
/// that should close ends the capture, then the thread, and then the session.
/// Anything that fails ends the capture, and the cause is told.
pub proof fn law_session_goes_round(session: MirrorView, picture: FrameBuf, why: String)
    requires
        session.wf(),
        session.failure is None,
        session.asks() is Poll,
    ensures
        ({
            let done = MirrorEvent::Done(Ok(()));
            let failed = MirrorEvent::Done(Err(why));
            let waiting = session.after(MirrorEvent::Polled(false));
            let closing = session.after(MirrorEvent::Polled(true));
            let got = waiting.after(MirrorEvent::Waited(Some(picture)));
            let kept = session.texture is Some && session.texture->Some_0.0 == picture.width
                && session.texture->Some_0.1 == picture.height;
            let showing = if kept {
                got
            } else {
                got.after(done)
            };
            let shown = showing.after(done);
            &&& waiting.asks() == MirrorAsk::Wait(16)
            &&& waiting.after(MirrorEvent::Waited(None)) == session
            &&& !kept ==> got.asks() == (MirrorAsk::NewTexture {
                width: picture.width,
                height: picture.height,
            }) && is_taken_down(got.after(failed), why@)
            &&& showing.asks() == MirrorAsk::Present(picture.spread())
            &&& is_taken_down(showing.after(failed), why@)
            &&& shown.asks() is Poll
            &&& shown.failure is None
            &&& shown.texture == Some((picture.width, picture.height))
            &&& closing.asks() is StopCapture
            &&& closing.after(done).asks() is JoinDecoder
            &&& closing.after(failed).asks() is JoinDecoder
            &&& closing.after(done).after(done).asks() is Finish
            &&& closing.after(done).after(failed).asks() is Finish
            &&& closing.after(done).after(failed).failure is None
        }),
{
    reveal_strlit("");
    let waiting = session.after(MirrorEvent::Polled(false));
    let got = waiting.after(MirrorEvent::Waited(Some(picture)));
    let showing = if got.phase is Texturing {
        got.after(MirrorEvent::Done(Ok(())))
    } else {
        got
    };
    let f = got.after(MirrorEvent::Done(Err(why)));
    assert(f.failure->Some_0.cause =~= why@);
    let g = showing.after(MirrorEvent::Done(Err(why)));
    assert(g.failure->Some_0.cause =~= why@);
}

/// A session takes every answer to what it asks for, and no other.
pub proof fn law_every_answer_is_taken(session: MirrorView, event: MirrorEvent)
    ensures
        session.accepts(event) <==> match event {
            MirrorEvent::Replied(_) => session.asks() is Adb,
            MirrorEvent::Polled(_) => session.asks() is Poll,
            MirrorEvent::Waited(_) => session.asks() is Wait,
            MirrorEvent::Done(_) => {
                ||| session.asks() is StartCapture
                ||| session.asks() is SpawnDecoder
                ||| session.asks() is OpenWindow
                ||| session.asks() is NewTexture
                ||| session.asks() is Present
                ||| session.asks() is StopCapture
                ||| session.asks() is JoinDecoder
            },
        },
{
}

/// What was presented in an event.
pub open spec fn presented(session: MirrorView, event: MirrorEvent) -> Seq<PlanesView> {
    match (event, session.asks()) {
        (MirrorEvent::Done(Ok(_)), MirrorAsk::Present(planes)) => seq![planes],
        _ => seq![],
    }
}

/// What was presented in the course of `events`.
pub open spec fn all_presented(session: MirrorView, events: Seq<MirrorEvent>) -> Seq<PlanesView>
    decreases events.len(),
{
    if events.len() == 0 {
        seq![]
    } else {
        all_presented(session, events.drop_last()) + presented(
            session.after_all(events.drop_last()),
            events.last(),
        )
    }
}

/// The planes of pictures.
pub open spec fn spreads(pictures: Seq<FrameBuf>) -> Seq<PlanesView> {
    pictures.map_values(|p: FrameBuf| p.spread())
}

/// What was presented is what was shown.
proof fn lemma_presented(session: MirrorView, events: Seq<MirrorEvent>)
    ensures
        all_presented(session, events) == spreads(all_shown(session, events)),
    decreases events.len(),
{
    if events.len() > 0 {
        let front = events.drop_last();
        lemma_presented(session, front);
        let before = session.after_all(front);
        let new = shown(before, events.last());
        assert(presented(before, events.last()) == spreads(new));
        assert(spreads(all_shown(session, front) + new) == spreads(all_shown(session, front))
            + spreads(new));
    }
}

/// The window is handed every picture that is taken from the mailbox, in order and
/// once, with its own planes and strides: whenever the session looks for events or
/// waits for a picture, all that were taken have been presented.
pub proof fn law_window_shows_what_is_taken(
    wanted: Option<Seq<char>>,
    width: u32,
    height: u32,
    events: Seq<MirrorEvent>,
    i: int,
)
    requires
        started(wanted, width, height).accepts_all(events),
    ensures
        ({
            let session = started(wanted, width, height);
            let end = session.after_all(events);
            let given = all_presented(session, events);
            let pictures = all_taken(events);
            &&& given.len() <= pictures.len()
            &&& end.asks() is Poll || end.asks() is Wait ==> given.len() == pictures.len()
            &&& 0 <= i < given.len() ==> {
                &&& given[i].y == pictures[i].y@
                &&& given[i].u == pictures[i].u@
                &&& given[i].v == pictures[i].v@
                &&& given[i].y_stride == pictures[i].y_stride
                &&& given[i].u_stride == pictures[i].u_stride
                &&& given[i].v_stride == pictures[i].v_stride
            }
        }),
{
    let session = started(wanted, width, height);
    law_every_picture_is_shown(wanted, width, height, events);
    lemma_presented(session, events);
    let seen = all_shown(session, events);
    if 0 <= i < seen.len() {
        assert(seen[i] == all_taken(events)[i]);
        assert(spreads(seen)[i] == seen[i].spread());
    }
}

/// The thread that decodes goes on as it should: it opens the decoder, reads, and
/// decodes what was read, however much it was; all that can be shown of what was
/// decoded goes to the mailbox, and the thread reads on. It ends where the video
/// does, and where something fails, and says why.
pub proof fn law_thread_goes_on(
    thread: DecodeLoop,
    why: String,
    n: usize,
    frames: Vec<DecodedFrame>,
)
    ensures
        thread.after(DecodeNews::Opened(Ok(()))).step is Read,
        thread.after(DecodeNews::Opened(Err(why))).step is End,
        thread.after(DecodeNews::Opened(Err(why))).end == Some(DecodeEnd::NoDecoder(why)),
        n > 0 ==> thread.after(DecodeNews::Read(Ok(n))).step == DecodeStep::Push(n),
        thread.after(DecodeNews::Read(Ok(0))).step is End,
        thread.after(DecodeNews::Read(Ok(0))).end == Some(DecodeEnd::StreamEnded),
        thread.after(DecodeNews::Read(Err(why))).step is End,
        thread.after(DecodeNews::Read(Err(why))).end == Some(DecodeEnd::ReadFailed(why)),
        thread.after(DecodeNews::Decoded(Ok(frames))).step is Read,
        thread.after(DecodeNews::Decoded(Ok(frames))).end is None,
        thread.after(DecodeNews::Decoded(Err(why))).step is End,
        thread.after(DecodeNews::Decoded(Err(why))).end == Some(DecodeEnd::DecodeFailed(why)),
        DecodeLoop::yields(DecodeNews::Decoded(Ok(frames))) == frame::pictures(frames@),
        DecodeLoop::yields(DecodeNews::Decoded(Err(why))).len() == 0,
        DecodeLoop::yields(DecodeNews::Opened(Ok(()))).len() == 0,
        DecodeLoop::yields(DecodeNews::Read(Ok(n))).len() == 0,
        DecodeLoop::going_on(DecodeStep::Open).step is Open,
        thread.accepts(DecodeNews::Opened(Ok(()))) <==> thread.step is Open,
        thread.accepts(DecodeNews::Opened(Err(why))) <==> thread.step is Open,
        thread.accepts(DecodeNews::Read(Ok(n))) <==> thread.step is Read,
        thread.accepts(DecodeNews::Read(Err(why))) <==> thread.step is Read,
        thread.accepts(DecodeNews::Decoded(Ok(frames))) <==> thread.step is Push,
        thread.accepts(DecodeNews::Decoded(Err(why))) <==> thread.step is Push,
{
}

/// What a session was given and what it did is seen whole.
pub proof fn law_session_is_seen_whole(session: Mirror)
    ensures
        session@.wanted == match session.wanted {
            Some(serial) => Some(serial@),
            None => None,
        },
        session@.width == session.width,
        session@.height == session.height,
        session@.phase == session.phase,
        session@.serial == session.serial@,
        session@.texture == session.texture,
        session@.picture == session.picture,
        session@.failure == match session.failure {
            Some(f) => Some(FailureView { at: f.at, cause: f.cause@ }),
            None => None,
        },
{
}

} // verus!
