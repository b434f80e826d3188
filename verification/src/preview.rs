//! Extend mode without a device: the display is captured and encoded, and what
//! was encoded is decoded again and shown in a window of the host.
use crate::failure;
use crate::failure::{Failure, FailureView};
use crate::frame;
use crate::frame::{DecodedFrame, FrameBuf, PlanesView, YuvPlanes};
use crate::render;
use crate::mirror;
use crate::screencap::EncodedPacket;
use vstd::prelude::*;
use vstd::string::*;

verus! {

/// The title of the window.
pub const PREVIEW_TITLE: &'static str = "USB Display Bridge -- extend preview";

/// What the session is doing.
#[derive(Debug, Clone, Copy, PartialEq, Eq, Structural)]
pub enum PreviewPhase {
    /// Starting the capture.
    Starting,
    /// Opening the decoder.
    Preparing,
    /// Asking for packets until there is a first frame.
    Priming,
    /// Decoding such a packet.
    PrimingDecode,
    /// Opening a window of the size of the first frame.
    Opening,
    /// Making the first texture.
    FirstTexture,
    /// Looking for events of the window.
    Polling,
    /// Asking for a packet.
    Pulling,
    /// Decoding it.
    Decoding,
    /// Making a texture for the size of a picture.
    Texturing,
    /// Showing a picture.
    Presenting,
    /// Nothing any more.
    Finished,
}

/// What is to be done next.
pub enum PreviewAction<'a> {
    /// Start the capture of this display, at so many frames in a second.
    StartCapture { output_idx: u32, framerate: u32 },
    /// Open the decoder.
    OpenDecoder,
    /// Ask the capture for a packet.
    NextPacket,
    /// Decode these bytes.
    Decode(&'a [u8]),
    /// Open a window.
    OpenWindow { title: &'static str, width: u32, height: u32 },
    /// Make a texture of this size, in place of the one there is.
    NewTexture { width: u32, height: u32 },
    /// See whether the window should close.
    Poll,
    /// Show a picture.
    Present(YuvPlanes<'a>),
    /// Nothing: the session is over.
    Finish,
}

/// The contents of a [`PreviewAction`].
pub enum PreviewAsk {
    StartCapture { output_idx: u32, framerate: u32 },
    OpenDecoder,
    NextPacket,
    Decode(Seq<u8>),
    OpenWindow { title: Seq<char>, width: u32, height: u32 },
    NewTexture { width: u32, height: u32 },
    Poll,
    Present(PlanesView),
    Finish,
}

impl View for PreviewAction<'_> {
    type V = PreviewAsk;

    open spec fn view(&self) -> PreviewAsk {
        match *self {
            PreviewAction::StartCapture { output_idx, framerate } => PreviewAsk::StartCapture {
                output_idx,
                framerate,
            },
            PreviewAction::OpenDecoder => PreviewAsk::OpenDecoder,
            PreviewAction::NextPacket => PreviewAsk::NextPacket,
            PreviewAction::Decode(bytes) => PreviewAsk::Decode(bytes@),
            PreviewAction::OpenWindow { title, width, height } => PreviewAsk::OpenWindow {
                title: title@,
                width,
                height,
            },
            PreviewAction::NewTexture { width, height } => PreviewAsk::NewTexture {
                width,
                height,
            },
            PreviewAction::Poll => PreviewAsk::Poll,
            PreviewAction::Present(planes) => PreviewAsk::Present(planes@),
            PreviewAction::Finish => PreviewAsk::Finish,
        }
    }
}

/// What came of an action.
pub enum PreviewEvent {
    /// The action succeeded, or failed for the cause given.
    Done(Result<(), String>),
    /// The capture produced a packet, or none this time, or failed.
    Pulled(Result<Option<EncodedPacket>, String>),
    /// These frames were decoded, or decoding failed.
    Decoded(Result<Vec<DecodedFrame>, String>),
    /// The window should close, or should not.
    Polled(bool),
}

/// The course of a session.
pub struct ExtendPreview {
    /// The display that is captured.
    pub output_idx: u32,
    /// How many frames are captured in a second.
    pub framerate: u32,
    pub phase: PreviewPhase,
    /// The bytes that are being decoded.
    pub packet: Vec<u8>,
    /// The first frame, until it is shown.
    pub first: Option<DecodedFrame>,
    /// The frames that were decoded and are still to be shown.
    pub queue: Vec<DecodedFrame>,
    /// The picture that is being shown.
    pub picture: Option<FrameBuf>,
    /// The size of the texture, once there is one.
    pub texture: Option<(u32, u32)>,
    /// Why the session failed, if it did.
    pub failure: Option<Failure<PreviewPhase>>,
}

/// The contents of an [`ExtendPreview`].
pub struct PreviewView {
    pub output_idx: u32,
    pub framerate: u32,
    pub phase: PreviewPhase,
    pub packet: Seq<u8>,
    pub first: Option<DecodedFrame>,
    pub queue: Seq<DecodedFrame>,
    pub picture: Option<FrameBuf>,
    pub texture: Option<(u32, u32)>,
    pub failure: Option<FailureView<PreviewPhase>>,
}

impl View for ExtendPreview {
    type V = PreviewView;

    open spec fn view(&self) -> PreviewView {
        PreviewView {
            output_idx: self.output_idx,
            framerate: self.framerate,
            phase: self.phase,
            packet: self.packet@,
            first: self.first,
            queue: self.queue@,
            picture: self.picture,
            texture: self.texture,
            failure: failure::failed(self.failure),
        }
    }
}

/// What is said before the cause of a failure.
pub open spec fn context(phase: PreviewPhase) -> Seq<char> {
    match phase {
        PreviewPhase::Starting => "starting display capture: "@,
        PreviewPhase::Preparing => "opening H.264 decoder: "@,
        _ => ""@,
    }
}

impl PreviewView {
    /// The session as it goes on in another phase.
    pub open spec fn in_phase(self, phase: PreviewPhase) -> PreviewView {
        PreviewView { phase, ..self }
    }

    /// The session has failed.
    pub open spec fn failing(self, cause: Seq<char>) -> PreviewView {
        PreviewView {
            phase: PreviewPhase::Finished,
            failure: Some(FailureView { at: self.phase, cause: context(self.phase) + cause }),
            ..self
        }
    }

    /// The session as it goes on to show `picture`.
    pub open spec fn showing(self, picture: FrameBuf) -> PreviewView {
        PreviewView {
            phase: if self.texture == Some((picture.width, picture.height)) {
                PreviewPhase::Presenting
            } else {
                PreviewPhase::Texturing
            },
            picture: Some(picture),
            ..self
        }
    }

    /// The session as it goes on to the next frame of its queue, and back to the
    /// window's events if there is none. A frame that cannot be shown fails it.
    pub open spec fn next_in_queue(self) -> PreviewView {
        let idle = PreviewView { picture: None, ..self };
        if self.queue.len() == 0 {
            idle.in_phase(PreviewPhase::Polling)
        } else {
            let rest = PreviewView { queue: self.queue.skip(1), ..idle };
            match self.queue[0].format {
                frame::PixelFormat::Yuv420p => rest.showing(frame::picture(self.queue[0])),
                frame::PixelFormat::Other(name) => rest.failing(
                    frame::WrongFormat { format: name }.words(),
                ),
            }
        }
    }

    /// The session after the first texture was made: the first frame is shown,
    /// unless it cannot be.
    pub open spec fn first_shown(self) -> PreviewView {
        let first = self.first->0;
        let ready = PreviewView {
            first: None,
            texture: Some((first.width, first.height)),
            ..self
        };
        match first.format {
            frame::PixelFormat::Yuv420p => ready.showing(frame::picture(first)),
            frame::PixelFormat::Other(name) => ready.failing(
                frame::WrongFormat { format: name }.words(),
            ),
        }
    }

    /// The session after an action succeeded.
    pub open spec fn done(self) -> PreviewView {
        match self.phase {
            PreviewPhase::Starting => self.in_phase(PreviewPhase::Preparing),
            PreviewPhase::Preparing => self.in_phase(PreviewPhase::Priming),
            PreviewPhase::Opening => self.in_phase(PreviewPhase::FirstTexture),
            PreviewPhase::FirstTexture => self.first_shown(),
            PreviewPhase::Texturing => PreviewView {
                phase: PreviewPhase::Presenting,
                texture: Some((self.picture->0.width, self.picture->0.height)),
                ..self
            },
            PreviewPhase::Presenting => self.next_in_queue(),
            _ => self,
        }
    }

    /// The session after the capture was asked for a packet. Without one it asks
    /// again, and looks for events first once the window is open.
    pub open spec fn pulled(self, got: Result<Option<EncodedPacket>, String>) -> PreviewView {
        match got {
            Err(why) => self.failing(why@),
            Ok(None) => self.in_phase(
                if self.phase is Priming {
                    PreviewPhase::Priming
                } else {
                    PreviewPhase::Polling
                },
            ),
            Ok(Some(packet)) => PreviewView {
                phase: if self.phase is Priming {
                    PreviewPhase::PrimingDecode
                } else {
                    PreviewPhase::Decoding
                },
                packet: packet.data@,
                ..self
            },
        }
    }

    /// The session after a packet was decoded. Of the frames that come first only
    /// the very first is shown; later ones are shown in order.
    pub open spec fn decoded(self, got: Result<Vec<DecodedFrame>, String>) -> PreviewView {
        match got {
            Err(why) => self.failing(why@),
            Ok(frames) => if self.phase is PrimingDecode {
                if frames@.len() == 0 {
                    self.in_phase(PreviewPhase::Priming)
                } else {
                    PreviewView { phase: PreviewPhase::Opening, first: Some(frames@[0]), ..self }
                }
            } else {
                PreviewView { queue: frames@, ..self }.next_in_queue()
            },
        }
    }

    /// The session after `event`.
    pub open spec fn after(self, event: PreviewEvent) -> PreviewView {
        match event {
            PreviewEvent::Done(Ok(_)) => self.done(),
            PreviewEvent::Done(Err(why)) => self.failing(why@),
            PreviewEvent::Pulled(got) => self.pulled(got),
            PreviewEvent::Decoded(got) => self.decoded(got),
            PreviewEvent::Polled(quit) => self.in_phase(
                if quit {
                    PreviewPhase::Finished
                } else {
                    PreviewPhase::Pulling
                },
            ),
        }
    }

    /// What the session asks for next.
    pub open spec fn asks(self) -> PreviewAsk {
        match self.phase {
            PreviewPhase::Starting => PreviewAsk::StartCapture {
                output_idx: self.output_idx,
                framerate: self.framerate,
            },
            PreviewPhase::Preparing => PreviewAsk::OpenDecoder,
            PreviewPhase::Priming | PreviewPhase::Pulling => PreviewAsk::NextPacket,
            PreviewPhase::PrimingDecode | PreviewPhase::Decoding => PreviewAsk::Decode(
                self.packet,
            ),
            PreviewPhase::Opening => PreviewAsk::OpenWindow {
                title: PREVIEW_TITLE@,
                width: self.first->0.width,
                height: self.first->0.height,
            },
            PreviewPhase::FirstTexture => PreviewAsk::NewTexture {
                width: self.first->0.width,
                height: self.first->0.height,
            },
            PreviewPhase::Texturing => PreviewAsk::NewTexture {
                width: self.picture->0.width,
                height: self.picture->0.height,
            },
            PreviewPhase::Polling => PreviewAsk::Poll,
            PreviewPhase::Presenting => PreviewAsk::Present(self.picture->0.spread()),
            PreviewPhase::Finished => PreviewAsk::Finish,
        }
    }

    /// `event` answers what is to be done now.
    pub open spec fn accepts(self, event: PreviewEvent) -> bool {
        match event {
            PreviewEvent::Pulled(_) => self.phase is Priming || self.phase is Pulling,
            PreviewEvent::Decoded(_) => self.phase is PrimingDecode || self.phase is Decoding,
            PreviewEvent::Polled(_) => self.phase is Polling,
            PreviewEvent::Done(_) => {
                ||| self.phase is Starting
                ||| self.phase is Preparing
                ||| self.phase is Opening
                ||| self.phase is FirstTexture
                ||| self.phase is Texturing
                ||| self.phase is Presenting
            },
        }
    }

    /// The session after `events`.
    pub open spec fn after_all(self, events: Seq<PreviewEvent>) -> PreviewView
        decreases events.len(),
    {
        if events.len() == 0 {
            self
        } else {
            self.after_all(events.drop_last()).after(events.last())
        }
    }

    /// Each of `events` answers what is to be done when it happens.
    pub open spec fn accepts_all(self, events: Seq<PreviewEvent>) -> bool
        decreases events.len(),
    {
        events.len() > 0 ==> self.accepts_all(events.drop_last()) && self.after_all(
            events.drop_last(),
        ).accepts(events.last())
    }

    /// The first frame is there while the window is made for it. A picture is
    /// there while one is being shown, and it is shown in a texture of its size.
    /// Frames only wait while a picture is being shown. A session that has failed
    /// is over.
    pub open spec fn wf(self) -> bool {
        &&& self.phase is Opening || self.phase is FirstTexture ==> self.first is Some
        &&& self.phase is Texturing || self.phase is Presenting ==> self.picture is Some
        &&& self.phase is Presenting ==> self.texture == Some(
            (self.picture->0.width, self.picture->0.height),
        )
        &&& self.queue.len() > 0 ==> self.phase is Texturing || self.phase is Presenting
            || self.phase is Finished
        &&& self.failure is Some ==> self.phase is Finished
    }
}

/// A session before anything was done.
pub open spec fn started(output_idx: u32, framerate: u32) -> PreviewView {
    PreviewView {
        output_idx,
        framerate,
        phase: PreviewPhase::Starting,
        packet: seq![],
        first: None,
        queue: seq![],
        picture: None,
        texture: None,
        failure: None,
    }
}

impl ExtendPreview {
    /// A session that shows the display `output_idx` at `framerate` frames in a
    /// second, and has not started anything yet.
    pub fn new(output_idx: u32, framerate: u32) -> (session: ExtendPreview)
        ensures
            session@ == started(output_idx, framerate),
            session@.wf(),
    {
        let session: ExtendPreview = ExtendPreview {
            output_idx,
            framerate,
            phase: PreviewPhase::Starting,
            packet: Vec::new(),
            first: None,
            queue: Vec::new(),
            picture: None,
            texture: None,
            failure: None,
        };
        assert(session@.packet == Seq::<u8>::empty());
        assert(session@.queue == Seq::<DecodedFrame>::empty());
        session
    }

    /// What is to be done next.
    pub fn action(&self) -> (action: PreviewAction<'_>)
        requires
            self@.wf(),
        ensures
            match self.phase {
                PreviewPhase::Starting => action == (PreviewAction::StartCapture {
                    output_idx: self.output_idx,
                    framerate: self.framerate,
                }),
                PreviewPhase::Preparing => action == PreviewAction::OpenDecoder,
                PreviewPhase::Priming | PreviewPhase::Pulling =>
                    action == PreviewAction::NextPacket,
                PreviewPhase::PrimingDecode | PreviewPhase::Decoding =>
                    action matches PreviewAction::Decode(bytes) && bytes@ == self.packet@,
                PreviewPhase::Opening => action == (PreviewAction::OpenWindow {
                    title: PREVIEW_TITLE,
                    width: self.first->0.width,
                    height: self.first->0.height,
                }),
                PreviewPhase::FirstTexture => action == (PreviewAction::NewTexture {
                    width: self.first->0.width,
                    height: self.first->0.height,
                }),
                PreviewPhase::Texturing => action == (PreviewAction::NewTexture {
                    width: self.picture->0.width,
                    height: self.picture->0.height,
                }),
                PreviewPhase::Polling => action == PreviewAction::Poll,
                PreviewPhase::Presenting => action matches PreviewAction::Present(planes)
                    && frame::planes_of(self.picture->0, planes),
                PreviewPhase::Finished => action == PreviewAction::Finish,
            },
            action@ == self@.asks(),
    {
        match self.phase {
            PreviewPhase::Starting => PreviewAction::StartCapture {
                output_idx: self.output_idx,
                framerate: self.framerate,
            },
            PreviewPhase::Preparing => PreviewAction::OpenDecoder,
            PreviewPhase::Priming | PreviewPhase::Pulling => PreviewAction::NextPacket,
            PreviewPhase::PrimingDecode | PreviewPhase::Decoding => PreviewAction::Decode(
                self.packet.as_slice(),
            ),
            PreviewPhase::Opening => match &self.first {
                Some(first) => PreviewAction::OpenWindow {
                    title: PREVIEW_TITLE,
                    width: first.width,
                    height: first.height,
                },
                None => vstd::pervasive::unreached(),
            },
            PreviewPhase::FirstTexture => match &self.first {
                Some(first) => PreviewAction::NewTexture {
                    width: first.width,
                    height: first.height,
                },
                None => vstd::pervasive::unreached(),
            },
            PreviewPhase::Texturing => match &self.picture {
                Some(picture) => PreviewAction::NewTexture {
                    width: picture.width,
                    height: picture.height,
                },
                None => vstd::pervasive::unreached(),
            },
            PreviewPhase::Polling => PreviewAction::Poll,
            PreviewPhase::Presenting => match &self.picture {
                Some(picture) => PreviewAction::Present(picture.planes()),
                None => vstd::pervasive::unreached(),
            },
            PreviewPhase::Finished => PreviewAction::Finish,
        }
    }

    /// The session has failed.
    fn fail(&mut self, cause: String)
        ensures
            final(self)@ == old(self)@.failing(cause@),
    {
        let at: PreviewPhase = self.phase;
        let context: String = match at {
            PreviewPhase::Starting => "starting display capture: ".to_owned(),
            PreviewPhase::Preparing => "opening H.264 decoder: ".to_owned(),
            _ => "".to_owned(),
        };
        self.failure = Some(Failure { at, cause: context.concat(cause.as_str()) });
        self.phase = PreviewPhase::Finished;
    }

    /// Go on to show `picture`.
    fn show(&mut self, picture: FrameBuf)
        ensures
            final(self)@ == old(self)@.showing(picture),
    {
        self.phase = if render::needs_texture(self.texture, picture.width, picture.height) {
            PreviewPhase::Texturing
        } else {
            PreviewPhase::Presenting
        };
        self.picture = Some(picture);
    }

    /// Go on to the next frame of the queue.
    fn take_next(&mut self)
        ensures
            final(self)@ == old(self)@.next_in_queue(),
    {
        self.picture = None;
        if self.queue.len() == 0 {
            self.phase = PreviewPhase::Polling;
        } else {
            let ghost before = self.queue@;
            let next: DecodedFrame = self.queue.remove(0);
            assert(self.queue@ == before.skip(1));
            match FrameBuf::from_yuv420p(next) {
                Ok(picture) => self.show(picture),
                Err(e) => self.fail(e.message()),
            }
        }
    }

    /// Go on after an action succeeded.
    fn take_success(&mut self)
        requires
            old(self)@.wf(),
        ensures
            final(self)@ == old(self)@.done(),
    {
        match self.phase {
            PreviewPhase::Starting => {
                self.phase = PreviewPhase::Preparing;
            },
            PreviewPhase::Preparing => {
                self.phase = PreviewPhase::Priming;
            },
            PreviewPhase::Opening => {
                self.phase = PreviewPhase::FirstTexture;
            },
            PreviewPhase::FirstTexture => match self.first.take() {
                Some(first) => {
                    self.texture = Some((first.width, first.height));
                    match FrameBuf::from_yuv420p(first) {
                        Ok(picture) => self.show(picture),
                        Err(e) => self.fail(e.message()),
                    }
                },
                None => vstd::pervasive::unreached(),
            },
            PreviewPhase::Texturing => {
                self.texture = match &self.picture {
                    Some(picture) => Some((picture.width, picture.height)),
                    None => vstd::pervasive::unreached(),
                };
                self.phase = PreviewPhase::Presenting;
            },
            PreviewPhase::Presenting => self.take_next(),
            _ => {},
        }
    }

    /// Go on after the capture was asked for a packet.
    fn take_packet(&mut self, got: Result<Option<EncodedPacket>, String>)
        ensures
            final(self)@ == old(self)@.pulled(got),
    {
        let priming: bool = self.phase == PreviewPhase::Priming;
        match got {
            Err(why) => self.fail(why),
            Ok(None) => {
                self.phase = if priming {
                    PreviewPhase::Priming
                } else {
                    PreviewPhase::Polling
                };
            },
            Ok(Some(packet)) => {
                self.packet = packet.data;
                self.phase = if priming {
                    PreviewPhase::PrimingDecode
                } else {
                    PreviewPhase::Decoding
                };
            },
        }
    }

    /// Go on after a packet was decoded.
    fn take_frames(&mut self, got: Result<Vec<DecodedFrame>, String>)
        ensures
            final(self)@ == old(self)@.decoded(got),
    {
        match got {
            Err(why) => self.fail(why),
            Ok(frames) => {
                if self.phase == PreviewPhase::PrimingDecode {
                    let mut frames: Vec<DecodedFrame> = frames;
                    if frames.len() == 0 {
                        self.phase = PreviewPhase::Priming;
                    } else {
                        self.first = Some(frames.swap_remove(0));
                        self.phase = PreviewPhase::Opening;
                    }
                } else {
                    self.queue = frames;
                    self.take_next();
                }
            },
        }
    }

    /// Go on after `event`.
    pub fn advance(&mut self, event: PreviewEvent)
        requires
            old(self)@.wf(),
            old(self)@.accepts(event),
        ensures
            final(self)@ == old(self)@.after(event),
            final(self)@.wf(),
    {
        match event {
            PreviewEvent::Done(Ok(_)) => self.take_success(),
            PreviewEvent::Done(Err(why)) => self.fail(why),
            PreviewEvent::Pulled(got) => self.take_packet(got),
            PreviewEvent::Decoded(got) => self.take_frames(got),
            PreviewEvent::Polled(quit) => {
                self.phase = if quit {
                    PreviewPhase::Finished
                } else {
                    PreviewPhase::Pulling
                };
            },
        }
    }
}

/// The pictures that an event brings to be shown.
pub open spec fn brought(session: PreviewView, event: PreviewEvent) -> Seq<DecodedFrame> {
    match event {
        PreviewEvent::Decoded(Ok(frames)) => if session.phase is PrimingDecode {
            frames@.take(if frames@.len() == 0 {
                0
            } else {
                1
            })
        } else {
            frames@
        },
        _ => seq![],
    }
}

/// The frames that `events` bring to be shown: the first there is, and all that
/// come after the packet it came with.
pub open spec fn all_brought(session: PreviewView, events: Seq<PreviewEvent>) -> Seq<DecodedFrame>
    decreases events.len(),
{
    if events.len() == 0 {
        seq![]
    } else {
        all_brought(session, events.drop_last()) + brought(
            session.after_all(events.drop_last()),
            events.last(),
        )
    }
}

/// The picture that was shown in an event.
pub open spec fn shown(session: PreviewView, event: PreviewEvent) -> Seq<FrameBuf> {
    match event {
        PreviewEvent::Done(Ok(_)) => if session.phase is Presenting {
            seq![session.picture->0]
        } else {
            seq![]
        },
        _ => seq![],
    }
}

/// The pictures that were shown in the course of `events`.
pub open spec fn all_shown(session: PreviewView, events: Seq<PreviewEvent>) -> Seq<FrameBuf>
    decreases events.len(),
{
    if events.len() == 0 {
        seq![]
    } else {
        all_shown(session, events.drop_last()) + shown(
            session.after_all(events.drop_last()),
            events.last(),
        )
    }
}

/// The pictures in frames.
pub open spec fn pictures_in(frames: Seq<DecodedFrame>) -> Seq<FrameBuf> {
    frames.map_values(|f: DecodedFrame| frame::picture(f))
}

/// The pictures that are still to be shown.
pub open spec fn pending(session: PreviewView) -> Seq<FrameBuf> {
    if session.phase is Opening || session.phase is FirstTexture {
        seq![frame::picture(session.first->0)]
    } else if session.phase is Texturing || session.phase is Presenting {
        seq![session.picture->0] + pictures_in(session.queue)
    } else {
        seq![]
    }
}

/// One event keeps what is shown in step with what was decoded.
proof fn lemma_shown(session: PreviewView, event: PreviewEvent)
    requires
        session.wf(),
        session.accepts(event),
        session.after(event).failure is None,
    ensures
        session.after(event).wf(),
        shown(session, event) + pending(session.after(event)) == pending(session) + pictures_in(
            brought(session, event),
        ),
{
    let next = session.after(event);
    let new = brought(session, event);
    let none: Seq<DecodedFrame> = seq![];
    assert(pictures_in(none) == Seq::<FrameBuf>::empty());
    if session.queue.len() == 0 {
        assert(session.queue == none);
    }
    match event {
        PreviewEvent::Decoded(Ok(frames)) => {
            if session.phase is PrimingDecode {
                if frames@.len() > 0 {
                    assert(pictures_in(new) == seq![frame::picture(frames@[0])]);
                }
            } else if frames@.len() > 0 {
                assert(pictures_in(frames@) == seq![frame::picture(frames@[0])] + pictures_in(
                    frames@.skip(1),
                ));
            }
        },
        PreviewEvent::Done(Ok(_)) => {
            if session.phase is Presenting && session.queue.len() > 0 {
                assert(pictures_in(session.queue) == seq![frame::picture(session.queue[0])]
                    + pictures_in(session.queue.skip(1)));
            }
        },
        _ => {},
    }
    assert(shown(session, event) + pending(next) =~= pending(session) + pictures_in(new));
}

/// Every frame that is decoded, from the first on, is shown, in order and once:
/// as long as a session has not failed, what was shown and what is still to be
/// shown make up what was decoded.
pub proof fn law_every_frame_is_shown(output_idx: u32, framerate: u32, events: Seq<PreviewEvent>)
    requires
        started(output_idx, framerate).accepts_all(events),
        started(output_idx, framerate).after_all(events).failure is None,
    ensures
        started(output_idx, framerate).after_all(events).wf(),
        all_shown(started(output_idx, framerate), events) + pending(started(output_idx, framerate).after_all(events)) == pictures_in(
            all_brought(started(output_idx, framerate), events),
        ),
    decreases events.len(),
{
    let none: Seq<FrameBuf> = seq![];
    if events.len() == 0 {
        assert(pictures_in(all_brought(started(output_idx, framerate), events)) == none);
    } else {
        let front = events.drop_last();
        let before = started(output_idx, framerate).after_all(front);
        if before.failure is Some {
            lemma_failure_stays(output_idx, framerate, front, events.last());
        }
        law_every_frame_is_shown(output_idx, framerate, front);
        lemma_shown(before, events.last());
        let old_frames = all_brought(started(output_idx, framerate), front);
        let new_frames = brought(before, events.last());
        assert(pictures_in(old_frames + new_frames) == pictures_in(old_frames) + pictures_in(
            new_frames,
        ));
        let a = all_shown(started(output_idx, framerate), front);
        let b = shown(before, events.last());
        let p = pending(before.after(events.last()));
        assert((a + b) + p == a + (b + p));
        assert(a + (pending(before) + pictures_in(new_frames)) == (a + pending(before))
            + pictures_in(new_frames));
    }
}

/// A session that has failed is over.
proof fn lemma_failure_stays(
    output_idx: u32,
    framerate: u32,
    front: Seq<PreviewEvent>,
    event: PreviewEvent,
)
    requires
        started(output_idx, framerate).accepts_all(front),
        started(output_idx, framerate).after_all(front).failure is Some,
    ensures
        !started(output_idx, framerate).after_all(front).accepts(event),
{
    lemma_wf(output_idx, framerate, front);
}

/// A session stays well-formed.
proof fn lemma_wf(output_idx: u32, framerate: u32, events: Seq<PreviewEvent>)
    requires
        started(output_idx, framerate).accepts_all(events),
    ensures
        started(output_idx, framerate).after_all(events).wf(),
    decreases events.len(),
{
    if events.len() > 0 {
        lemma_wf(output_idx, framerate, events.drop_last());
    }
}

/// The frames that `events` bring to be shown: of the first batch that holds any its
/// first, and all that come in later batches.
pub open spec fn to_be_shown(events: Seq<PreviewEvent>) -> Seq<DecodedFrame>
    decreases events.len(),
{
    if events.len() == 0 {
        seq![]
    } else {
        let before = to_be_shown(events.drop_last());
        match events.last() {
            PreviewEvent::Decoded(Ok(frames)) => if before.len() == 0 && frames@.len() > 0 {
                seq![frames@[0]]
            } else {
                before + frames@
            },
            _ => before,
        }
    }
}

/// A session is still without a frame exactly as long as none was brought.
proof fn lemma_brought(output_idx: u32, framerate: u32, events: Seq<PreviewEvent>)
    requires
        started(output_idx, framerate).accepts_all(events),
    ensures
        all_brought(started(output_idx, framerate), events) == to_be_shown(events),
        ({
            let end = started(output_idx, framerate).after_all(events);
            let early = end.phase is Starting || end.phase is Preparing || end.phase is Priming
                || end.phase is PrimingDecode;
            &&& early ==> to_be_shown(events).len() == 0
            &&& !early && !(end.phase is Finished) ==> to_be_shown(events).len() > 0
        }),
    decreases events.len(),
{
    let session = started(output_idx, framerate);
    if events.len() > 0 {
        let front = events.drop_last();
        lemma_brought(output_idx, framerate, front);
        lemma_wf(output_idx, framerate, front);
        let before = to_be_shown(front);
        match events.last() {
            PreviewEvent::Decoded(Ok(frames)) => {
                if session.after_all(front).phase is PrimingDecode {
                    if frames@.len() > 0 {
                        assert(before == Seq::<DecodedFrame>::empty());
                        assert(before + frames@.take(1) == seq![frames@[0]]);
                    } else {
                        assert(before + frames@.take(0) == before);
                        assert(before + frames@ == before);
                    }
                }
            },
            _ => {
                let none: Seq<DecodedFrame> = seq![];
                assert(before + none == before);
            },
        }
    }
}

/// What was presented in an event.
pub open spec fn presented(session: PreviewView, event: PreviewEvent) -> Seq<PlanesView> {
    match (event, session.asks()) {
        (PreviewEvent::Done(Ok(_)), PreviewAsk::Present(planes)) => seq![planes],
        _ => seq![],
    }
}

/// What was presented in the course of `events`.
pub open spec fn all_presented(session: PreviewView, events: Seq<PreviewEvent>) -> Seq<PlanesView>
    decreases events.len(),
{
    if events.len() == 0 {
        seq![]
    } else {
        all_presented(session, events.drop_last()) + presented(
            session.after_all(events.drop_last()),
            events.last(),
        )
    }
}

/// What was presented is what was shown.
proof fn lemma_presented(session: PreviewView, events: Seq<PreviewEvent>)
    ensures
        all_presented(session, events) == mirror::spreads(all_shown(session, events)),
    decreases events.len(),
{
    if events.len() > 0 {
        let front = events.drop_last();
        lemma_presented(session, front);
        let before = session.after_all(front);
        let new = shown(before, events.last());
        let old_shown = all_shown(session, front);
        assert(presented(before, events.last()) == mirror::spreads(new));
        assert(mirror::spreads(old_shown + new) == mirror::spreads(old_shown) + mirror::spreads(
            new,
        ));
    }
}

/// The window is handed every frame that is decoded, from the first on, in order and
/// once, just as the decoder laid it out, strides and all: whenever the session looks
/// for events, all that were decoded have been presented.
pub proof fn law_window_shows_what_is_decoded(
    output_idx: u32,
    framerate: u32,
    events: Seq<PreviewEvent>,
    i: int,
)
    requires
        started(output_idx, framerate).accepts_all(events),
        started(output_idx, framerate).after_all(events).failure is None,
    ensures
        ({
            let session = started(output_idx, framerate);
            let end = session.after_all(events);
            let given = all_presented(session, events);
            let frames = to_be_shown(events);
            &&& given.len() <= frames.len()
            &&& end.asks() is Poll ==> given.len() == frames.len()
            &&& 0 <= i < given.len() ==> {
                &&& given[i].y == frames[i].y.data@
                &&& given[i].u == frames[i].u.data@
                &&& given[i].v == frames[i].v.data@
                &&& given[i].y_stride == frames[i].y.stride
                &&& given[i].u_stride == frames[i].u.stride
                &&& given[i].v_stride == frames[i].v.stride
            }
        }),
{
    let session = started(output_idx, framerate);
    law_every_frame_is_shown(output_idx, framerate, events);
    lemma_brought(output_idx, framerate, events);
    lemma_presented(session, events);
    let seen = all_shown(session, events);
    let frames = to_be_shown(events);
    let all = pictures_in(frames);
    assert(all == seen + pending(session.after_all(events)));
    if 0 <= i < seen.len() {
        assert(seen[i] == all[i]);
        assert(all[i] == frame::picture(frames[i]));
        assert(mirror::spreads(seen)[i] == seen[i].spread());
    }
}

/// A session that has failed is over, and says why.
pub open spec fn is_over(session: PreviewView, cause: Seq<char>) -> bool {
    session.asks() is Finish && session.failure is Some && session.failure->Some_0.cause == cause
}

/// A session sets out as it should: it starts the capture that was asked for, opens
/// the decoder, and asks for packets and decodes them until there is a first frame.
/// It opens a window and makes a texture of that frame's size and shows it. Where a
/// step fails, the session is over and says which and why.
#[verifier::rlimit(40)]
#[verifier::spinoff_prover]
pub proof fn law_session_sets_out(
    output_idx: u32,
    framerate: u32,
    packet: EncodedPacket,
    empty: Vec<DecodedFrame>,
    frames: Vec<DecodedFrame>,
    why: String,
)
    requires
        empty@.len() == 0,
        frames@.len() > 0,
    ensures
        ({
            let done = PreviewEvent::Done(Ok(()));
            let failed = PreviewEvent::Done(Err(why));
            let got = PreviewEvent::Pulled(Ok(Some(packet)));
            let first = frames@[0];
            let s0 = started(output_idx, framerate);
            let s1 = s0.after(done);
            let s2 = s1.after(done);
            let s3 = s2.after(got);
            let s4 = s3.after(PreviewEvent::Decoded(Ok(frames)));
            let s5 = s4.after(done);
            let s6 = s5.after(done);
            let s7 = s6.after(done);
            &&& s0.asks() == (PreviewAsk::StartCapture { output_idx, framerate })
            &&& s1.asks() is OpenDecoder
            &&& s2.asks() is NextPacket
            &&& s2.after(PreviewEvent::Pulled(Ok(None))) == s2
            &&& s3.asks() == PreviewAsk::Decode(packet.data@)
            &&& s3.after(PreviewEvent::Decoded(Ok(empty))).asks() is NextPacket
            &&& s3.after(PreviewEvent::Decoded(Ok(empty))).after(got).after(
                PreviewEvent::Decoded(Ok(frames)),
            ) == s4
            &&& s4.asks() == (PreviewAsk::OpenWindow {
                title: "USB Display Bridge -- extend preview"@,
                width: first.width,
                height: first.height,
            })
            &&& s5.asks() == (PreviewAsk::NewTexture { width: first.width, height: first.height })
            &&& first.format is Yuv420p ==> {
                &&& s6.asks() matches PreviewAsk::Present(planes)
                &&& planes.y == first.y.data@ && planes.y_stride == first.y.stride
                &&& planes.u == first.u.data@ && planes.u_stride == first.u.stride
                &&& planes.v == first.v.data@ && planes.v_stride == first.v.stride
                &&& s7.asks() is Poll
                &&& s7.failure is None
                &&& s7.texture == Some((first.width, first.height))
                &&& is_over(s6.after(failed), why@)
            }
            &&& first.format matches frame::PixelFormat::Other(name) ==> is_over(
                s6,
                "decoded frame is "@ + name@ + ", expected YUV420P -- mirror only handles 4:2:0"@,
            )
            &&& is_over(s0.after(failed), "starting display capture: "@ + why@)
            &&& is_over(s1.after(failed), "opening H.264 decoder: "@ + why@)
            &&& is_over(s2.after(PreviewEvent::Pulled(Err(why))), why@)
            &&& is_over(s3.after(PreviewEvent::Decoded(Err(why))), why@)
            &&& is_over(s4.after(failed), why@)
            &&& is_over(s5.after(failed), why@)
        }),
{
    let done = PreviewEvent::Done(Ok(()));
    let failed = PreviewEvent::Done(Err(why));
    let s0 = started(output_idx, framerate);
    let s1 = s0.after(done);
    let s2 = s1.after(done);
    let s3 = s2.after(PreviewEvent::Pulled(Ok(Some(packet))));
    let s4 = s3.after(PreviewEvent::Decoded(Ok(frames)));
    let s5 = s4.after(done);
    let s6 = s5.after(done);
    reveal_strlit("");
    let f2 = s2.after(PreviewEvent::Pulled(Err(why)));
    assert(f2.failure->Some_0.cause =~= why@);
    let f3 = s3.after(PreviewEvent::Decoded(Err(why)));
    assert(f3.failure->Some_0.cause =~= why@);
    let f4 = s4.after(failed);
    assert(f4.failure->Some_0.cause =~= why@);
    let f5 = s5.after(failed);
    assert(f5.failure->Some_0.cause =~= why@);
    match frames@[0].format {
        frame::PixelFormat::Yuv420p => {
            let f6 = s6.after(failed);
            assert(f6.failure->Some_0.cause =~= why@);
        },
        frame::PixelFormat::Other(name) => {
            assert(s6.failure->Some_0.cause =~= frame::WrongFormat { format: name }.words());
        },
    }
}

/// The session goes round as it should: unless the window should close, which ends
/// the session, a packet is asked for and decoded. Without a packet, and without
/// frames in it, the session looks for events again. Each frame is shown, in a
/// texture of its size, which is made first if the one that is held has another. A
/// frame that cannot be shown ends the session, as does anything that fails, and the
/// cause is told.
#[verifier::rlimit(40)]
#[verifier::spinoff_prover]
pub proof fn law_session_goes_round(
    session: PreviewView,
    packet: EncodedPacket,
    empty: Vec<DecodedFrame>,
    frames: Vec<DecodedFrame>,
    why: String,
)
    requires
        session.wf(),
        session.failure is None,
        session.asks() is Poll,
        empty@.len() == 0,
        frames@.len() > 0,
    ensures
        ({
            let done = PreviewEvent::Done(Ok(()));
            let failed = PreviewEvent::Done(Err(why));
            let first = frames@[0];
            let pulling = session.after(PreviewEvent::Polled(false));
            let decoding = pulling.after(PreviewEvent::Pulled(Ok(Some(packet))));
            let got = decoding.after(PreviewEvent::Decoded(Ok(frames)));
            let kept = session.texture is Some && session.texture->Some_0.0 == first.width
                && session.texture->Some_0.1 == first.height;
            let showing = if kept {
                got
            } else {
                got.after(done)
            };
            &&& session.after(PreviewEvent::Polled(true)).asks() is Finish
            &&& session.after(PreviewEvent::Polled(true)).failure is None
            &&& pulling.asks() is NextPacket
            &&& pulling.after(PreviewEvent::Pulled(Ok(None))) == session
            &&& is_over(pulling.after(PreviewEvent::Pulled(Err(why))), why@)
            &&& decoding.asks() == PreviewAsk::Decode(packet.data@)
            &&& is_over(decoding.after(PreviewEvent::Decoded(Err(why))), why@)
            &&& decoding.after(PreviewEvent::Decoded(Ok(empty))).asks() is Poll
            &&& decoding.after(PreviewEvent::Decoded(Ok(empty))).failure is None
            &&& first.format is Yuv420p ==> {
                &&& !kept ==> got.asks() == (PreviewAsk::NewTexture {
                    width: first.width,
                    height: first.height,
                }) && is_over(got.after(failed), why@)
                &&& showing.asks() matches PreviewAsk::Present(planes)
                &&& planes.y == first.y.data@ && planes.y_stride == first.y.stride
                &&& planes.u == first.u.data@ && planes.u_stride == first.u.stride
                &&& planes.v == first.v.data@ && planes.v_stride == first.v.stride
                &&& showing.texture == Some((first.width, first.height))
                &&& is_over(showing.after(failed), why@)
                &&& frames@.len() == 1 ==> showing.after(done).asks() is Poll
                &&& showing.after(done).failure is Some ==> frames@.len() > 1
                    && frames@[1].format is Other
            }
            &&& first.format matches frame::PixelFormat::Other(name) ==> is_over(
                got,
                "decoded frame is "@ + name@ + ", expected YUV420P -- mirror only handles 4:2:0"@,
            )
        }),
{
    let done = PreviewEvent::Done(Ok(()));
    let failed = PreviewEvent::Done(Err(why));
    let pulling = session.after(PreviewEvent::Polled(false));
    let decoding = pulling.after(PreviewEvent::Pulled(Ok(Some(packet))));
    let got = decoding.after(PreviewEvent::Decoded(Ok(frames)));
    let showing = if got.phase is Texturing {
        got.after(done)
    } else {
        got
    };
    reveal_strlit("");
    let f1 = pulling.after(PreviewEvent::Pulled(Err(why)));
    assert(f1.failure->Some_0.cause =~= why@);
    let f2 = decoding.after(PreviewEvent::Decoded(Err(why)));
    assert(f2.failure->Some_0.cause =~= why@);
    match frames@[0].format {
        frame::PixelFormat::Yuv420p => {
            let f3 = got.after(failed);
            assert(f3.failure->Some_0.cause =~= why@);
            let f4 = showing.after(failed);
            assert(f4.failure->Some_0.cause =~= why@);
        },
        frame::PixelFormat::Other(name) => {
            assert(got.failure->Some_0.cause =~= frame::WrongFormat { format: name }.words());
        },
    }
}

/// A picture is only ever presented in a texture of its size, and a texture is made
/// exactly where the one that is held has another size.
pub proof fn law_texture_fits(session: PreviewView)
    requires
        session.wf(),
    ensures
        session.asks() is Present ==> session.texture == Some(
            (session.picture->0.width, session.picture->0.height),
        ),
        session.asks() is Present && session.queue.len() > 0 && session.queue[0].format
            is Yuv420p ==> ({
            let next = session.after(PreviewEvent::Done(Ok(())));
            let frame = session.queue[0];
            let kept = session.picture->0.width == frame.width && session.picture->0.height
                == frame.height;
            &&& kept ==> next.asks() == PreviewAsk::Present(next.picture->0.spread())
            &&& !kept ==> next.asks() == (PreviewAsk::NewTexture {
                width: frame.width,
                height: frame.height,
            })
            &&& next.picture->0.y == frame.y.data
            &&& next.picture->0.y_stride == frame.y.stride
            &&& next.queue == session.queue.skip(1)
        }),
{
}

/// A session takes every answer to what it asks for, and no other.
pub proof fn law_every_answer_is_taken(session: PreviewView, event: PreviewEvent)
    ensures
        session.accepts(event) <==> match event {
            PreviewEvent::Pulled(_) => session.asks() is NextPacket,
            PreviewEvent::Decoded(_) => session.asks() is Decode,
            PreviewEvent::Polled(_) => session.asks() is Poll,
            PreviewEvent::Done(_) => {
                ||| session.asks() is StartCapture
                ||| session.asks() is OpenDecoder
                ||| session.asks() is OpenWindow
                ||| session.asks() is NewTexture
                ||| session.asks() is Present
            },
        },
{
}

/// What a session was given and what it did is seen whole.
pub proof fn law_session_is_seen_whole(session: ExtendPreview)
    ensures
        session@.output_idx == session.output_idx,
        session@.framerate == session.framerate,
        session@.phase == session.phase,
        session@.packet == session.packet@,
        session@.first == session.first,
        session@.queue == session.queue@,
        session@.picture == session.picture,
        session@.texture == session.texture,
        session@.failure == match session.failure {
            Some(f) => Some(FailureView { at: f.at, cause: f.cause@ }),
            None => None,
        },
{
}

} // verus!
