//! How a display is captured and encoded for extend mode.
//!
//! One call pulls one frame, encodes it and returns the packet, if there is one:
//! nothing is queued, so a slow consumer slows the capture down.
use crate::decode::Received;
use crate::frame::PixelFormat;
use crate::text;
use vstd::prelude::*;
use vstd::string::*;

verus! {

/// An encoded access unit.
pub struct EncodedPacket {
    pub data: Vec<u8>,
    pub keyframe: bool,
}

/// A packet as the encoder hands it out; it may lack data.
pub struct RawPacket {
    pub data: Option<Vec<u8>>,
    pub key: bool,
}

/// One filter of the capture graph: which filter it is, what it is called in the
/// graph, its arguments, and what is said to go wrong if it cannot be added.
pub struct FilterNode {
    pub filter: String,
    pub name: String,
    pub args: String,
    pub adding: String,
}

/// The text of a [`FilterNode`].
pub struct NodeView {
    pub filter: Seq<char>,
    pub name: Seq<char>,
    pub args: Seq<char>,
    pub adding: Seq<char>,
}

impl View for FilterNode {
    type V = NodeView;

    open spec fn view(&self) -> NodeView {
        NodeView {
            filter: self.filter@,
            name: self.name@,
            args: self.args@,
            adding: self.adding@,
        }
    }
}

/// A capture graph: the filters that must be available, in the order in which
/// they are looked up; the nodes, in the order in which they are added; and the
/// links, each from the first output of one node to the first input of another.
pub struct GraphPlan {
    pub required: Vec<String>,
    pub nodes: Vec<FilterNode>,
    pub links: Vec<(usize, usize)>,
}

/// The filters that the capture graph is made of.
pub open spec fn required_filters() -> Seq<Seq<char>> {
    seq!["ddagrab"@, "hwdownload"@, "format"@, "buffersink"@]
}

/// The arguments of the capture filter.
pub open spec fn source_args(output_idx: u32, framerate: u32) -> Seq<char> {
    "output_idx="@ + text::decimal(output_idx as nat) + ":framerate="@ + text::decimal(
        framerate as nat,
    )
}

/// The nodes of the capture graph. The download from the graphics card cannot
/// convert: it must be told the format that the surface has, which is BGRA. The
/// conversion to YUV 4:2:0 follows it.
pub open spec fn graph_nodes(output_idx: u32, framerate: u32) -> Seq<NodeView> {
    seq![
        NodeView {
            filter: "ddagrab"@,
            name: "src"@,
            args: source_args(output_idx, framerate),
            adding: "adding ddagrab source"@,
        },
        NodeView {
            filter: "hwdownload"@,
            name: "hwdl"@,
            args: ""@,
            adding: "adding hwdownload filter"@,
        },
        NodeView {
            filter: "format"@,
            name: "native"@,
            args: "pix_fmts=bgra"@,
            adding: "adding native-format filter"@,
        },
        NodeView {
            filter: "format"@,
            name: "fmt"@,
            args: "pix_fmts=yuv420p"@,
            adding: "adding format filter"@,
        },
        NodeView {
            filter: "buffersink"@,
            name: "sink"@,
            args: ""@,
            adding: "adding buffersink"@,
        },
    ]
}

/// The links of a graph whose `n` nodes form a chain.
pub open spec fn chain(n: nat) -> Seq<(usize, usize)> {
    Seq::new((n - 1) as nat, |i: int| (i as usize, (i + 1) as usize))
}

/// The texts of a list of nodes.
pub open spec fn node_views(nodes: Seq<FilterNode>) -> Seq<NodeView> {
    nodes.map_values(|n: FilterNode| n@)
}

/// `plan` is the capture graph for the display `output_idx`.
pub open spec fn captures(plan: GraphPlan, output_idx: u32, framerate: u32) -> bool {
    &&& text::texts(plan.required@) == required_filters()
    &&& node_views(plan.nodes@) == graph_nodes(output_idx, framerate)
    &&& plan.links@ == chain(5)
}

/// A node of the graph.
fn node(filter: &str, name: &str, args: &str, adding: &str) -> (n: FilterNode)
    ensures
        n@ == (NodeView { filter: filter@, name: name@, args: args@, adding: adding@ }),
{
    FilterNode {
        filter: filter.to_owned(),
        name: name.to_owned(),
        args: args.to_owned(),
        adding: adding.to_owned(),
    }
}

/// The graph that captures the display `output_idx` at `framerate` frames per
/// second, downloads each frame from the graphics card, converts it to YUV 4:2:0
/// and hands it out at the node called `sink`.
pub fn build_graph(output_idx: u32, framerate: u32) -> (plan: GraphPlan)
    ensures
        captures(plan, output_idx, framerate),
{
    let required: Vec<String> = text::owned(&["ddagrab", "hwdownload", "format", "buffersink"]);
    assert(text::texts(required@) == required_filters());
    let args: String = "output_idx=".to_owned().concat(
        text::number(output_idx as u64).as_str(),
    ).concat(":framerate=").concat(text::number(framerate as u64).as_str());
    let mut nodes: Vec<FilterNode> = Vec::new();
    nodes.push(node("ddagrab", "src", args.as_str(), "adding ddagrab source"));
    nodes.push(node("hwdownload", "hwdl", "", "adding hwdownload filter"));
    nodes.push(node("format", "native", "pix_fmts=bgra", "adding native-format filter"));
    nodes.push(node("format", "fmt", "pix_fmts=yuv420p", "adding format filter"));
    nodes.push(node("buffersink", "sink", "", "adding buffersink"));
    assert(node_views(nodes@) == graph_nodes(output_idx, framerate));
    let mut links: Vec<(usize, usize)> = Vec::new();
    links.push((0, 1));
    links.push((1, 2));
    links.push((2, 3));
    links.push((3, 4));
    assert(links@ == chain(5));
    GraphPlan { required, nodes, links }
}

/// What is said when a filter that the graph needs is not available.
pub open spec fn missing_filter_words(name: Seq<char>) -> Seq<char> {
    if name == "ddagrab"@ {
        "this ffmpeg build has no ddagrab filter -- Windows Desktop Duplication capture is unavailable"@
    } else {
        "this ffmpeg build has no "@ + name + " filter"@
    }
}

/// What is said when a filter that the graph needs is not available.
pub fn missing_filter(name: &str) -> (m: String)
    ensures
        m@ == missing_filter_words(name@),
{
    if name.to_owned() == "ddagrab".to_owned() {
        "this ffmpeg build has no ddagrab filter -- Windows Desktop Duplication capture is unavailable".to_owned()
    } else {
        "this ffmpeg build has no ".to_owned().concat(name).concat(" filter")
    }
}

/// The encoder that is used: the one that the further options are meant for.
pub fn encoder_name() -> (name: &'static str)
    ensures
        name@ == "libx264"@,
{
    "libx264"
}

/// How the encoder is set up.
pub struct EncoderSettings {
    /// The name of the encoder.
    pub encoder: &'static str,
    pub width: u32,
    pub height: u32,
    pub format: PixelFormat,
    /// The unit of time, as a fraction of a second.
    pub time_base: (i32, i32),
    pub max_b_frames: usize,
    /// How many frames there are from one keyframe to the next.
    pub gop: u32,
    /// Further options, by name and value.
    pub options: Vec<(String, String)>,
}

/// The encoder's further options. Together with the absence of B-frames they
/// keep the latency low: no lookahead, and the baseline profile. Parameter sets
/// are repeated before every keyframe, so that the stream needs no message of
/// its own for them.
pub open spec fn encoder_options() -> Seq<(Seq<char>, Seq<char>)> {
    seq![
        ("preset"@, "ultrafast"@),
        ("tune"@, "zerolatency"@),
        ("profile"@, "baseline"@),
        ("x264-params"@, "repeat-headers=1:rc-lookahead=0"@),
    ]
}

/// The texts of a list of options.
pub open spec fn option_views(options: Seq<(String, String)>) -> Seq<(Seq<char>, Seq<char>)> {
    options.map_values(|o: (String, String)| (o.0@, o.1@))
}

/// `settings` are for frames of `width` by `height`, of which there are `framerate` in
/// a second.
pub open spec fn encodes(
    settings: EncoderSettings,
    width: u32,
    height: u32,
    framerate: u32,
) -> bool {
    &&& settings.encoder@ == "libx264"@
    &&& settings.width == width
    &&& settings.height == height
    &&& settings.format is Yuv420p
    &&& settings.time_base == (1i32, framerate as i32)
    &&& settings.max_b_frames == 0
    &&& settings.gop == framerate * 2
    &&& option_views(settings.options@) == encoder_options()
}

/// How the encoder is set up for frames of `width` by `height`: libx264 with a
/// keyframe every two seconds, and no B-frames.
pub fn open_encoder(width: u32, height: u32, framerate: u32) -> (settings: EncoderSettings)
    requires
        framerate * 2 <= u32::MAX,
    ensures
        settings.encoder@ == "libx264"@,
        settings.width == width,
        settings.height == height,
        settings.format is Yuv420p,
        settings.time_base.0 == 1,
        settings.time_base.1 == framerate,
        settings.max_b_frames == 0,
        settings.gop == framerate * 2,
        option_views(settings.options@) == encoder_options(),
        encodes(settings, width, height, framerate),
{
    let mut options: Vec<(String, String)> = Vec::new();
    options.push(("preset".to_owned(), "ultrafast".to_owned()));
    options.push(("tune".to_owned(), "zerolatency".to_owned()));
    options.push(("profile".to_owned(), "baseline".to_owned()));
    options.push(("x264-params".to_owned(), "repeat-headers=1:rc-lookahead=0".to_owned()));
    assert(option_views(options@) == encoder_options());
    EncoderSettings {
        encoder: encoder_name(),
        width,
        height,
        format: PixelFormat::Yuv420p,
        time_base: (1, framerate as i32),
        max_b_frames: 0,
        gop: framerate * 2,
        options,
    }
}

/// Where capturing or encoding failed.
#[derive(Debug, Clone, Copy, PartialEq, Eq, Structural)]
pub enum CaptureStage {
    /// Setting up the capture graph.
    Building,
    /// Setting it up again after a frame could not be pulled.
    Rebuilding,
    /// Pulling a frame from the graph that was set up again.
    PullingAgain,
    /// Opening the encoder.
    Opening,
    /// Sending a frame to the encoder.
    Sending,
    /// Receiving a packet from the encoder.
    Receiving,
}

/// Why there is no packet.
#[derive(Debug)]
pub struct CaptureError {
    pub stage: CaptureStage,
    pub cause: String,
}

/// What is said before the cause of a failure.
pub open spec fn context(stage: CaptureStage) -> Seq<char> {
    match stage {
        CaptureStage::Rebuilding => "rebuilding capture graph after frame-pull failure: "@,
        CaptureStage::PullingAgain => "pulling captured frame after graph rebuild: "@,
        CaptureStage::Sending => "sending frame to encoder: "@,
        _ => ""@,
    }
}

impl CaptureError {
    /// The error in words.
    pub fn message(&self) -> (m: String)
        ensures
            m@ == context(self.stage) + self.cause@,
    {
        let context: &'static str = match self.stage {
            CaptureStage::Rebuilding => "rebuilding capture graph after frame-pull failure: ",
            CaptureStage::PullingAgain => "pulling captured frame after graph rebuild: ",
            CaptureStage::Sending => "sending frame to encoder: ",
            _ => "",
        };
        context.to_owned().concat(self.cause.as_str())
    }
}

/// What is going on with the capture.
#[derive(Debug, Clone, Copy, PartialEq, Eq, Structural)]
pub enum CapturePhase {
    /// The graph is being set up for the first time.
    Building,
    /// Setting it up failed: there is no capture.
    Dead,
    /// Nothing is to be done until a packet is asked for.
    Resting,
    /// A frame is to be pulled.
    Pulling,
    /// No frame could be pulled, and the graph is to be set up again.
    Rebuilding,
    /// A frame is to be pulled from the new graph.
    PullingAgain,
    /// An encoder for the size of the frame is to be opened.
    Opening,
    /// The frame is to be sent to the encoder.
    Sending,
    /// The encoder is to be asked for a packet.
    Receiving,
}

/// What is to be done next.
pub enum CaptureAction {
    /// Set up this graph, in place of the one there is.
    BuildGraph(GraphPlan),
    /// Pull a frame from the graph.
    PullFrame,
    /// Open an encoder, in place of the one there is.
    OpenEncoder { width: u32, height: u32, framerate: u32 },
    /// Send the frame to the encoder.
    SendFrame,
    /// Ask the encoder for a packet.
    ReceivePacket,
    /// Nothing.
    Rest,
}

/// The contents of a [`CaptureAction`].
pub enum CaptureAsk {
    BuildGraph { required: Seq<Seq<char>>, nodes: Seq<NodeView>, links: Seq<(usize, usize)> },
    PullFrame,
    OpenEncoder { width: u32, height: u32, framerate: u32 },
    SendFrame,
    ReceivePacket,
    Rest,
}

impl View for CaptureAction {
    type V = CaptureAsk;

    open spec fn view(&self) -> CaptureAsk {
        match *self {
            CaptureAction::BuildGraph(plan) => CaptureAsk::BuildGraph {
                required: text::texts(plan.required@),
                nodes: node_views(plan.nodes@),
                links: plan.links@,
            },
            CaptureAction::PullFrame => CaptureAsk::PullFrame,
            CaptureAction::OpenEncoder { width, height, framerate } => CaptureAsk::OpenEncoder {
                width,
                height,
                framerate,
            },
            CaptureAction::SendFrame => CaptureAsk::SendFrame,
            CaptureAction::ReceivePacket => CaptureAsk::ReceivePacket,
            CaptureAction::Rest => CaptureAsk::Rest,
        }
    }
}

/// What came of an action.
pub enum CaptureEvent {
    /// The graph is set up, or could not be.
    Built(Result<(), String>),
    /// A frame of this width and height was pulled, or none could be.
    Pulled(Result<(u32, u32), String>),
    /// The encoder is open, or could not be opened.
    Opened(Result<(), String>),
    /// The encoder took the frame, or did not.
    Sent(Result<(), String>),
    /// The encoder answered this.
    Received(Received<RawPacket>),
}

/// The course of a capture.
pub struct ScreenEncoder {
    pub output_idx: u32,
    pub framerate: u32,
    pub phase: CapturePhase,
    /// The size of frames that the open encoder takes, if one is open.
    pub encoder: Option<(u32, u32)>,
    /// The size of the frame that was pulled last.
    pub size: (u32, u32),
    /// The packet that the last call produced, if it did.
    pub packet: Option<EncodedPacket>,
    /// Why the last call failed, if it did.
    pub failure: Option<CaptureError>,
}

/// The encoded access unit in a packet; one without data is empty.
pub open spec fn is_packet(raw: RawPacket, packet: EncodedPacket) -> bool {
    &&& packet.keyframe == raw.key
    &&& match raw.data {
        Some(data) => packet.data == data,
        None => packet.data@ == Seq::<u8>::empty(),
    }
}

impl ScreenEncoder {
    /// A frame is only sent to an encoder that was opened for its size. What the
    /// last call left is only there while the capture rests.
    pub open spec fn wf(self) -> bool {
        &&& self.phase is Sending || self.phase is Receiving ==> self.encoder == Some(self.size)
        &&& self.packet is Some ==> self.phase is Resting
        &&& self.failure is Some ==> self.phase is Resting || self.phase is Dead
        &&& self.packet is None || self.failure is None
    }

    /// `event` answers what is to be done now.
    pub open spec fn accepts(self, event: CaptureEvent) -> bool {
        match event {
            CaptureEvent::Built(_) => self.phase is Building || self.phase is Rebuilding,
            CaptureEvent::Pulled(_) => self.phase is Pulling || self.phase is PullingAgain,
            CaptureEvent::Opened(_) => self.phase is Opening,
            CaptureEvent::Sent(_) => self.phase is Sending,
            CaptureEvent::Received(_) => self.phase is Receiving,
        }
    }

    /// What the capture asks for next.
    pub open spec fn asks(self) -> CaptureAsk {
        match self.phase {
            CapturePhase::Building | CapturePhase::Rebuilding => CaptureAsk::BuildGraph {
                required: required_filters(),
                nodes: graph_nodes(self.output_idx, self.framerate),
                links: chain(5),
            },
            CapturePhase::Pulling | CapturePhase::PullingAgain => CaptureAsk::PullFrame,
            CapturePhase::Opening => CaptureAsk::OpenEncoder {
                width: self.size.0,
                height: self.size.1,
                framerate: self.framerate,
            },
            CapturePhase::Sending => CaptureAsk::SendFrame,
            CapturePhase::Receiving => CaptureAsk::ReceivePacket,
            CapturePhase::Dead | CapturePhase::Resting => CaptureAsk::Rest,
        }
    }

    /// The same capture in another phase.
    pub open spec fn in_phase(self, phase: CapturePhase) -> ScreenEncoder {
        ScreenEncoder { phase, ..self }
    }

    /// A capture whose graph is still to be set up.
    pub open spec fn fresh(output_idx: u32, framerate: u32) -> ScreenEncoder {
        ScreenEncoder {
            output_idx,
            framerate,
            phase: CapturePhase::Building,
            encoder: None,
            size: (0, 0),
            packet: None,
            failure: None,
        }
    }

    /// The capture when a packet is asked for.
    pub open spec fn called(self) -> ScreenEncoder {
        ScreenEncoder { phase: CapturePhase::Pulling, packet: None, failure: None, ..self }
    }

    /// The call has failed.
    pub open spec fn failing(self, stage: CaptureStage, cause: String) -> ScreenEncoder {
        ScreenEncoder {
            phase: CapturePhase::Resting,
            failure: Some(CaptureError { stage, cause }),
            ..self
        }
    }

    /// A frame of the size `size` was pulled: it goes to the encoder there is, or
    /// to a new one if there is none for that size.
    pub open spec fn with_frame(self, size: (u32, u32)) -> ScreenEncoder {
        ScreenEncoder {
            phase: if self.encoder == Some(size) {
                CapturePhase::Sending
            } else {
                CapturePhase::Opening
            },
            size,
            ..self
        }
    }

    /// The capture after `event`, but for the packet that may have come.
    pub open spec fn after(self, event: CaptureEvent) -> ScreenEncoder {
        match event {
            CaptureEvent::Built(Ok(_)) => if self.phase is Building {
                self.in_phase(CapturePhase::Resting)
            } else {
                self.in_phase(CapturePhase::PullingAgain)
            },
            CaptureEvent::Built(Err(why)) => if self.phase is Building {
                self.failing(CaptureStage::Building, why).in_phase(CapturePhase::Dead)
            } else {
                self.failing(CaptureStage::Rebuilding, why)
            },
            CaptureEvent::Pulled(Ok(size)) => self.with_frame(size),
            CaptureEvent::Pulled(Err(why)) => if self.phase is Pulling {
                self.in_phase(CapturePhase::Rebuilding)
            } else {
                self.failing(CaptureStage::PullingAgain, why)
            },
            CaptureEvent::Opened(Ok(_)) => ScreenEncoder {
                phase: CapturePhase::Sending,
                encoder: Some(self.size),
                ..self
            },
            CaptureEvent::Opened(Err(why)) => self.failing(CaptureStage::Opening, why),
            CaptureEvent::Sent(Ok(_)) => self.in_phase(CapturePhase::Receiving),
            CaptureEvent::Sent(Err(why)) => self.failing(CaptureStage::Sending, why),
            CaptureEvent::Received(Received::Got(_)) => self.in_phase(CapturePhase::Resting),
            CaptureEvent::Received(Received::Again) => self.in_phase(CapturePhase::Resting),
            CaptureEvent::Received(Received::Eof(why)) => self.failing(
                CaptureStage::Receiving,
                why,
            ),
            CaptureEvent::Received(Received::Failed(why)) => self.failing(
                CaptureStage::Receiving,
                why,
            ),
        }
    }

    /// The packet that `event` leaves.
    pub open spec fn leaves(event: CaptureEvent, packet: Option<EncodedPacket>) -> bool {
        match event {
            CaptureEvent::Received(Received::Got(raw)) => packet matches Some(p) && is_packet(
                raw,
                p,
            ),
            _ => packet is None,
        }
    }

    /// A capture of the display `output_idx` at `framerate` frames per second,
    /// whose graph is still to be set up.
    pub fn new(output_idx: u32, framerate: u32) -> (capture: ScreenEncoder)
        ensures
            capture == (ScreenEncoder {
                output_idx,
                framerate,
                phase: CapturePhase::Building,
                encoder: None,
                size: (0, 0),
                packet: None,
                failure: None,
            }),
            capture == ScreenEncoder::fresh(output_idx, framerate),
            capture.wf(),
    {
        ScreenEncoder {
            output_idx,
            framerate,
            phase: CapturePhase::Building,
            encoder: None,
            size: (0, 0),
            packet: None,
            failure: None,
        }
    }

    /// Ask for the next packet. The call is over when the capture rests again:
    /// `packet` then holds the packet, if the encoder produced one, and `failure`
    /// says why the call failed, if it did.
    pub fn next_packet(&mut self)
        requires
            old(self).phase is Resting,
        ensures
            *final(self) == (ScreenEncoder {
                phase: CapturePhase::Pulling,
                packet: None,
                failure: None,
                ..*old(self)
            }),
            *final(self) == old(self).called(),
            final(self).wf(),
    {
        self.packet = None;
        self.failure = None;
        self.phase = CapturePhase::Pulling;
    }

    /// What is to be done next.
    pub fn action(&self) -> (action: CaptureAction)
        ensures
            match self.phase {
                CapturePhase::Building | CapturePhase::Rebuilding =>
                    action matches CaptureAction::BuildGraph(plan) && captures(
                        plan,
                        self.output_idx,
                        self.framerate,
                    ),
                CapturePhase::Pulling | CapturePhase::PullingAgain =>
                    action == CaptureAction::PullFrame,
                CapturePhase::Opening => action == (CaptureAction::OpenEncoder {
                    width: self.size.0,
                    height: self.size.1,
                    framerate: self.framerate,
                }),
                CapturePhase::Sending => action == CaptureAction::SendFrame,
                CapturePhase::Receiving => action == CaptureAction::ReceivePacket,
                CapturePhase::Dead | CapturePhase::Resting => action == CaptureAction::Rest,
            },
            action@ == self.asks(),
    {
        match self.phase {
            CapturePhase::Building | CapturePhase::Rebuilding => CaptureAction::BuildGraph(
                build_graph(self.output_idx, self.framerate),
            ),
            CapturePhase::Pulling | CapturePhase::PullingAgain => CaptureAction::PullFrame,
            CapturePhase::Opening => CaptureAction::OpenEncoder {
                width: self.size.0,
                height: self.size.1,
                framerate: self.framerate,
            },
            CapturePhase::Sending => CaptureAction::SendFrame,
            CapturePhase::Receiving => CaptureAction::ReceivePacket,
            CapturePhase::Dead | CapturePhase::Resting => CaptureAction::Rest,
        }
    }

    /// The call has failed.
    fn fail(&mut self, stage: CaptureStage, cause: String)
        ensures
            *final(self) == old(self).failing(stage, cause),
    {
        self.failure = Some(CaptureError { stage, cause });
        self.phase = CapturePhase::Resting;
    }

    /// Go on after `event`.
    pub fn advance(&mut self, event: CaptureEvent)
        requires
            old(self).wf(),
            old(self).accepts(event),
        ensures
            final(self).wf(),
            *final(self) == (ScreenEncoder { packet: final(self).packet, ..old(self).after(event) }),
            ScreenEncoder::leaves(event, final(self).packet),
    {
        match event {
            CaptureEvent::Built(Ok(_)) => {
                self.phase = if self.phase == CapturePhase::Building {
                    CapturePhase::Resting
                } else {
                    CapturePhase::PullingAgain
                };
            },
            CaptureEvent::Built(Err(why)) => {
                if self.phase == CapturePhase::Building {
                    self.fail(CaptureStage::Building, why);
                    self.phase = CapturePhase::Dead;
                } else {
                    self.fail(CaptureStage::Rebuilding, why);
                }
            },
            CaptureEvent::Pulled(Ok(size)) => {
                let fitting: bool = match self.encoder {
                    Some((w, h)) => w == size.0 && h == size.1,
                    None => false,
                };
                self.phase = if fitting {
                    CapturePhase::Sending
                } else {
                    CapturePhase::Opening
                };
                self.size = size;
            },
            CaptureEvent::Pulled(Err(why)) => {
                if self.phase == CapturePhase::Pulling {
                    self.phase = CapturePhase::Rebuilding;
                } else {
                    self.fail(CaptureStage::PullingAgain, why);
                }
            },
            CaptureEvent::Opened(Ok(_)) => {
                self.encoder = Some(self.size);
                self.phase = CapturePhase::Sending;
            },
            CaptureEvent::Opened(Err(why)) => self.fail(CaptureStage::Opening, why),
            CaptureEvent::Sent(Ok(_)) => {
                self.phase = CapturePhase::Receiving;
            },
            CaptureEvent::Sent(Err(why)) => self.fail(CaptureStage::Sending, why),
            CaptureEvent::Received(Received::Got(raw)) => {
                let data: Vec<u8> = match raw.data {
                    Some(data) => data,
                    None => Vec::new(),
                };
                self.packet = Some(EncodedPacket { data, keyframe: raw.key });
                self.phase = CapturePhase::Resting;
            },
            CaptureEvent::Received(Received::Again) => {
                self.phase = CapturePhase::Resting;
            },
            CaptureEvent::Received(Received::Eof(why)) => self.fail(CaptureStage::Receiving, why),
            CaptureEvent::Received(Received::Failed(why)) => self.fail(
                CaptureStage::Receiving,
                why,
            ),
        }
    }
}

/// How far a call has come. It only ever moves on.
pub open spec fn progress(phase: CapturePhase) -> nat {
    match phase {
        CapturePhase::Building => 0,
        CapturePhase::Dead => 8,
        CapturePhase::Pulling => 1,
        CapturePhase::Rebuilding => 2,
        CapturePhase::PullingAgain => 3,
        CapturePhase::Opening => 4,
        CapturePhase::Sending => 5,
        CapturePhase::Receiving => 6,
        CapturePhase::Resting => 7,
    }
}

/// A call comes to an end whatever happens, and sets the graph up again at most
/// once on the way: every event moves it on.
pub proof fn law_call_moves_on(capture: ScreenEncoder, event: CaptureEvent)
    requires
        capture.accepts(event),
    ensures
        progress(capture.phase) < progress(capture.after(event).phase),
{
}

/// A capture that breaks down once is taken up as if nothing had happened: after
/// one failed pull and a new graph, a frame is treated as it would have been at
/// first.
pub proof fn law_one_failed_pull_is_forgiven(
    capture: ScreenEncoder,
    why: String,
    size: (u32, u32),
)
    requires
        capture.wf(),
        capture.phase is Pulling,
    ensures
        capture.after(CaptureEvent::Pulled(Err(why))).after(CaptureEvent::Built(Ok(()))).after(
            CaptureEvent::Pulled(Ok(size)),
        ) == capture.after(CaptureEvent::Pulled(Ok(size))),
{
}

/// A second failed pull is not: the call fails and names the cause.
pub proof fn law_second_failed_pull_is_reported(
    capture: ScreenEncoder,
    first: String,
    second: String,
)
    requires
        capture.wf(),
        capture.phase is Pulling,
    ensures
        capture.after(CaptureEvent::Pulled(Err(first))).after(CaptureEvent::Built(Ok(()))).after(
            CaptureEvent::Pulled(Err(second)),
        ) == capture.failing(CaptureStage::PullingAgain, second),
{
}

/// The encoder is opened anew exactly when the size of the frames is not the one
/// it was opened for, and the frame then goes to an encoder for its size.
pub proof fn law_encoder_fits_the_frame(capture: ScreenEncoder, size: (u32, u32))
    requires
        capture.wf(),
        capture.phase is Pulling || capture.phase is PullingAgain,
    ensures
        ({
            let pulled = capture.after(CaptureEvent::Pulled(Ok(size)));
            let sending = if pulled.phase is Opening {
                pulled.after(CaptureEvent::Opened(Ok(())))
            } else {
                pulled
            };
            &&& pulled.phase is Opening <==> capture.encoder != Some(size)
            &&& sending.phase is Sending
            &&& sending.encoder == Some(size)
        }),
{
}

/// What the capture filter is told can be read back: behind `output_idx=` stands the
/// display and behind `framerate=` the frame rate that were asked for, whatever they
/// are, and the rate is the one in the encoder's time base.
pub proof fn law_filter_is_told_the_display(
    output_idx: u32,
    framerate: u32,
    settings: EncoderSettings,
    width: u32,
    height: u32,
)
    requires
        framerate * 2 <= u32::MAX,
        encodes(settings, width, height, framerate),
    ensures
        exists|a: Seq<char>, b: Seq<char>|
            text::writes(a, output_idx as nat) && text::writes(b, framerate as nat) && graph_nodes(
                output_idx,
                framerate,
            )[0].args == #[trigger] ("output_idx="@ + a + ":framerate="@ + b),
        exists|a: Seq<char>, b: Seq<char>|
            text::writes(a, output_idx as nat) && text::writes(
                b,
                settings.time_base.1 as nat,
            ) && graph_nodes(output_idx, framerate)[0].args == #[trigger] ("output_idx="@ + a
                + ":framerate="@ + b),
        settings.time_base.0 == 1,
        settings.time_base.1 == framerate,
{
    law_filter_is_told_everything(output_idx, framerate);
}

/// The same for every display and frame rate.
pub proof fn law_filter_is_told_everything(output_idx: u32, framerate: u32)
    ensures
        exists|a: Seq<char>, b: Seq<char>|
            text::writes(a, output_idx as nat) && text::writes(b, framerate as nat) && graph_nodes(
                output_idx,
                framerate,
            )[0].args == #[trigger] ("output_idx="@ + a + ":framerate="@ + b),
{
    text::law_decimal_reads_back(output_idx as nat);
    text::law_decimal_reads_back(framerate as nat);
    let a = text::decimal(output_idx as nat);
    let b = text::decimal(framerate as nat);
    assert(text::writes(a, output_idx as nat) && text::writes(b, framerate as nat) && graph_nodes(
        output_idx,
        framerate,
    )[0].args == "output_idx="@ + a + ":framerate="@ + b);
}

/// The graph is the same chain for every display and rate: the capture, the download
/// from the graphics card, the format of the surface, the conversion to YUV 4:2:0, and
/// the sink. Just those filters are needed, and each feeds the next.
pub proof fn law_graph_is_a_chain(output_idx: u32, framerate: u32, plan: GraphPlan)
    requires
        captures(plan, output_idx, framerate),
    ensures
        plan.required@.len() == 4,
        plan.required@[0]@ == "ddagrab"@,
        plan.required@[1]@ == "hwdownload"@,
        plan.required@[2]@ == "format"@,
        plan.required@[3]@ == "buffersink"@,
        plan.nodes@.len() == 5,
        plan.nodes@[0].filter@ == "ddagrab"@,
        plan.nodes@[0].name@ == "src"@,
        plan.nodes@[0].args@ == graph_nodes(output_idx, framerate)[0].args,
        plan.nodes@[0].adding@ == "adding ddagrab source"@,
        plan.nodes@[1].filter@ == "hwdownload"@,
        plan.nodes@[1].name@ == "hwdl"@,
        plan.nodes@[1].args@ == ""@,
        plan.nodes@[1].adding@ == "adding hwdownload filter"@,
        plan.nodes@[2].filter@ == "format"@,
        plan.nodes@[2].name@ == "native"@,
        plan.nodes@[2].args@ == "pix_fmts=bgra"@,
        plan.nodes@[2].adding@ == "adding native-format filter"@,
        plan.nodes@[3].filter@ == "format"@,
        plan.nodes@[3].name@ == "fmt"@,
        plan.nodes@[3].args@ == "pix_fmts=yuv420p"@,
        plan.nodes@[3].adding@ == "adding format filter"@,
        plan.nodes@[4].filter@ == "buffersink"@,
        plan.nodes@[4].name@ == "sink"@,
        plan.nodes@[4].args@ == ""@,
        plan.nodes@[4].adding@ == "adding buffersink"@,
        plan.links@ == seq![
            (0usize, 1usize),
            (1usize, 2usize),
            (2usize, 3usize),
            (3usize, 4usize),
        ],
{
    let names = text::texts(plan.required@);
    assert(names.len() == plan.required@.len());
    assert(names[0] == plan.required@[0]@);
    assert(names[1] == plan.required@[1]@);
    assert(names[2] == plan.required@[2]@);
    assert(names[3] == plan.required@[3]@);
    let nodes = node_views(plan.nodes@);
    assert(nodes.len() == plan.nodes@.len());
    assert(nodes[0] == plan.nodes@[0]@);
    assert(nodes[1] == plan.nodes@[1]@);
    assert(nodes[2] == plan.nodes@[2]@);
    assert(nodes[3] == plan.nodes@[3]@);
    assert(nodes[4] == plan.nodes@[4]@);
    assert(plan.links@ =~= seq![
        (0usize, 1usize),
        (1usize, 2usize),
        (2usize, 3usize),
        (3usize, 4usize),
    ]);
}

/// The encoder is set up alike for every size and rate: for frames of just that size in
/// YUV 4:2:0, with the time base of that rate, a keyframe every two seconds, no
/// B-frames, no lookahead, the baseline profile, and parameter sets before every
/// keyframe.
pub proof fn law_encoder_keeps_latency_low(
    settings: EncoderSettings,
    width: u32,
    height: u32,
    framerate: u32,
)
    requires
        framerate * 2 <= u32::MAX,
        encodes(settings, width, height, framerate),
    ensures
        settings.encoder@ == "libx264"@,
        settings.width == width,
        settings.height == height,
        settings.format is Yuv420p,
        settings.time_base.0 == 1,
        settings.time_base.1 == framerate,
        settings.max_b_frames == 0,
        settings.gop == framerate + framerate,
        settings.options@.len() == 4,
        settings.options@[0].0@ == "preset"@,
        settings.options@[0].1@ == "ultrafast"@,
        settings.options@[1].0@ == "tune"@,
        settings.options@[1].1@ == "zerolatency"@,
        settings.options@[2].0@ == "profile"@,
        settings.options@[2].1@ == "baseline"@,
        settings.options@[3].0@ == "x264-params"@,
        settings.options@[3].1@ == "repeat-headers=1:rc-lookahead=0"@,
{
    let o = option_views(settings.options@);
    assert(o.len() == settings.options@.len());
    assert(o[0] == (settings.options@[0].0@, settings.options@[0].1@));
    assert(o[1] == (settings.options@[1].0@, settings.options@[1].1@));
    assert(o[2] == (settings.options@[2].0@, settings.options@[2].1@));
    assert(o[3] == (settings.options@[3].0@, settings.options@[3].1@));
}

/// A filter that is missing is named; of the capture filter it is also said what that
/// means.
pub proof fn law_missing_filter_is_named(name: Seq<char>)
    ensures
        missing_filter_words("ddagrab"@)
            == "this ffmpeg build has no ddagrab filter -- Windows Desktop Duplication capture is unavailable"@,
        name != "ddagrab"@ ==> missing_filter_words(name) == "this ffmpeg build has no "@ + name
            + " filter"@,
{
}

/// A capture sets up the graph of the display and the rate that it was asked for, and
/// is ready for calls; if that fails, it is of no use, and says why.
pub proof fn law_capture_sets_out(output_idx: u32, framerate: u32, why: String)
    ensures
        ({
            let fresh = ScreenEncoder::fresh(output_idx, framerate);
            let ready = fresh.after(CaptureEvent::Built(Ok(())));
            let dead = fresh.after(CaptureEvent::Built(Err(why)));
            &&& fresh.asks() == (CaptureAsk::BuildGraph {
                required: required_filters(),
                nodes: graph_nodes(output_idx, framerate),
                links: chain(5),
            })
            &&& ready.asks() is Rest && ready.failure is None && ready.phase is Resting
            &&& ready.encoder is None
            &&& ready.output_idx == output_idx && ready.framerate == framerate
            &&& dead.asks() is Rest && dead.failure is Some && !(dead.phase is Resting)
            &&& dead.failure->Some_0.cause == why
            &&& context(dead.failure->Some_0.stage) == ""@
        }),
{
}

/// A call goes as it should: a frame is pulled; if no encoder is open for frames as
/// wide and as high, one is opened for this size and the capture's rate; the frame is
/// sent and a packet asked for. A packet is handed out as it is, an empty one if it has
/// no data; without one the call is over too. A pull that fails has the same graph set
/// up again and a frame pulled once more.
#[verifier::rlimit(40)]
#[verifier::spinoff_prover]
pub proof fn law_call_goes_through(
    capture: ScreenEncoder,
    width: u32,
    height: u32,
    lost: String,
    raw: RawPacket,
    packet: Option<EncodedPacket>,
)
    requires
        capture.phase is Resting,
    ensures
        ({
            let pulling = capture.called();
            let rebuilding = pulling.after(CaptureEvent::Pulled(Err(lost)));
            let again = rebuilding.after(CaptureEvent::Built(Ok(())));
            let pulled = pulling.after(CaptureEvent::Pulled(Ok((width, height))));
            let fits = capture.encoder is Some && capture.encoder->Some_0.0 == width
                && capture.encoder->Some_0.1 == height;
            let sending = if fits {
                pulled
            } else {
                pulled.after(CaptureEvent::Opened(Ok(())))
            };
            let receiving = sending.after(CaptureEvent::Sent(Ok(())));
            let event = CaptureEvent::Received(Received::Got(raw));
            let over = receiving.after(event);
            let none = receiving.after(CaptureEvent::Received(Received::Again));
            &&& pulling.asks() is PullFrame && pulling.failure is None && pulling.packet is None
            &&& rebuilding.asks() == (CaptureAsk::BuildGraph {
                required: required_filters(),
                nodes: graph_nodes(capture.output_idx, capture.framerate),
                links: chain(5),
            })
            &&& again.asks() is PullFrame && again.failure is None
            &&& again.after(CaptureEvent::Pulled(Ok((width, height)))) == pulled
            &&& !fits ==> pulled.asks() == (CaptureAsk::OpenEncoder {
                width,
                height,
                framerate: capture.framerate,
            })
            &&& sending.asks() is SendFrame
            &&& sending.encoder == Some((width, height))
            &&& receiving.asks() is ReceivePacket
            &&& over.asks() is Rest && over.failure is None && over.phase is Resting
            &&& over.encoder == Some((width, height))
            &&& over.output_idx == capture.output_idx && over.framerate == capture.framerate
            &&& none.asks() is Rest && none.failure is None && none.phase is Resting
            &&& ScreenEncoder::leaves(event, packet) ==> {
                &&& packet is Some
                &&& packet->Some_0.keyframe == raw.key
                &&& raw.data is Some ==> packet->Some_0.data == raw.data->Some_0
                &&& raw.data is None ==> packet->Some_0.data@.len() == 0
            }
            &&& ScreenEncoder::leaves(CaptureEvent::Received(Received::Again), packet)
                ==> packet is None
            &&& ScreenEncoder::leaves(CaptureEvent::Sent(Ok(())), packet) ==> packet is None
        }),
{
}

/// A call that has failed is over, leaves the capture as it was for the next, and says
/// why.
pub open spec fn call_failed(
    after: ScreenEncoder,
    before: ScreenEncoder,
    words: Seq<char>,
    why: String,
) -> bool {
    &&& after.asks() is Rest
    &&& after.phase is Resting
    &&& after.failure is Some
    &&& after.failure->Some_0.cause == why
    &&& context(after.failure->Some_0.stage) == words
    &&& after.encoder == before.encoder
    &&& after.output_idx == before.output_idx
    &&& after.framerate == before.framerate
}

/// Whatever fails in a call ends it, and is told with where it failed.
pub proof fn law_call_failures_are_told(capture: ScreenEncoder, why: String, lost: String)
    ensures
        capture.phase is Rebuilding ==> call_failed(
            capture.after(CaptureEvent::Built(Err(why))),
            capture,
            "rebuilding capture graph after frame-pull failure: "@,
            why,
        ),
        capture.phase is PullingAgain ==> call_failed(
            capture.after(CaptureEvent::Pulled(Err(why))),
            capture,
            "pulling captured frame after graph rebuild: "@,
            why,
        ),
        capture.asks() is OpenEncoder ==> call_failed(
            capture.after(CaptureEvent::Opened(Err(why))),
            capture,
            ""@,
            why,
        ),
        capture.asks() is SendFrame ==> call_failed(
            capture.after(CaptureEvent::Sent(Err(why))),
            capture,
            "sending frame to encoder: "@,
            why,
        ),
        capture.asks() is ReceivePacket ==> call_failed(
            capture.after(CaptureEvent::Received(Received::Failed(why))),
            capture,
            ""@,
            why,
        ),
        capture.asks() is ReceivePacket ==> call_failed(
            capture.after(CaptureEvent::Received(Received::Eof(why))),
            capture,
            ""@,
            why,
        ),
{
}

/// A capture takes every answer to what it asks for, and no other.
pub proof fn law_every_answer_is_taken(capture: ScreenEncoder, event: CaptureEvent)
    ensures
        capture.accepts(event) <==> match event {
            CaptureEvent::Built(_) => capture.asks() is BuildGraph,
            CaptureEvent::Pulled(_) => capture.asks() is PullFrame,
            CaptureEvent::Opened(_) => capture.asks() is OpenEncoder,
            CaptureEvent::Sent(_) => capture.asks() is SendFrame,
            CaptureEvent::Received(_) => capture.asks() is ReceivePacket,
        },
{
}

} // verus!
