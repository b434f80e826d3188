//! Decoded pictures on their way from the decoder to the window.
use vstd::prelude::*;
use vstd::string::*;

verus! {

/// How the pixels of a decoded picture are laid out.
#[derive(Debug)]
pub enum PixelFormat {
    /// Planar YUV with one U and one V sample for each square of four pixels.
    Yuv420p,
    /// Any other format, by its name.
    Other(String),
}

/// One plane of a picture: its samples, and how many bytes a row takes.
pub struct Plane {
    pub data: Vec<u8>,
    pub stride: usize,
}

/// A picture as the decoder hands it out. A plane that the format does not have
/// is empty.
pub struct DecodedFrame {
    pub format: PixelFormat,
    pub width: u32,
    pub height: u32,
    pub y: Plane,
    pub u: Plane,
    pub v: Plane,
}

/// A planar YUV 4:2:0 picture that can be shown.
pub struct FrameBuf {
    pub width: u32,
    pub height: u32,
    pub y: Vec<u8>,
    pub y_stride: usize,
    pub u: Vec<u8>,
    pub u_stride: usize,
    pub v: Vec<u8>,
    pub v_stride: usize,
}

/// The planes of a planar YUV 4:2:0 picture, borrowed from wherever the picture
/// is kept.
pub struct YuvPlanes<'a> {
    pub y: &'a [u8],
    pub y_stride: usize,
    pub u: &'a [u8],
    pub u_stride: usize,
    pub v: &'a [u8],
    pub v_stride: usize,
}

/// The contents of [`YuvPlanes`].
pub struct PlanesView {
    pub y: Seq<u8>,
    pub y_stride: usize,
    pub u: Seq<u8>,
    pub u_stride: usize,
    pub v: Seq<u8>,
    pub v_stride: usize,
}

impl View for YuvPlanes<'_> {
    type V = PlanesView;

    open spec fn view(&self) -> PlanesView {
        PlanesView {
            y: self.y@,
            y_stride: self.y_stride,
            u: self.u@,
            u_stride: self.u_stride,
            v: self.v@,
            v_stride: self.v_stride,
        }
    }
}

/// A decoded picture is not planar YUV 4:2:0 but has the format named here.
#[derive(Debug)]
pub struct WrongFormat {
    pub format: String,
}

impl WrongFormat {
    /// The error in words.
    pub open spec fn words(self) -> Seq<char> {
        "decoded frame is "@ + self.format@ + ", expected YUV420P -- mirror only handles 4:2:0"@
    }

    /// The error in words.
    pub fn message(&self) -> (m: String)
        ensures
            m@ == self.words(),
    {
        "decoded frame is ".to_owned().concat(self.format.as_str()).concat(
            ", expected YUV420P -- mirror only handles 4:2:0",
        )
    }
}

/// `frame` can be shown.
pub open spec fn showable(frame: DecodedFrame) -> bool {
    frame.format is Yuv420p
}

/// The picture in `frame`: its size, and its planes just as the decoder laid
/// them out.
pub open spec fn picture(frame: DecodedFrame) -> FrameBuf {
    FrameBuf {
        width: frame.width,
        height: frame.height,
        y: frame.y.data,
        y_stride: frame.y.stride,
        u: frame.u.data,
        u_stride: frame.u.stride,
        v: frame.v.data,
        v_stride: frame.v.stride,
    }
}

/// What taking the picture out of `frame` comes to.
pub open spec fn taken_from(frame: DecodedFrame, res: Result<FrameBuf, WrongFormat>) -> bool {
    match frame.format {
        PixelFormat::Yuv420p => res == Ok::<FrameBuf, WrongFormat>(picture(frame)),
        PixelFormat::Other(name) => res == Err::<FrameBuf, WrongFormat>(
            WrongFormat { format: name },
        ),
    }
}

impl FrameBuf {
    /// The planes of the picture.
    pub open spec fn spread(self) -> PlanesView {
        PlanesView {
            y: self.y@,
            y_stride: self.y_stride,
            u: self.u@,
            u_stride: self.u_stride,
            v: self.v@,
            v_stride: self.v_stride,
        }
    }

    /// Take the picture out of a decoded frame. Anything but 4:2:0 is refused:
    /// it would be shown corrupted.
    pub fn from_yuv420p(frame: DecodedFrame) -> (res: Result<FrameBuf, WrongFormat>)
        ensures
            taken_from(frame, res),
    {
        match frame.format {
            PixelFormat::Other(format) => Err(WrongFormat { format }),
            PixelFormat::Yuv420p => Ok(
                FrameBuf {
                    width: frame.width,
                    height: frame.height,
                    y: frame.y.data,
                    y_stride: frame.y.stride,
                    u: frame.u.data,
                    u_stride: frame.u.stride,
                    v: frame.v.data,
                    v_stride: frame.v.stride,
                },
            ),
        }
    }

    /// The planes of the picture.
    pub fn planes(&self) -> (planes: YuvPlanes<'_>)
        ensures
            planes_of(*self, planes),
            planes@ == self.spread(),
    {
        YuvPlanes {
            y: self.y.as_slice(),
            y_stride: self.y_stride,
            u: self.u.as_slice(),
            u_stride: self.u_stride,
            v: self.v.as_slice(),
            v_stride: self.v_stride,
        }
    }
}

/// `planes` are the planes of `frame`.
pub open spec fn planes_of(frame: FrameBuf, planes: YuvPlanes<'_>) -> bool {
    &&& planes.y@ == frame.y@
    &&& planes.y_stride == frame.y_stride
    &&& planes.u@ == frame.u@
    &&& planes.u_stride == frame.u_stride
    &&& planes.v@ == frame.v@
    &&& planes.v_stride == frame.v_stride
}

/// The pictures in `frames` that can be shown, in order.
pub open spec fn pictures(frames: Seq<DecodedFrame>) -> Seq<FrameBuf> {
    frames.filter(|f: DecodedFrame| showable(f)).map_values(|f: DecodedFrame| picture(f))
}

/// Why a frame that cannot be shown is refused.
pub open spec fn refusal(frame: DecodedFrame) -> Seq<char> {
    match frame.format {
        PixelFormat::Other(name) => WrongFormat { format: name }.words(),
        PixelFormat::Yuv420p => seq![],
    }
}

/// Why those of `frames` that cannot be shown are refused, in order.
pub open spec fn refused(frames: Seq<DecodedFrame>) -> Seq<Seq<char>> {
    frames.filter(|f: DecodedFrame| !showable(f)).map_values(|f: DecodedFrame| refusal(f))
}

/// A mailbox for one picture. A picture that arrives takes the place of one that
/// still waits, so that what is taken out is always the newest.
pub struct FrameSlot {
    waiting: Option<FrameBuf>,
}

impl View for FrameSlot {
    type V = Option<FrameBuf>;

    closed spec fn view(&self) -> Option<FrameBuf> {
        self.waiting
    }
}

impl FrameSlot {
    /// An empty mailbox.
    pub fn new() -> (slot: FrameSlot)
        ensures
            slot@ == None::<FrameBuf>,
    {
        FrameSlot { waiting: None }
    }

    /// Put a picture in; one that waits there is dropped.
    pub fn put(&mut self, frame: FrameBuf)
        ensures
            final(self)@ == Some(frame),
            final(self)@ == used(old(self)@, SlotUse::Put(frame)),
    {
        self.waiting = Some(frame);
    }

    /// Take the waiting picture out, if there is one.
    pub fn take(&mut self) -> (frame: Option<FrameBuf>)
        ensures
            frame == old(self)@,
            final(self)@ == None::<FrameBuf>,
            final(self)@ == used(old(self)@, SlotUse::Take),
    {
        self.waiting.take()
    }
}

/// What can be done to a mailbox.
pub enum SlotUse {
    Put(FrameBuf),
    Take,
}

/// What a mailbox holds after a use, where it held `held` before.
pub open spec fn used(held: Option<FrameBuf>, what: SlotUse) -> Option<FrameBuf> {
    match what {
        SlotUse::Put(frame) => Some(frame),
        SlotUse::Take => None,
    }
}

/// What a new mailbox holds after `uses`.
pub open spec fn held_after(uses: Seq<SlotUse>) -> Option<FrameBuf>
    decreases uses.len(),
{
    if uses.len() == 0 {
        None
    } else {
        used(held_after(uses.drop_last()), uses.last())
    }
}

/// The pictures that were put in a mailbox in the course of `uses`.
pub open spec fn all_put(uses: Seq<SlotUse>) -> Seq<FrameBuf>
    decreases uses.len(),
{
    if uses.len() == 0 {
        seq![]
    } else {
        match uses.last() {
            SlotUse::Put(frame) => all_put(uses.drop_last()).push(frame),
            SlotUse::Take => all_put(uses.drop_last()),
        }
    }
}

/// The pictures that were taken out of a new mailbox in the course of `uses`.
pub open spec fn all_taken(uses: Seq<SlotUse>) -> Seq<FrameBuf>
    decreases uses.len(),
{
    if uses.len() == 0 {
        seq![]
    } else {
        let front = uses.drop_last();
        match (uses.last(), held_after(front)) {
            (SlotUse::Take, Some(frame)) => all_taken(front).push(frame),
            _ => all_taken(front),
        }
    }
}

/// Which of the pictures that were put in were taken out, by their positions.
pub open spec fn positions(uses: Seq<SlotUse>) -> Seq<int>
    decreases uses.len(),
{
    if uses.len() == 0 {
        seq![]
    } else {
        let front = uses.drop_last();
        match (uses.last(), held_after(front)) {
            (SlotUse::Take, Some(_)) => positions(front).push(all_put(front).len() - 1),
            _ => positions(front),
        }
    }
}

/// What is taken out of a mailbox is a part of what was put in, in the same
/// order, and no picture is taken twice.
pub proof fn law_taken_in_order(uses: Seq<SlotUse>)
    ensures
        positions(uses).len() == all_taken(uses).len(),
        forall|i: int|
            0 <= i < positions(uses).len() ==> {
                &&& 0 <= #[trigger] positions(uses)[i] < all_put(uses).len()
                &&& all_taken(uses)[i] == all_put(uses)[positions(uses)[i]]
            },
        forall|i: int, j: int|
            0 <= i < j < positions(uses).len() ==> positions(uses)[i] < positions(uses)[j],
        held_after(uses) matches Some(frame) ==> {
            &&& all_put(uses).len() > 0
            &&& all_put(uses).last() == frame
            &&& positions(uses).len() > 0 ==> positions(uses).last() < all_put(uses).len() - 1
        },
    decreases uses.len(),
{
    if uses.len() > 0 {
        let front = uses.drop_last();
        law_taken_in_order(front);
        let p = positions(front);
        assert forall|i: int| 0 <= i < positions(uses).len() implies {
            &&& 0 <= #[trigger] positions(uses)[i] < all_put(uses).len()
            &&& all_taken(uses)[i] == all_put(uses)[positions(uses)[i]]
        } by {
            if i < p.len() {
                assert(positions(uses)[i] == p[i]);
                assert(0 <= p[i] < all_put(front).len());
            }
        }
        assert forall|i: int, j: int| 0 <= i < j < positions(uses).len() implies positions(uses)[i]
            < positions(uses)[j] by {
            assert(positions(uses)[i] == p[i]);
            if j < p.len() {
                assert(positions(uses)[j] == p[j]);
            } else {
                assert(p[i] <= p.last());
            }
        }
    }
}

/// Whatever was done before, a mailbox never holds more than the picture that
/// was put in last, and it holds that one unless something was taken out since:
/// no backlog builds up.
pub proof fn law_newest_picture_only(uses: Seq<SlotUse>, frame: FrameBuf, later: Seq<SlotUse>)
    requires
        forall|i: int| 0 <= i < later.len() ==> #[trigger] later[i] is Take,
    ensures
        held_after(uses.push(SlotUse::Put(frame)) + later) == if later.len() == 0 {
            Some(frame)
        } else {
            None
        },
{
    let all = uses.push(SlotUse::Put(frame)) + later;
    if later.len() == 0 {
        assert(all == uses.push(SlotUse::Put(frame)));
        assert(all.last() == SlotUse::Put(frame));
    } else {
        assert(all.last() == later.last());
        assert(later[later.len() - 1] is Take);
    }
}

/// A 4:2:0 frame is shown as the decoder laid it out: the picture has its size, and
/// the planes that are handed to the window have the decoder's strides, also where
/// those are larger than the width. So the sample in any row and column is the
/// decoder's, in each plane.
pub proof fn law_picture_is_as_decoded(
    frame: DecodedFrame,
    res: Result<FrameBuf, WrongFormat>,
    planes: YuvPlanes<'_>,
    row: int,
    column: int,
)
    requires
        taken_from(frame, res),
        frame.format is Yuv420p,
        res is Ok ==> planes_of(res->Ok_0, planes),
    ensures
        res is Ok,
        res->Ok_0.width == frame.width,
        res->Ok_0.height == frame.height,
        planes.y_stride == frame.y.stride,
        planes.u_stride == frame.u.stride,
        planes.v_stride == frame.v.stride,
        planes.y@.len() == frame.y.data@.len(),
        planes.u@.len() == frame.u.data@.len(),
        planes.v@.len() == frame.v.data@.len(),
        planes.y@[row * planes.y_stride + column] == frame.y.data@[row * frame.y.stride + column],
        planes.u@[row * planes.u_stride + column] == frame.u.data@[row * frame.u.stride + column],
        planes.v@[row * planes.v_stride + column] == frame.v.data@[row * frame.v.stride + column],
{
}

/// A frame in another format is refused, and the refusal names that format.
pub proof fn law_other_formats_are_refused(
    frame: DecodedFrame,
    res: Result<FrameBuf, WrongFormat>,
    name: String,
)
    requires
        taken_from(frame, res),
        frame.format == PixelFormat::Other(name),
    ensures
        res is Err,
        res->Err_0.format@ == name@,
        res->Err_0.words() == "decoded frame is "@ + name@
            + ", expected YUV420P -- mirror only handles 4:2:0"@,
{
}

/// Each frame of a batch is either shown or refused, in order: one in 4:2:0 adds
/// its picture, as the decoder laid it out, and one in another format adds a
/// refusal that names the format.
pub proof fn law_batch_is_sorted(frames: Seq<DecodedFrame>, frame: DecodedFrame)
    ensures
        pictures(seq![]).len() == 0,
        refused(seq![]).len() == 0,
        frame.format is Yuv420p ==> {
            let all = pictures(frames.push(frame));
            &&& all.len() == pictures(frames).len() + 1
            &&& all.drop_last() == pictures(frames)
            &&& taken_from(frame, Ok(all.last()))
            &&& all.last().y == frame.y.data
            &&& all.last().y_stride == frame.y.stride
            &&& all.last().u == frame.u.data
            &&& all.last().u_stride == frame.u.stride
            &&& all.last().v == frame.v.data
            &&& all.last().v_stride == frame.v.stride
            &&& all.last().width == frame.width
            &&& all.last().height == frame.height
            &&& refused(frames.push(frame)) == refused(frames)
        },
        frame.format matches PixelFormat::Other(name) ==> {
            &&& pictures(frames.push(frame)) == pictures(frames)
            &&& refused(frames.push(frame)) == refused(frames).push(
                "decoded frame is "@ + name@ + ", expected YUV420P -- mirror only handles 4:2:0"@,
            )
        },
{
    reveal(Seq::filter);
    let all = frames.push(frame);
    assert(all.drop_last() == frames);
    assert(all.last() == frame);
    let can = |f: DecodedFrame| showable(f);
    let odd = |f: DecodedFrame| !showable(f);
    let take = |f: DecodedFrame| picture(f);
    let why = |f: DecodedFrame| refusal(f);
    if frame.format is Yuv420p {
        assert(all.filter(can) == frames.filter(can).push(frame));
        assert(all.filter(odd) == frames.filter(odd));
        assert(pictures(all) == pictures(frames).push(picture(frame)));
        assert(pictures(all).drop_last() == pictures(frames));
    } else {
        assert(all.filter(odd) == frames.filter(odd).push(frame));
        assert(all.filter(can) == frames.filter(can));
        assert(refused(all) == refused(frames).push(refusal(frame)));
    }
}

/// What is spread out before the window is the picture itself, plane by plane, with
/// the strides it has.
pub proof fn law_planes_are_seen_whole(frame: FrameBuf, planes: YuvPlanes<'_>)
    ensures
        planes@ == frame.spread() <==> {
            &&& planes.y@ == frame.y@
            &&& planes.u@ == frame.u@
            &&& planes.v@ == frame.v@
            &&& planes.y_stride == frame.y_stride
            &&& planes.u_stride == frame.u_stride
            &&& planes.v_stride == frame.v_stride
        },
        planes_of(frame, planes) <==> planes@ == frame.spread(),
{
}

} // verus!
