//! How a raw H.264 stream is fed through the parser and the decoder.
//!
//! The bytes arrive in pieces that pay no heed to where an access unit ends. The
//! parser takes some of them and may hand out a complete unit; each unit goes to
//! the decoder, and the decoder is drained of frames before parsing goes on.
use crate::frame::DecodedFrame;
use crate::text;
use vstd::prelude::*;
use vstd::string::*;

verus! {

/// What a codec answers when it is asked for the next thing it produces.
pub enum Received<T> {
    /// It produced this.
    Got(T),
    /// It needs more input first.
    Again,
    /// Its stream has ended, as it says in these words.
    Eof(String),
    /// It failed, as it says in these words.
    Failed(String),
}

/// Why bytes could not be decoded.
#[derive(Debug)]
pub enum DecodeError {
    /// The parser failed with this code.
    Parser(i32),
    /// The parser took nothing of this many bytes and handed out nothing.
    NoProgress(usize),
    /// The decoder failed, as it says in these words.
    Codec(String),
}

impl DecodeError {
    /// The error in words.
    pub open spec fn words(self) -> Seq<char> {
        match self {
            DecodeError::Parser(code) => "av_parser_parse2 failed: "@ + text::signed_decimal(
                code as int,
            ),
            DecodeError::NoProgress(left) => "H.264 parser made no progress on "@
                + text::decimal(left as nat) + " bytes"@,
            DecodeError::Codec(why) => why@,
        }
    }

    /// The error in words.
    pub fn message(&self) -> (m: String)
        ensures
            m@ == self.words(),
    {
        match self {
            DecodeError::Parser(code) => "av_parser_parse2 failed: ".to_owned().concat(
                text::signed_number(*code).as_str(),
            ),
            DecodeError::NoProgress(left) => "H.264 parser made no progress on ".to_owned().concat(
                text::number(*left as u64).as_str(),
            ).concat(" bytes"),
            DecodeError::Codec(why) => why.as_str().to_owned(),
        }
    }
}

/// What is going on with the bytes that were pushed.
#[derive(Debug, Clone, Copy, PartialEq, Eq, Structural)]
pub enum DecodePhase {
    /// The parser is to take bytes.
    Parsing,
    /// A complete unit is to be sent to the decoder.
    Sending,
    /// The decoder is to be asked for frames.
    Draining,
    /// Nothing is to be done until bytes are pushed.
    Resting,
}

/// What is to be done next.
#[derive(Debug, Clone, Copy, PartialEq, Eq, Structural)]
pub enum DecodeAction {
    /// Hand the parser the bytes from position `from` on; `size` is their number
    /// as the parser counts.
    Parse { from: usize, size: i32 },
    /// Send the unit that the parser handed out to the decoder.
    SendUnit,
    /// Ask the decoder for a frame.
    ReceiveFrame,
    /// Nothing: the bytes are used up, or decoding failed.
    Rest,
}

/// What came of an action.
pub enum DecodeEvent {
    /// The parser took `consumed` bytes, or failed if that is negative. The unit
    /// that it handed out has `unit_size` bytes; `has_unit` says whether it is
    /// there at all.
    Parsed { consumed: i32, unit_size: i32, has_unit: bool },
    /// The decoder took the unit, or said why not.
    Sent(Result<(), String>),
    /// The decoder answered this.
    Received(Received<DecodedFrame>),
}

/// The course of decoding. `from` of the `len` bytes that were pushed last are
/// used up. `failure` says why decoding them failed, if it did.
pub struct H264Decoder {
    pub len: usize,
    pub from: usize,
    pub phase: DecodePhase,
    pub failure: Option<DecodeError>,
}

impl H264Decoder {
    /// No more is used up than was pushed, the parser is only asked while there
    /// is something left, and decoding that rests without a failure has used up
    /// everything.
    pub open spec fn wf(self) -> bool {
        &&& self.from <= self.len
        &&& self.phase is Parsing ==> self.from < self.len
        &&& self.phase is Resting && self.failure is None ==> self.from == self.len
        &&& self.failure is Some ==> self.phase is Resting
    }

    /// `event` answers what is to be done now. The parser never takes more than
    /// it was handed.
    pub open spec fn accepts(self, event: DecodeEvent) -> bool {
        match event {
            DecodeEvent::Parsed { consumed, unit_size, has_unit } => self.phase is Parsing
                && consumed <= self.len - self.from,
            DecodeEvent::Sent(_) => self.phase is Sending,
            DecodeEvent::Received(_) => self.phase is Draining,
        }
    }

    /// Decoding has failed.
    pub open spec fn failing(self, why: DecodeError) -> H264Decoder {
        H264Decoder { phase: DecodePhase::Resting, failure: Some(why), ..self }
    }

    /// Parsing goes on if anything is left.
    pub open spec fn resumed(self) -> H264Decoder {
        H264Decoder {
            phase: if self.from < self.len {
                DecodePhase::Parsing
            } else {
                DecodePhase::Resting
            },
            ..self
        }
    }

    /// The course of decoding after `event`.
    pub open spec fn after(self, event: DecodeEvent) -> H264Decoder {
        match event {
            DecodeEvent::Parsed { consumed, unit_size, has_unit } => if consumed < 0 {
                self.failing(DecodeError::Parser(consumed))
            } else if consumed == 0 && unit_size == 0 {
                self.failing(DecodeError::NoProgress((self.len - self.from) as usize))
            } else {
                let moved = H264Decoder { from: (self.from + consumed) as usize, ..self };
                if unit_size > 0 && has_unit {
                    H264Decoder { phase: DecodePhase::Sending, ..moved }
                } else {
                    moved.resumed()
                }
            },
            DecodeEvent::Sent(Ok(_)) => H264Decoder { phase: DecodePhase::Draining, ..self },
            DecodeEvent::Sent(Err(why)) => self.failing(DecodeError::Codec(why)),
            DecodeEvent::Received(Received::Got(_)) => self,
            DecodeEvent::Received(Received::Again) => self.resumed(),
            DecodeEvent::Received(Received::Eof(_)) => self.resumed(),
            DecodeEvent::Received(Received::Failed(why)) => self.failing(DecodeError::Codec(why)),
        }
    }

    /// The course of decoding after `events`.
    pub open spec fn after_all(self, events: Seq<DecodeEvent>) -> H264Decoder
        decreases events.len(),
    {
        if events.len() == 0 {
            self
        } else {
            self.after_all(events.drop_last()).after(events.last())
        }
    }

    /// Each of `events` answers what is to be done when it happens.
    pub open spec fn accepts_all(self, events: Seq<DecodeEvent>) -> bool
        decreases events.len(),
    {
        events.len() > 0 ==> self.accepts_all(events.drop_last()) && self.after_all(
            events.drop_last(),
        ).accepts(events.last())
    }

    /// What the decoder asks for next.
    pub open spec fn asks(self) -> DecodeAction {
        match self.phase {
            DecodePhase::Parsing => DecodeAction::Parse {
                from: self.from,
                size: ((self.len - self.from) as usize) as i32,
            },
            DecodePhase::Sending => DecodeAction::SendUnit,
            DecodePhase::Draining => DecodeAction::ReceiveFrame,
            DecodePhase::Resting => DecodeAction::Rest,
        }
    }

    /// A decoder that has not been fed yet.
    pub fn new() -> (d: H264Decoder)
        ensures
            d == (H264Decoder {
                len: 0,
                from: 0,
                phase: DecodePhase::Resting,
                failure: None,
            }),
            d.wf(),
    {
        H264Decoder { len: 0, from: 0, phase: DecodePhase::Resting, failure: None }
    }

    /// Start on `len` newly read bytes.
    pub fn push(&mut self, len: usize)
        requires
            old(self).phase is Resting,
        ensures
            *final(self) == pushed(len),
            final(self).wf(),
    {
        self.len = len;
        self.from = 0;
        self.failure = None;
        self.phase = if len > 0 {
            DecodePhase::Parsing
        } else {
            DecodePhase::Resting
        };
    }

    /// What is to be done next.
    pub fn action(&self) -> (action: DecodeAction)
        requires
            self.wf(),
        ensures
            action == match self.phase {
                DecodePhase::Parsing => DecodeAction::Parse {
                    from: self.from,
                    size: ((self.len - self.from) as usize) as i32,
                },
                DecodePhase::Sending => DecodeAction::SendUnit,
                DecodePhase::Draining => DecodeAction::ReceiveFrame,
                DecodePhase::Resting => DecodeAction::Rest,
            },
            action == self.asks(),
    {
        match self.phase {
            DecodePhase::Parsing => DecodeAction::Parse {
                from: self.from,
                size: #[verifier::truncate] ((self.len - self.from) as i32),
            },
            DecodePhase::Sending => DecodeAction::SendUnit,
            DecodePhase::Draining => DecodeAction::ReceiveFrame,
            DecodePhase::Resting => DecodeAction::Rest,
        }
    }

    /// Go on after `event`. A frame that was received is appended to `out`.
    pub fn advance(&mut self, event: DecodeEvent, out: &mut Vec<DecodedFrame>)
        requires
            old(self).wf(),
            old(self).accepts(event),
        ensures
            *final(self) == old(self).after(event),
            final(self).wf(),
            final(out)@ == old(out)@ + frames_in(event),
    {
        match event {
            DecodeEvent::Parsed { consumed, unit_size, has_unit } => {
                if consumed < 0 {
                    self.failure = Some(DecodeError::Parser(consumed));
                    self.phase = DecodePhase::Resting;
                } else if consumed == 0 && unit_size == 0 {
                    self.failure = Some(DecodeError::NoProgress(self.len - self.from));
                    self.phase = DecodePhase::Resting;
                } else {
                    self.from = self.from + consumed as usize;
                    if unit_size > 0 && has_unit {
                        self.phase = DecodePhase::Sending;
                    } else {
                        self.resume();
                    }
                }
            },
            DecodeEvent::Sent(Ok(_)) => {
                self.phase = DecodePhase::Draining;
            },
            DecodeEvent::Sent(Err(why)) => {
                self.failure = Some(DecodeError::Codec(why));
                self.phase = DecodePhase::Resting;
            },
            DecodeEvent::Received(Received::Got(frame)) => {
                out.push(frame);
            },
            DecodeEvent::Received(Received::Again) => {
                self.resume();
            },
            DecodeEvent::Received(Received::Eof(_)) => {
                self.resume();
            },
            DecodeEvent::Received(Received::Failed(why)) => {
                self.failure = Some(DecodeError::Codec(why));
                self.phase = DecodePhase::Resting;
            },
        }
    }

    /// Go on parsing if anything is left.
    fn resume(&mut self)
        ensures
            *final(self) == old(self).resumed(),
    {
        self.phase = if self.from < self.len {
            DecodePhase::Parsing
        } else {
            DecodePhase::Resting
        };
    }
}

/// A decoder that was just handed `len` bytes.
pub open spec fn pushed(len: usize) -> H264Decoder {
    H264Decoder { len, from: 0, phase: DecodePhase::Parsing, failure: None }.resumed()
}

/// The frames that an event brings.
pub open spec fn frames_in(event: DecodeEvent) -> Seq<DecodedFrame> {
    match event {
        DecodeEvent::Received(Received::Got(frame)) => seq![frame],
        _ => seq![],
    }
}

/// How many bytes the parser took in an event.
pub open spec fn consumed_in(event: DecodeEvent) -> nat {
    match event {
        DecodeEvent::Parsed { consumed, unit_size, has_unit } => if consumed < 0 {
            0
        } else {
            consumed as nat
        },
        _ => 0,
    }
}

/// How many bytes the parser took in `events`.
pub open spec fn all_consumed_in(events: Seq<DecodeEvent>) -> nat
    decreases events.len(),
{
    if events.len() == 0 {
        0
    } else {
        all_consumed_in(events.drop_last()) + consumed_in(events.last())
    }
}

/// However the parser and the decoder answer, each byte that was pushed is
/// handed out at most once and in order: parsing goes on just behind the bytes
/// that were taken. Where decoding comes to rest without a failure, every byte
/// was taken.
pub proof fn law_every_byte_is_parsed(len: usize, events: Seq<DecodeEvent>)
    requires
        pushed(len).accepts_all(events),
    ensures
        pushed(len).after_all(events).wf(),
        pushed(len).after_all(events).len == len,
        pushed(len).after_all(events).from == all_consumed_in(events),
        ({
            let end = pushed(len).after_all(events);
            end.phase is Resting && end.failure is None ==> all_consumed_in(events) == len
        }),
    decreases events.len(),
{
    if events.len() > 0 {
        law_every_byte_is_parsed(len, events.drop_last());
    }
}

/// Parsing never stands still: a parser that hands out a unit where it reports
/// one either takes a byte, hands out a unit, or is given up on.
pub proof fn law_no_standstill(d: H264Decoder, consumed: i32, unit_size: i32, has_unit: bool)
    requires
        d.wf(),
        d.accepts(DecodeEvent::Parsed { consumed, unit_size, has_unit }),
        unit_size >= 0,
        unit_size > 0 ==> has_unit,
    ensures
        ({
            let next = d.after(DecodeEvent::Parsed { consumed, unit_size, has_unit });
            next.failure is Some || next.phase is Sending || next.from > d.from
        }),
{
}

/// A failure ends the decoding of what was pushed: nothing more is asked of the
/// parser or the decoder.
pub proof fn law_failure_is_final(d: H264Decoder, event: DecodeEvent)
    requires
        d.wf(),
        d.failure is Some,
    ensures
        !d.accepts(event),
{
}

/// Bytes that are pushed are handed to the parser from their first on, all of them;
/// if there are none, there is nothing to do.
pub proof fn law_push_starts_at_the_front(len: usize)
    ensures
        pushed(0).asks() == DecodeAction::Rest,
        0 < len <= 0x7fff_ffff ==> {
            &&& pushed(len).asks() matches DecodeAction::Parse { from, size }
            &&& from == 0
            &&& size == len
        },
        pushed(len).failure is None,
        pushed(len).wf(),
{
}

/// After the parser took bytes, a unit that it handed out is sent to the decoder, and
/// else it is handed what is left, from just behind what it took. A parser that fails
/// is given up on, and so is one that neither takes a byte nor has a unit; why is
/// told in words.
pub proof fn law_parser_is_followed(
    d: H264Decoder,
    consumed: i32,
    unit_size: i32,
    has_unit: bool,
)
    requires
        d.wf(),
        d.failure is None,
        d.len <= 0x7fff_ffff,
        d.asks() is Parse,
        consumed <= d.len - d.from,
    ensures
        ({
            let event = DecodeEvent::Parsed { consumed, unit_size, has_unit };
            let next = d.after(event);
            &&& d.accepts(event)
            &&& d.asks() == (DecodeAction::Parse { from: d.from, size: (d.len - d.from) as i32 })
            &&& next.len == d.len
            &&& consumed < 0 ==> {
                &&& next.asks() is Rest
                &&& next.failure is Some
                &&& next.failure->Some_0 == DecodeError::Parser(consumed)
            }
            &&& consumed == 0 && unit_size == 0 ==> {
                &&& next.asks() is Rest
                &&& next.failure is Some
                &&& next.failure->Some_0 == DecodeError::NoProgress((d.len - d.from) as usize)
            }
            &&& consumed > 0 || (consumed == 0 && unit_size != 0) ==> {
                &&& next.failure is None
                &&& next.from == d.from + consumed
                &&& unit_size > 0 && has_unit ==> next.asks() is SendUnit
                &&& !(unit_size > 0 && has_unit) ==> next.asks() == if d.from + consumed < d.len {
                    DecodeAction::Parse {
                        from: (d.from + consumed) as usize,
                        size: (d.len - d.from - consumed) as i32,
                    }
                } else {
                    DecodeAction::Rest
                }
            }
        }),
{
}

/// A unit that was sent has the decoder asked for frames until it needs more; each
/// frame is kept. The parser is handed what is left then, or there is nothing more to
/// do. What the decoder fails with is told as it is.
pub proof fn law_decoder_is_drained(d: H264Decoder, frame: DecodedFrame, why: String)
    requires
        d.wf(),
        d.failure is None,
        d.len <= 0x7fff_ffff,
    ensures
        ({
            let rest = if d.from < d.len {
                DecodeAction::Parse { from: d.from, size: (d.len - d.from) as i32 }
            } else {
                DecodeAction::Rest
            };
            let sent = d.after(DecodeEvent::Sent(Ok(())));
            let unsent = d.after(DecodeEvent::Sent(Err(why)));
            let got = d.after(DecodeEvent::Received(Received::Got(frame)));
            let again = d.after(DecodeEvent::Received(Received::Again));
            let ended = d.after(DecodeEvent::Received(Received::Eof(why)));
            let failed = d.after(DecodeEvent::Received(Received::Failed(why)));
            &&& d.asks() is SendUnit ==> {
                &&& d.accepts(DecodeEvent::Sent(Ok(())))
                &&& d.accepts(DecodeEvent::Sent(Err(why)))
                &&& sent.asks() is ReceiveFrame && sent.failure is None && sent.from == d.from
                &&& unsent.asks() is Rest && unsent.failure == Some(DecodeError::Codec(why))
            }
            &&& d.asks() is ReceiveFrame ==> {
                &&& d.accepts(DecodeEvent::Received(Received::Got(frame)))
                &&& d.accepts(DecodeEvent::Received(Received::Again))
                &&& d.accepts(DecodeEvent::Received(Received::Eof(why)))
                &&& d.accepts(DecodeEvent::Received(Received::Failed(why)))
                &&& got == d
                &&& again.asks() == rest && again.failure is None && again.from == d.from
                &&& ended.asks() == rest && ended.failure is None && ended.from == d.from
                &&& failed.asks() is Rest && failed.failure == Some(DecodeError::Codec(why))
            }
        }),
{
}

/// Every frame that the decoder hands out is kept, in order, and nothing else.
pub proof fn law_frames_are_kept(frame: DecodedFrame, event: DecodeEvent)
    ensures
        frames_in(DecodeEvent::Received(Received::Got(frame))) == seq![frame],
        (forall|f: DecodedFrame| event != DecodeEvent::Received(Received::Got(f))) ==> frames_in(
            event,
        ).len() == 0,
{
    match event {
        DecodeEvent::Received(Received::Got(f)) => {
            assert(event == DecodeEvent::Received(Received::Got(f)));
        },
        _ => {},
    }
}

/// Why decoding failed is told with the number that goes with it, or in the decoder's
/// own words.
pub proof fn law_decode_errors_are_told(code: i32, left: usize, why: String)
    ensures
        code >= 0 ==> exists|n: Seq<char>|
            text::writes(n, code as nat) && DecodeError::Parser(code).words()
                == #[trigger] ("av_parser_parse2 failed: "@ + n),
        code < 0 ==> exists|n: Seq<char>|
            text::writes(n, (-code) as nat) && DecodeError::Parser(code).words()
                == #[trigger] ("av_parser_parse2 failed: "@ + (seq!['-'] + n)),
        exists|n: Seq<char>|
            text::writes(n, left as nat) && DecodeError::NoProgress(left).words()
                == #[trigger] ("H.264 parser made no progress on "@ + n + " bytes"@),
        DecodeError::Codec(why).words() == why@,
{
    text::law_decimal_reads_back(left as nat);
    let n = text::decimal(left as nat);
    assert(text::writes(n, left as nat) && DecodeError::NoProgress(left).words()
        == "H.264 parser made no progress on "@ + n + " bytes"@);
    if code < 0 {
        let m = text::decimal((-code) as nat);
        text::law_decimal_reads_back((-code) as nat);
        assert(text::writes(m, (-code) as nat) && DecodeError::Parser(code).words()
            == "av_parser_parse2 failed: "@ + (seq!['-'] + m));
    } else {
        let m = text::decimal(code as nat);
        text::law_decimal_reads_back(code as nat);
        assert(text::writes(m, code as nat) && DecodeError::Parser(code).words()
            == "av_parser_parse2 failed: "@ + m);
    }
}

} // verus!
