//! The device's own screen recorder as a source of video.
use crate::text;
use vstd::prelude::*;
use vstd::string::*;

verus! {

/// A capture that is ready to be started: the arguments of the `adb` command
/// that streams the screen of a device as raw H.264 to its standard output.
pub struct Capture {
    pub args: Vec<String>,
}

/// The size of a picture, as the recorder takes it.
pub open spec fn size_words(width: u32, height: u32) -> Seq<char> {
    text::decimal(width as nat) + "x"@ + text::decimal(height as nat)
}

/// The arguments of the command that streams the screen of the device `serial`.
pub open spec fn record_args(serial: Seq<char>, width: u32, height: u32) -> Seq<Seq<char>> {
    seq![
        "-s"@,
        serial,
        "exec-out"@,
        "screenrecord"@,
        "--output-format=h264"@,
        "--size"@,
        size_words(width, height),
        "-"@,
    ]
}

impl Capture {
    /// Capture the screen of the device `serial`, scaled to `width` by `height`.
    pub fn start(serial: &str, width: u32, height: u32) -> (capture: Capture)
        ensures
            text::texts(capture.args@) == record_args(serial@, width, height),
    {
        let size: String = text::number(width as u64).concat("x").concat(
            text::number(height as u64).as_str(),
        );
        let args: Vec<String> = text::owned(
            &[
                "-s",
                serial,
                "exec-out",
                "screenrecord",
                "--output-format=h264",
                "--size",
                size.as_str(),
                "-",
            ],
        );
        assert(text::texts(args@) == record_args(serial@, width, height));
        Capture { args }
    }
}

/// `size` gives the width and then the height, each in decimal notation, with an
/// `x` between them.
pub open spec fn gives_size(size: Seq<char>, width: u32, height: u32) -> bool {
    exists|w: Seq<char>, h: Seq<char>|
        text::writes(w, width as nat) && text::writes(h, height as nat) && size == #[trigger] (w
            + seq!['x'] + h)
}

/// What the recorder is told can be read back: it records the device that was
/// asked for, as raw H.264 to its standard output, and the size behind `--size` is
/// the width and the height that were asked for, in this order.
pub proof fn law_recorder_is_told_the_size(serial: Seq<char>, width: u32, height: u32)
    ensures
        record_args(serial, width, height).len() == 8,
        record_args(serial, width, height).take(6) == seq![
            "-s"@,
            serial,
            "exec-out"@,
            "screenrecord"@,
            "--output-format=h264"@,
            "--size"@,
        ],
        gives_size(record_args(serial, width, height)[6], width, height),
        record_args(serial, width, height)[7] == "-"@,
{
    text::law_decimal_reads_back(width as nat);
    text::law_decimal_reads_back(height as nat);
    reveal_strlit("x");
    assert("x"@ == seq!['x']);
    let w = text::decimal(width as nat);
    let h = text::decimal(height as nat);
    assert(text::writes(w, width as nat) && text::writes(h, height as nat) && record_args(
        serial,
        width,
        height,
    )[6] == w + seq!['x'] + h);
}

/// What the size says is certain: no other width and height are given by it.
pub proof fn law_size_is_unambiguous(
    size: Seq<char>,
    width: u32,
    height: u32,
    other_width: u32,
    other_height: u32,
)
    requires
        gives_size(size, width, height),
        gives_size(size, other_width, other_height),
    ensures
        width == other_width,
        height == other_height,
{
    let (w, h) = choose|w: Seq<char>, h: Seq<char>|
        text::writes(w, width as nat) && text::writes(h, height as nat) && size == #[trigger] (w
            + seq!['x'] + h);
    let (v, g) = choose|w: Seq<char>, h: Seq<char>|
        text::writes(w, other_width as nat) && text::writes(h, other_height as nat) && size
            == #[trigger] (w + seq!['x'] + h);
    assert(size[w.len() as int] == 'x');
    assert(size[v.len() as int] == 'x');
    if w.len() < v.len() {
        assert(size[w.len() as int] == v[w.len() as int]);
    }
    if v.len() < w.len() {
        assert(size[v.len() as int] == w[v.len() as int]);
    }
    assert(w == size.take(w.len() as int));
    assert(v == size.take(w.len() as int));
    assert(h == size.skip(w.len() as int + 1));
    assert(g == size.skip(w.len() as int + 1));
}

} // verus!
