use usb_display_bridge::adb::{Output, Reply};
use usb_display_bridge::extend::{ExtendStream, StreamAction, StreamEvent, StreamPhase};
use usb_display_bridge::frame::{DecodedFrame, FrameBuf, FrameSlot, PixelFormat, Plane};
use usb_display_bridge::mirror;
use usb_display_bridge::mirror::{
    DecodeEnd, DecodeLoop, DecodeNews, DecodeStep, Mirror, MirrorAction, MirrorEvent, MirrorPhase,
};
use usb_display_bridge::preview::{ExtendPreview, PreviewAction, PreviewEvent, PreviewPhase};
use usb_display_bridge::screencap::EncodedPacket;
use usb_display_bridge::tunnel_test::{TestTunnel, TunnelAction, TunnelEvent, TunnelPhase};

fn said(stdout: &str) -> Reply {
    Reply::Finished(Output {
        success: true,
        status: String::new(),
        stdout: stdout.as_bytes().to_vec(),
        stderr: Vec::new(),
    })
}

fn refused(stderr: &str) -> Reply {
    Reply::Finished(Output {
        success: false,
        status: "1".to_string(),
        stdout: Vec::new(),
        stderr: stderr.as_bytes().to_vec(),
    })
}

fn one_device() -> Reply {
    said("List of devices attached\nS device\n")
}

// The tunnel test.

fn tunnel_test() -> TestTunnel {
    TestTunnel::new(None, "dir/Cargo.toml".to_string(), 27183)
}

fn tunnel_args(test: &TestTunnel) -> Vec<String> {
    match test.action() {
        TunnelAction::Adb(args) => args,
        _ => panic!("no command"),
    }
}

fn tunnel_lines(test: &TestTunnel) -> Vec<String> {
    match test.action() {
        TunnelAction::Print(said) => said,
        _ => panic!("nothing to print"),
    }
}

fn replied(test: &mut TestTunnel, reply: Reply) {
    test.advance(TunnelEvent::Replied(reply));
}

fn open_tunnel() -> TestTunnel {
    let mut test: TestTunnel = tunnel_test();
    replied(&mut test, one_device());
    replied(&mut test, said("pushed"));
    replied(&mut test, said(""));
    test
}

fn why_not(test: &TestTunnel) -> (TunnelPhase, &str) {
    assert!(matches!(test.action(), TunnelAction::Finish));
    let f = test.failure.as_ref().unwrap();
    (f.at, f.cause.as_str())
}

#[test]
fn tunnel_test_runs_its_course() {
    let mut test: TestTunnel = tunnel_test();
    assert_eq!(tunnel_args(&test), ["devices", "-l"]);
    replied(&mut test, one_device());
    assert_eq!(
        tunnel_args(&test),
        ["-s", "S", "push", "dir/Cargo.toml", "/data/local/tmp/Cargo.toml"]
    );
    replied(&mut test, said("1 file pushed"));
    assert_eq!(
        tunnel_args(&test),
        ["-s", "S", "reverse", "localabstract:usdb_test", "tcp:27183"]
    );
    replied(&mut test, said(""));
    assert_eq!(tunnel_args(&test), ["-s", "S", "reverse", "--list"]);
    replied(&mut test, said("host-13 localabstract:usdb_test tcp:27183\n"));
    assert_eq!(
        tunnel_lines(&test),
        [
            "reverse tunnel open: usdb_test -> tcp:27183",
            "press Ctrl-C to abort, or waiting 2s to test clean teardown...",
        ]
    );
    test.advance(TunnelEvent::Done);
    assert!(matches!(test.action(), TunnelAction::Pause(2)));
    test.advance(TunnelEvent::Done);
    assert_eq!(
        tunnel_args(&test),
        ["-s", "S", "reverse", "--remove", "localabstract:usdb_test"]
    );
    replied(&mut test, said(""));
    assert_eq!(tunnel_args(&test), ["-s", "S", "reverse", "--list"]);
    replied(&mut test, said("\n"));
    assert_eq!(tunnel_lines(&test), ["tunnel closed cleanly."]);
    test.advance(TunnelEvent::Done);
    assert!(matches!(test.action(), TunnelAction::Finish));
    assert!(test.failure.is_none());
}

#[test]
fn tunnel_that_is_not_listed_is_removed_all_the_same() {
    assert!(tunnel_test().open_tunnel().is_none());
    let mut test: TestTunnel = open_tunnel();
    assert_eq!(test.open_tunnel().unwrap().remote_spec, "localabstract:usdb_test");
    replied(&mut test, said("other\n"));
    assert_eq!(tunnel_args(&test), test.open_tunnel().unwrap().removal());
    assert_eq!(tunnel_args(&test)[3], "--remove");
    replied(&mut test, refused("gone"));
    assert!(test.open_tunnel().is_none());
    assert_eq!(
        why_not(&test),
        (
            TunnelPhase::Listing,
            "tunnel opened but `adb reverse --list` does not contain usdb_test:\nother\n"
        )
    );
}

#[test]
fn listing_that_fails_has_the_tunnel_removed() {
    let mut test: TestTunnel = open_tunnel();
    replied(&mut test, refused("offline"));
    assert_eq!(tunnel_args(&test)[3], "--remove");
    replied(&mut test, said(""));
    assert_eq!(why_not(&test), (TunnelPhase::Listing, "adb failed: offline"));
}

#[test]
fn tunnel_that_stays_is_reported() {
    let mut test: TestTunnel = open_tunnel();
    replied(&mut test, said("usdb_test"));
    test.advance(TunnelEvent::Done);
    test.advance(TunnelEvent::Done);
    let logged = test.advance(TunnelEvent::Replied(refused("could not remove")));
    assert_eq!(logged.unwrap().message(), "adb failed: could not remove");
    replied(&mut test, said("x\nlocalabstract:usdb_test tcp:1\n"));
    assert_eq!(
        why_not(&test),
        (
            TunnelPhase::Relisting,
            "tunnel still listed after close:\nx\nlocalabstract:usdb_test tcp:1\n"
        )
    );
    let mut test: TestTunnel = open_tunnel();
    replied(&mut test, said("usdb_test"));
    test.advance(TunnelEvent::Done);
    test.advance(TunnelEvent::Done);
    replied(&mut test, said(""));
    replied(&mut test, refused("unplugged"));
    assert_eq!(why_not(&test), (TunnelPhase::Relisting, "adb failed: unplugged"));
}

#[test]
fn tunnel_test_fails_before_there_is_a_tunnel() {
    let mut test: TestTunnel = tunnel_test();
    replied(&mut test, said(""));
    assert_eq!(
        why_not(&test),
        (
            TunnelPhase::Selecting,
            "no connected devices. Plug in a phone and enable USB debugging."
        )
    );
    let mut test: TestTunnel = tunnel_test();
    replied(&mut test, one_device());
    replied(&mut test, refused("full"));
    assert_eq!(
        why_not(&test),
        (
            TunnelPhase::Pushing,
            "pushing dir/Cargo.toml: adb push failed: adb failed: full"
        )
    );
    let mut test: TestTunnel = tunnel_test();
    replied(&mut test, one_device());
    replied(&mut test, said(""));
    replied(&mut test, refused("denied"));
    assert_eq!(
        why_not(&test),
        (TunnelPhase::Opening, "adb reverse failed: adb failed: denied")
    );
}

#[test]
fn probe_without_a_file_name_fails_the_test() {
    let mut test: TestTunnel = TestTunnel::with_name(None, "p".to_string(), None, 1);
    replied(&mut test, one_device());
    assert_eq!(
        why_not(&test),
        (TunnelPhase::Pushing, "pushing p: local path has no filename: p")
    );
    let test: TestTunnel = TestTunnel::new(None, "a/..".to_string(), 1);
    assert!(test.name.is_none());
}

#[test]
fn serial_that_was_asked_for_is_used() {
    let two = || said("List\nA device\nB device\n");
    let mut test: TestTunnel =
        TestTunnel::with_name(Some("B".to_string()), "p".to_string(), Some("p".to_string()), 1);
    replied(&mut test, two());
    assert_eq!(tunnel_args(&test)[1], "B");
    let mut test: TestTunnel =
        TestTunnel::with_name(Some("C".to_string()), "p".to_string(), Some("p".to_string()), 1);
    replied(&mut test, two());
    assert_eq!(why_not(&test).1, "--serial C not found among connected devices");
}

// Extend mode.

fn extend_session() -> ExtendStream {
    ExtendStream::new("app.apk".to_string(), None, 27183, 2, 30)
}

fn extend_args(s: &ExtendStream) -> Vec<String> {
    match s.action() {
        StreamAction::Adb(args) => args,
        _ => panic!("no command"),
    }
}

fn sending(s: &ExtendStream) -> Vec<u8> {
    match s.action() {
        StreamAction::Send(bytes) => bytes.to_vec(),
        _ => panic!("nothing to send"),
    }
}

/// Takes the session, in which everything succeeds, to `phase`.
fn extend_at(phase: StreamPhase) -> ExtendStream {
    let mut s: ExtendStream = extend_session();
    while s.phase != phase {
        let event: StreamEvent = match s.action() {
            StreamAction::CheckApk => StreamEvent::Checked(true),
            StreamAction::Adb(args) if args[0] == "devices" => StreamEvent::Replied(one_device()),
            StreamAction::Adb(_) => StreamEvent::Replied(said("")),
            StreamAction::NextPacket => packet(vec![9; 300]),
            StreamAction::Finish => panic!("over"),
            _ => StreamEvent::Done(Ok(())),
        };
        s.advance(event);
    }
    s
}

fn packet(data: Vec<u8>) -> StreamEvent {
    StreamEvent::Pulled(Ok(Some(EncodedPacket { data, keyframe: false })))
}

/// Ends the session, whose teardown fails throughout; gives the commands of the
/// teardown and what is reported.
fn torn_down(mut s: ExtendStream) -> (Vec<String>, StreamPhase, String) {
    let mut run: Vec<String> = Vec::new();
    while let StreamAction::Adb(args) = s.action() {
        run.push(args[2..].join(" "));
        let logged = s.advance(StreamEvent::Replied(refused("unplugged")));
        assert_eq!(logged.unwrap().message(), "adb failed: unplugged");
    }
    assert!(matches!(s.action(), StreamAction::Finish));
    let f = s.failure.unwrap();
    (run, f.at, f.cause)
}

const TEARDOWN: [&str; 3] = [
    "shell am force-stop dev.usbdisplaybridge.extend",
    "uninstall dev.usbdisplaybridge.extend",
    "reverse --remove tcp:27183",
];

#[test]
fn extend_session_sets_up_in_order() {
    let mut s: ExtendStream = extend_session();
    assert!(matches!(s.action(), StreamAction::CheckApk));
    s.advance(StreamEvent::Checked(true));
    assert_eq!(extend_args(&s), ["devices", "-l"]);
    s.advance(StreamEvent::Replied(one_device()));
    assert!(matches!(s.action(), StreamAction::Bind(27183)));
    s.advance(StreamEvent::Done(Ok(())));
    assert_eq!(extend_args(&s), ["-s", "S", "reverse", "tcp:27183", "tcp:27183"]);
    s.advance(StreamEvent::Replied(said("")));
    assert_eq!(extend_args(&s), ["-s", "S", "install", "-r", "app.apk"]);
    s.advance(StreamEvent::Replied(said("")));
    assert_eq!(
        extend_args(&s),
        [
            "-s",
            "S",
            "shell",
            "am",
            "start",
            "-n",
            "dev.usbdisplaybridge.extend/.MainActivity"
        ]
    );
    s.advance(StreamEvent::Replied(said("")));
    assert!(matches!(s.action(), StreamAction::Accept));
    s.advance(StreamEvent::Done(Ok(())));
    assert!(matches!(s.action(), StreamAction::SetNodelay));
    s.advance(StreamEvent::Done(Ok(())));
    assert_eq!(sending(&s), [1]);
    s.advance(StreamEvent::Done(Ok(())));
    assert!(matches!(
        s.action(),
        StreamAction::StartCapture { output_idx: 2, framerate: 30 }
    ));
    s.advance(StreamEvent::Done(Ok(())));
    assert!(matches!(s.action(), StreamAction::NextPacket));
}

#[test]
fn packets_are_sent_with_their_length_first() {
    let mut s: ExtendStream = extend_at(StreamPhase::Pulling);
    s.advance(StreamEvent::Pulled(Ok(None)));
    assert!(matches!(s.action(), StreamAction::NextPacket));
    let mut wire: Vec<u8> = vec![1];
    for data in [vec![5u8; 258], vec![], vec![7, 8]] {
        s.advance(packet(data));
        wire.extend(sending(&s));
        s.advance(StreamEvent::Done(Ok(())));
        wire.extend(sending(&s));
        s.advance(StreamEvent::Done(Ok(())));
    }
    assert!(matches!(s.action(), StreamAction::NextPacket));
    let mut want: Vec<u8> = vec![1, 0, 0, 1, 2];
    want.extend([5u8; 258]);
    want.extend([0, 0, 0, 0]);
    want.extend([0, 0, 0, 2, 7, 8]);
    assert_eq!(wire, want);
}

#[test]
fn missing_app_ends_the_session_at_once() {
    let mut s: ExtendStream = extend_session();
    s.advance(StreamEvent::Checked(false));
    let (run, at, cause) = torn_down(s);
    assert!(run.is_empty());
    assert_eq!(at, StreamPhase::Checking);
    assert_eq!(
        cause,
        "device-app APK not found at app.apk -- \
         run `cd device-app && ./gradlew assembleDebug` first"
    );
}

#[test]
fn failures_before_the_tunnel_leave_nothing_to_undo() {
    let mut s: ExtendStream = extend_at(StreamPhase::Selecting);
    s.advance(StreamEvent::Replied(refused("no server")));
    let (run, at, cause) = torn_down(s);
    assert!(run.is_empty());
    assert_eq!((at, cause.as_str()), (StreamPhase::Selecting, "adb failed: no server"));
    let mut s: ExtendStream = extend_at(StreamPhase::Binding);
    s.advance(StreamEvent::Done(Err("in use".to_string())));
    let (run, at, cause) = torn_down(s);
    assert!(run.is_empty());
    assert_eq!((at, cause.as_str()), (StreamPhase::Binding, "binding 127.0.0.1:27183: in use"));
    let mut s: ExtendStream = extend_at(StreamPhase::Tunnelling);
    s.advance(StreamEvent::Replied(refused("denied")));
    let (run, at, cause) = torn_down(s);
    assert!(run.is_empty());
    assert_eq!(
        (at, cause.as_str()),
        (StreamPhase::Tunnelling, "adb reverse failed: adb failed: denied")
    );
}

#[test]
fn failed_install_only_has_the_tunnel_removed() {
    assert!(extend_at(StreamPhase::Tunnelling).open_tunnel().is_none());
    let mut s: ExtendStream = extend_at(StreamPhase::Installing);
    let tunnel = s.open_tunnel().unwrap();
    assert_eq!((tunnel.serial.as_str(), tunnel.remote_spec.as_str()), ("S", "tcp:27183"));
    s.advance(StreamEvent::Replied(refused("no space")));
    let (run, at, cause) = torn_down(s);
    assert_eq!(run, TEARDOWN[2..]);
    assert_eq!(at, StreamPhase::Installing);
    assert_eq!(cause, "installing device-app: adb install failed: adb failed: no space");
}

#[test]
fn failed_launch_takes_the_app_and_the_tunnel_down() {
    let mut s: ExtendStream = extend_at(StreamPhase::Launching);
    assert!(s.advance(StreamEvent::Replied(refused("x"))).is_none());
    let (run, at, cause) = torn_down(s);
    assert_eq!(run, TEARDOWN);
    assert_eq!(at, StreamPhase::Launching);
    assert_eq!(cause, "launching device-app: adb shell am start failed: adb failed: x");
}

#[test]
fn every_later_failure_takes_the_app_and_the_tunnel_down() {
    let cases: [(StreamPhase, &str); 6] = [
        (StreamPhase::Accepting, "accepting device-app connection: x"),
        (StreamPhase::Tuning, "setting TCP_NODELAY: x"),
        (StreamPhase::Greeting, "sending version byte: x"),
        (StreamPhase::Starting, "starting display capture: x"),
        (StreamPhase::Heading, "writing frame length: x"),
        (StreamPhase::Sending, "writing frame payload: x"),
    ];
    for (phase, words) in cases {
        let mut s: ExtendStream = extend_at(phase);
        s.advance(StreamEvent::Done(Err("x".to_string())));
        let (run, at, cause) = torn_down(s);
        assert_eq!(run, TEARDOWN);
        assert_eq!((at, cause.as_str()), (phase, words));
    }
    let mut s: ExtendStream = extend_at(StreamPhase::Pulling);
    s.advance(StreamEvent::Pulled(Err("lost".to_string())));
    let (run, at, cause) = torn_down(s);
    assert_eq!(run, TEARDOWN);
    assert_eq!((at, cause.as_str()), (StreamPhase::Pulling, "lost"));
}

#[test]
fn teardown_that_succeeds_reports_the_first_failure_too() {
    let mut s: ExtendStream = extend_at(StreamPhase::Heading);
    s.advance(StreamEvent::Done(Err("reset".to_string())));
    for _ in 0..3 {
        assert!(s.advance(StreamEvent::Replied(said(""))).is_none());
    }
    assert!(matches!(s.action(), StreamAction::Finish));
    assert_eq!(s.failure.unwrap().cause, "writing frame length: reset");
}

// Mirror mode.

fn frame_of(format: PixelFormat, width: u32, mark: u8) -> DecodedFrame {
    let plane = || Plane { data: vec![mark], stride: 1 };
    DecodedFrame { format, width, height: 9, y: plane(), u: plane(), v: plane() }
}

fn yuv(width: u32, mark: u8) -> DecodedFrame {
    frame_of(PixelFormat::Yuv420p, width, mark)
}

fn odd() -> DecodedFrame {
    frame_of(PixelFormat::Other("RGB24".to_string()), 16, 0)
}

fn picture_of(width: u32, mark: u8) -> FrameBuf {
    FrameBuf::from_yuv420p(yuv(width, mark)).unwrap()
}

fn mirror_at_polling() -> Mirror {
    let mut m: Mirror = Mirror::new(None, 1280, 720);
    assert!(matches!(m.action(), MirrorAction::Adb(args) if args == ["devices", "-l"]));
    m.advance(MirrorEvent::Replied(one_device()));
    assert!(matches!(
        m.action(),
        MirrorAction::StartCapture(args) if args[1] == "S" && args[6] == "1280x720"
    ));
    m.advance(MirrorEvent::Done(Ok(())));
    assert!(matches!(m.action(), MirrorAction::SpawnDecoder));
    m.advance(MirrorEvent::Done(Ok(())));
    assert!(matches!(
        m.action(),
        MirrorAction::OpenWindow {
            title: "USB Display Bridge -- mirror (naive, M1)",
            width: 1280,
            height: 720
        }
    ));
    m.advance(MirrorEvent::Done(Ok(())));
    assert!(matches!(m.action(), MirrorAction::Poll));
    m
}

fn waited(m: &mut Mirror, picture: Option<FrameBuf>) {
    assert!(matches!(m.action(), MirrorAction::Poll));
    m.advance(MirrorEvent::Polled(false));
    assert!(matches!(m.action(), MirrorAction::Wait(16)));
    m.advance(MirrorEvent::Waited(picture));
}

#[test]
fn mirror_shows_what_it_gets() {
    let mut m: Mirror = mirror_at_polling();
    waited(&mut m, None);
    waited(&mut m, Some(picture_of(16, 1)));
    assert!(matches!(m.action(), MirrorAction::NewTexture { width: 16, height: 9 }));
    m.advance(MirrorEvent::Done(Ok(())));
    assert!(matches!(m.action(), MirrorAction::Present(p) if p.y == [1]));
    m.advance(MirrorEvent::Done(Ok(())));
    waited(&mut m, Some(picture_of(16, 2)));
    assert!(matches!(m.action(), MirrorAction::Present(p) if p.y == [2]));
    m.advance(MirrorEvent::Done(Ok(())));
    waited(&mut m, Some(picture_of(32, 3)));
    assert!(matches!(m.action(), MirrorAction::NewTexture { width: 32, height: 9 }));
}

#[test]
fn mirror_ends_the_capture_before_it_joins() {
    let mut m: Mirror = mirror_at_polling();
    m.advance(MirrorEvent::Polled(true));
    assert!(matches!(m.action(), MirrorAction::StopCapture));
    m.advance(MirrorEvent::Done(Ok(())));
    assert!(matches!(m.action(), MirrorAction::JoinDecoder));
    m.advance(MirrorEvent::Done(Err("panicked".to_string())));
    assert!(matches!(m.action(), MirrorAction::Finish));
    assert!(m.failure.is_none());
}

#[test]
fn mirror_that_fails_ends_its_capture() {
    let mut m: Mirror = mirror_at_polling();
    waited(&mut m, Some(picture_of(16, 1)));
    m.advance(MirrorEvent::Done(Err("creating streaming YUV texture: x".to_string())));
    assert!(matches!(m.action(), MirrorAction::StopCapture));
    m.advance(MirrorEvent::Done(Ok(())));
    assert!(matches!(m.action(), MirrorAction::Finish));
    let f = m.failure.unwrap();
    assert_eq!(f.at, MirrorPhase::Texturing);
    assert_eq!(f.cause, "creating streaming YUV texture: x");
}

#[test]
fn mirror_that_does_not_start_is_over() {
    let mut m: Mirror = Mirror::new(Some("Z".to_string()), 1, 1);
    m.advance(MirrorEvent::Replied(said("")));
    assert!(matches!(m.action(), MirrorAction::Finish));
    assert_eq!(m.failure.unwrap().at, MirrorPhase::Selecting);
    let mut m: Mirror = Mirror::new(None, 1, 1);
    m.advance(MirrorEvent::Replied(one_device()));
    m.advance(MirrorEvent::Done(Err("x".to_string())));
    assert!(matches!(m.action(), MirrorAction::Finish));
    assert_eq!(m.failure.unwrap().cause, "starting screenrecord capture: x");
    let mut m: Mirror = Mirror::new(None, 1, 1);
    m.advance(MirrorEvent::Replied(one_device()));
    m.advance(MirrorEvent::Done(Ok(())));
    m.advance(MirrorEvent::Done(Err("x".to_string())));
    assert!(matches!(m.action(), MirrorAction::StopCapture));
    assert_eq!(m.failure.unwrap().cause, "spawning decode thread: x");
}

#[test]
fn decode_thread_hands_out_what_can_be_shown() {
    let mut t: DecodeLoop = DecodeLoop::new();
    assert_eq!(t.step, DecodeStep::Open);
    assert!(t.advance(DecodeNews::Opened(Ok(()))).is_empty());
    assert_eq!(t.step, DecodeStep::Read);
    assert!(t.advance(DecodeNews::Read(Ok(100))).is_empty());
    assert_eq!(t.step, DecodeStep::Push(100));
    let stored: Vec<FrameBuf> =
        t.advance(DecodeNews::Decoded(Ok(vec![yuv(16, 1), odd(), yuv(16, 2)])));
    let marks: Vec<u8> = stored.iter().map(|p| p.y[0]).collect();
    assert_eq!(marks, [1, 2]);
    assert_eq!(t.step, DecodeStep::Read);
    let mut slot: FrameSlot = FrameSlot::new();
    for p in stored {
        slot.put(p);
    }
    assert_eq!(slot.take().unwrap().y, [2]);
    assert!(t.advance(DecodeNews::Read(Ok(0))).is_empty());
    assert_eq!(t.step, DecodeStep::End);
    assert!(matches!(t.end, Some(DecodeEnd::StreamEnded)));
}

#[test]
fn frames_that_are_dropped_are_told() {
    let other = || frame_of(PixelFormat::Other("NV12".to_string()), 16, 0);
    assert!(mirror::refusals(&vec![yuv(16, 1)]).is_empty());
    assert_eq!(
        mirror::refusals(&vec![odd(), yuv(16, 1), other()]),
        [
            "decoded frame is RGB24, expected YUV420P -- mirror only handles 4:2:0",
            "decoded frame is NV12, expected YUV420P -- mirror only handles 4:2:0",
        ]
    );
}

#[test]
fn mirror_shows_all_that_it_takes() {
    let mut m: Mirror = mirror_at_polling();
    let sizes: [u32; 6] = [16, 16, 32, 16, 16, 8];
    let mut shown: Vec<u8> = Vec::new();
    let mut textures: Vec<u32> = Vec::new();
    for (mark, width) in sizes.into_iter().enumerate() {
        waited(&mut m, Some(picture_of(width, mark as u8)));
        loop {
            match m.action() {
                MirrorAction::Present(planes) => shown.push(planes.y[0]),
                MirrorAction::NewTexture { width, .. } => textures.push(width),
                _ => break,
            }
            m.advance(MirrorEvent::Done(Ok(())));
        }
    }
    assert_eq!(shown, [0, 1, 2, 3, 4, 5]);
    assert_eq!(textures, [16, 32, 16, 8]);
}

#[test]
fn decode_thread_ends_on_every_failure() {
    let no = || "no".to_string();
    let mut t: DecodeLoop = DecodeLoop::new();
    t.advance(DecodeNews::Opened(Err(no())));
    assert!(matches!(t.end, Some(DecodeEnd::NoDecoder(_))));
    let mut t: DecodeLoop = DecodeLoop::new();
    t.advance(DecodeNews::Opened(Ok(())));
    t.advance(DecodeNews::Read(Err(no())));
    assert!(matches!(t.end, Some(DecodeEnd::ReadFailed(_))));
    let mut t: DecodeLoop = DecodeLoop::new();
    t.advance(DecodeNews::Opened(Ok(())));
    t.advance(DecodeNews::Read(Ok(1)));
    assert!(t.advance(DecodeNews::Decoded(Err(no()))).is_empty());
    assert_eq!(t.step, DecodeStep::End);
    assert!(matches!(t.end, Some(DecodeEnd::DecodeFailed(_))));
}

#[test]
fn video_is_read_in_pieces_of_64_kib() {
    assert_eq!(mirror::READ_SIZE, 64 * 1024);
}

// The preview.

fn pulled(data: Vec<u8>) -> PreviewEvent {
    PreviewEvent::Pulled(Ok(Some(EncodedPacket { data, keyframe: true })))
}

fn preview_primed(first: DecodedFrame) -> ExtendPreview {
    let mut p: ExtendPreview = ExtendPreview::new(1, 60);
    assert!(matches!(
        p.action(),
        PreviewAction::StartCapture { output_idx: 1, framerate: 60 }
    ));
    p.advance(PreviewEvent::Done(Ok(())));
    assert!(matches!(p.action(), PreviewAction::OpenDecoder));
    p.advance(PreviewEvent::Done(Ok(())));
    assert!(matches!(p.action(), PreviewAction::NextPacket));
    p.advance(PreviewEvent::Pulled(Ok(None)));
    assert!(matches!(p.action(), PreviewAction::NextPacket));
    p.advance(pulled(vec![1]));
    assert!(matches!(p.action(), PreviewAction::Decode(b) if b == [1]));
    p.advance(PreviewEvent::Decoded(Ok(Vec::new())));
    assert!(matches!(p.action(), PreviewAction::NextPacket));
    p.advance(pulled(vec![2]));
    p.advance(PreviewEvent::Decoded(Ok(vec![first, yuv(16, 99)])));
    p
}

fn preview_showing() -> ExtendPreview {
    let mut p: ExtendPreview = preview_primed(yuv(16, 1));
    assert!(matches!(
        p.action(),
        PreviewAction::OpenWindow {
            title: "USB Display Bridge -- extend preview",
            width: 16,
            height: 9
        }
    ));
    p.advance(PreviewEvent::Done(Ok(())));
    assert!(matches!(p.action(), PreviewAction::NewTexture { width: 16, height: 9 }));
    p.advance(PreviewEvent::Done(Ok(())));
    assert!(matches!(p.action(), PreviewAction::Present(x) if x.y == [1]));
    p.advance(PreviewEvent::Done(Ok(())));
    assert!(matches!(p.action(), PreviewAction::Poll));
    p
}

#[test]
fn preview_shows_every_frame_in_order() {
    let mut p: ExtendPreview = preview_showing();
    p.advance(PreviewEvent::Polled(false));
    assert!(matches!(p.action(), PreviewAction::NextPacket));
    p.advance(PreviewEvent::Pulled(Ok(None)));
    assert!(matches!(p.action(), PreviewAction::Poll));
    p.advance(PreviewEvent::Polled(false));
    p.advance(pulled(vec![3, 4]));
    assert!(matches!(p.action(), PreviewAction::Decode(b) if b == [3, 4]));
    p.advance(PreviewEvent::Decoded(Ok(vec![yuv(16, 2), yuv(32, 3), yuv(32, 4)])));
    let mut shown: Vec<u8> = Vec::new();
    let mut textures: Vec<u32> = Vec::new();
    loop {
        match p.action() {
            PreviewAction::Present(x) => shown.push(x.y[0]),
            PreviewAction::NewTexture { width, .. } => textures.push(width),
            _ => break,
        }
        p.advance(PreviewEvent::Done(Ok(())));
    }
    assert_eq!(shown, [2, 3, 4]);
    assert_eq!(textures, [32]);
    assert!(matches!(p.action(), PreviewAction::Poll));
    p.advance(PreviewEvent::Polled(true));
    assert!(matches!(p.action(), PreviewAction::Finish));
    assert!(p.failure.is_none());
}

#[test]
fn preview_refuses_other_pixel_formats() {
    let words: &str = "decoded frame is RGB24, expected YUV420P -- mirror only handles 4:2:0";
    let mut p: ExtendPreview = preview_primed(odd());
    p.advance(PreviewEvent::Done(Ok(())));
    p.advance(PreviewEvent::Done(Ok(())));
    assert!(matches!(p.action(), PreviewAction::Finish));
    assert_eq!(p.failure.unwrap().cause, words);
    let mut p: ExtendPreview = preview_showing();
    p.advance(PreviewEvent::Polled(false));
    p.advance(pulled(vec![3]));
    p.advance(PreviewEvent::Decoded(Ok(vec![odd()])));
    assert!(matches!(p.action(), PreviewAction::Finish));
    assert_eq!(p.failure.unwrap().cause, words);
}

#[test]
fn preview_reports_what_fails() {
    let no = || "no".to_string();
    let mut p: ExtendPreview = ExtendPreview::new(1, 60);
    p.advance(PreviewEvent::Done(Err(no())));
    assert_eq!(p.failure.unwrap().cause, "starting display capture: no");
    let mut p: ExtendPreview = ExtendPreview::new(1, 60);
    p.advance(PreviewEvent::Done(Ok(())));
    p.advance(PreviewEvent::Done(Err(no())));
    assert_eq!(p.failure.unwrap().cause, "opening H.264 decoder: no");
    let mut p: ExtendPreview = preview_showing();
    p.advance(PreviewEvent::Polled(false));
    p.advance(PreviewEvent::Pulled(Err(no())));
    assert!(matches!(p.action(), PreviewAction::Finish));
    let f = p.failure.unwrap();
    assert_eq!((f.at, f.cause.as_str()), (PreviewPhase::Pulling, "no"));
    let mut p: ExtendPreview = preview_showing();
    p.advance(PreviewEvent::Polled(false));
    p.advance(pulled(vec![1]));
    p.advance(PreviewEvent::Decoded(Err(no())));
    let f = p.failure.unwrap();
    assert_eq!((f.at, f.cause.as_str()), (PreviewPhase::Decoding, "no"));
}
