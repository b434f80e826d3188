use usb_display_bridge::adb;
use usb_display_bridge::adb::{
    AdbError, Device, Operation, OperationError, Output, Push, PushError, Reply, SelectError,
    Step, TunnelGuard,
};
use usb_display_bridge::capture::Capture;

const LISTING: &str = "List of devices attached\n\
    R58M123  device usb:1-1 product:x model:Y\n\
    emulator-5554\toffline\n\
    \n\
    lonely\n\
    0A1B  unauthorized usb:2\n\
    10.0.0.2:5555 device\r\n";

fn said(stdout: &str) -> Reply {
    Reply::Finished(Output {
        success: true,
        status: "exit status: 0".to_string(),
        stdout: stdout.as_bytes().to_vec(),
        stderr: Vec::new(),
    })
}

fn refused(stderr: &[u8]) -> Reply {
    Reply::Finished(Output {
        success: false,
        status: "exit status: 1".to_string(),
        stdout: b"ignored".to_vec(),
        stderr: stderr.to_vec(),
    })
}

fn command<T>(step: Step<T>) -> Vec<String> {
    match step {
        Step::Run(args) => args,
        Step::Done(_) => panic!("nothing to run"),
    }
}

fn result<T>(step: Step<T>) -> T {
    match step {
        Step::Run(args) => panic!("still to run: {args:?}"),
        Step::Done(res) => res,
    }
}

fn device(serial: &str) -> Device {
    Device { serial: serial.to_string(), state: "device".to_string() }
}

fn serials(devs: &[Device]) -> Vec<&str> {
    devs.iter().map(|d| d.serial.as_str()).collect()
}

#[test]
fn output_of_a_success_is_returned_as_it_is() {
    assert_eq!(adb::run(said(" a\nb ")).unwrap(), " a\nb ");
}

#[test]
fn output_that_is_not_utf8_is_patched() {
    let reply: Reply = Reply::Finished(Output {
        success: true,
        status: String::new(),
        stdout: vec![b'a', 0xff, b'b', 0xf0, 0x9f, 0x98, 0x80],
        stderr: Vec::new(),
    });
    assert_eq!(adb::run(reply).unwrap(), "a\u{fffd}b\u{1f600}");
}

#[test]
fn failure_is_told_in_the_words_of_adb() {
    let e: AdbError = adb::run(refused(b"  error: device offline\r\n")).unwrap_err();
    assert!(matches!(&e, AdbError::Failed(s) if s == "error: device offline"));
    assert_eq!(e.message(), "adb failed: error: device offline");
}

#[test]
fn failure_that_is_not_utf8_is_patched() {
    let e: AdbError = adb::run(refused(&[b'x', 0xc3, b'\n'])).unwrap_err();
    assert_eq!(e.message(), "adb failed: x\u{fffd}");
}

#[test]
fn silent_failure_is_told_by_its_status() {
    let e: AdbError = adb::run(refused(b" \n\t")).unwrap_err();
    assert!(matches!(&e, AdbError::Exited(_)));
    assert_eq!(e.message(), "adb exited with status exit status: 1");
}

#[test]
fn process_that_does_not_start_is_told() {
    let e: AdbError = adb::run(Reply::NotSpawned("no such file".to_string())).unwrap_err();
    assert!(matches!(&e, AdbError::NotSpawned(_)));
    assert_eq!(e.message(), "failed to spawn adb: no such file");
}

#[test]
fn judgement_looks_at_success_first() {
    let ok: Result<String, AdbError> =
        adb::judge(true, "s".to_string(), "out".to_string(), "err".to_string());
    assert_eq!(ok.unwrap(), "out");
    let bad: Result<String, AdbError> =
        adb::judge(false, "s".to_string(), "out".to_string(), " err ".to_string());
    assert_eq!(bad.unwrap_err().message(), "adb failed: err");
}

#[test]
fn listing_names_the_ready_devices_in_order() {
    let devs: Vec<Device> = adb::parse_devices(LISTING);
    assert_eq!(serials(&devs), ["R58M123", "10.0.0.2:5555"]);
    assert!(devs.iter().all(|d| d.state == "device"));
}

#[test]
fn devices_that_are_not_ready_are_handed_out_to_be_logged() {
    let told = |devs: Vec<Device>| -> Vec<String> {
        devs.into_iter().map(|d| format!("{} {}", d.serial, d.state)).collect()
    };
    let want: [&str; 2] = ["emulator-5554 offline", "0A1B unauthorized"];
    assert_eq!(told(adb::parse_skipped(LISTING)), want);
    assert_eq!(told(adb::skipped_devices(&said(LISTING))), want);
    assert!(adb::skipped_devices(&refused(LISTING.as_bytes())).is_empty());
    assert!(adb::skipped_devices(&Reply::NotSpawned("x".to_string())).is_empty());
    assert!(adb::parse_skipped("").is_empty());
}

#[test]
fn first_line_of_a_listing_is_a_heading() {
    assert!(adb::parse_devices("").is_empty());
    assert!(adb::parse_devices("R58 device").is_empty());
    assert_eq!(serials(&adb::parse_devices("\nR58 device")), ["R58"]);
}

#[test]
fn devices_are_listed_with_one_command() {
    assert_eq!(command(adb::list_devices(None)), ["devices", "-l"]);
    let devs: Vec<Device> = result(adb::list_devices(Some(said(LISTING)))).unwrap();
    assert_eq!(serials(&devs), ["R58M123", "10.0.0.2:5555"]);
    let e: AdbError = result(adb::list_devices(Some(refused(b"gone")))).unwrap_err();
    assert_eq!(e.message(), "adb failed: gone");
}

#[test]
fn no_device_is_refused() {
    let e: SelectError = adb::choose_device(Vec::new(), Some("x")).unwrap_err();
    assert!(matches!(e, SelectError::NoDevices));
    assert_eq!(
        e.message(),
        "no connected devices. Plug in a phone and enable USB debugging."
    );
}

#[test]
fn only_device_is_taken_whatever_was_asked_for() {
    assert_eq!(adb::choose_device(vec![device("a")], None).unwrap().serial, "a");
    assert_eq!(adb::choose_device(vec![device("a")], Some("b")).unwrap().serial, "a");
}

#[test]
fn one_of_several_is_taken_by_its_serial() {
    let two = || vec![device("a"), device("b")];
    assert_eq!(adb::choose_device(two(), Some("b")).unwrap().serial, "b");
    let e: SelectError = adb::choose_device(two(), Some("c")).unwrap_err();
    assert!(matches!(&e, SelectError::NotFound(s) if s == "c"));
    assert_eq!(e.message(), "--serial c not found among connected devices");
    let e: SelectError = adb::choose_device(two(), None).unwrap_err();
    assert!(matches!(e, SelectError::Ambiguous(2)));
    assert_eq!(
        e.message(),
        "2 devices connected; pass --serial <id> to choose one. \
         Run `cargo run -- devices` to list them."
    );
}

#[test]
fn first_device_with_a_serial_wins() {
    let mut twin: Device = device("a");
    twin.state = "second".to_string();
    let devs: Vec<Device> = vec![device("z"), device("a"), twin];
    assert_eq!(adb::choose_device(devs, Some("a")).unwrap().state, "device");
}

#[test]
fn device_is_selected_from_the_listing() {
    assert_eq!(command(adb::select_device(None, None)), ["devices", "-l"]);
    let dev: Device =
        result(adb::select_device(Some("10.0.0.2:5555"), Some(said(LISTING)))).unwrap();
    assert_eq!(dev.serial, "10.0.0.2:5555");
    let e: SelectError = result(adb::select_device(None, Some(refused(b"down")))).unwrap_err();
    assert!(matches!(&e, SelectError::Adb(_)));
    assert_eq!(e.message(), "adb failed: down");
}

#[test]
fn file_is_pushed_under_its_own_name() {
    let push: Push = adb::push_file("S", "some/dir/probe.toml").unwrap();
    assert_eq!(
        push.args,
        ["-s", "S", "push", "some/dir/probe.toml", "/data/local/tmp/probe.toml"]
    );
    assert_eq!(push.finish(said("1 file pushed")).unwrap(), "/data/local/tmp/probe.toml");
    let push: Push = adb::push_file("S", "probe.toml").unwrap();
    let e: PushError = push.finish(refused(b"read-only")).unwrap_err();
    assert_eq!(e.message(), "adb push failed: adb failed: read-only");
}

#[test]
fn path_without_a_file_name_is_not_pushed() {
    let e: PushError = adb::push_file("S", "some/..").err().unwrap();
    assert!(matches!(&e, PushError::NoFileName(p) if p == "some/.."));
    assert_eq!(e.message(), "local path has no filename: some/..");
}

#[test]
fn file_name_is_what_stands_behind_the_last_slash() {
    let cases: [(&str, &str); 8] = [
        ("a/b/", "b"),
        ("a/b/.//.", "b"),
        ("C:/x/y.toml", "y.toml"),
        ("probe.toml", "probe.toml"),
        ("/probe.toml", "probe.toml"),
        ("/a b/c d", "c d"),
        ("a/./b//c", "c"),
        ("../x/...", "..."),
    ];
    for (path, name) in cases {
        let push: Push = adb::push_file("S", path).unwrap();
        assert_eq!(push.remote, format!("/data/local/tmp/{name}"));
    }
    for path in ["..", "/..", "a/..", "", "/", "///", ".", "./.", "/."] {
        assert!(adb::push_file("S", path).is_err());
    }
}

#[test]
fn file_name_is_that_of_the_host() {
    for path in ["C:\\dir\\probe.toml", "dir\\probe.toml", "/a/b\\probe.toml"] {
        let push: Push = adb::push_file("S", path).unwrap();
        let name: &str = push.remote.strip_prefix("/data/local/tmp/").unwrap();
        let behind_slash: &str = path.rsplit('/').next().unwrap();
        assert!(name == "probe.toml" || name == behind_slash);
        assert_eq!(push.args[3], path);
    }
}

#[test]
fn file_name_behind_a_server_is_the_last_component_or_none() {
    let cases: [(&str, &[&str]); 4] = [
        ("//a", &["a"]),
        ("//a/b", &["b"]),
        ("//a/b/c", &["c"]),
        ("\\\\?\\C:\\a/b", &["b", "a/b"]),
    ];
    for (path, names) in cases {
        if let Ok(push) = adb::push_file("S", path) {
            let name: &str = push.remote.strip_prefix("/data/local/tmp/").unwrap();
            assert!(names.contains(&name), "{path}");
        }
    }
}

#[test]
fn file_is_pushed_under_a_given_name() {
    let push: Push = adb::push_file_as("S", "here", Some("there".to_string())).unwrap();
    assert_eq!(push.remote, "/data/local/tmp/there");
    assert_eq!(push.args[4], push.remote);
    assert!(push.remote.starts_with(adb::DEVICE_TMP));
    assert!(adb::push_file_as("S", "here", None).is_err());
}

#[test]
fn tunnel_is_opened_and_removed_alike() {
    assert_eq!(
        command(TunnelGuard::open("S", "usdb", 27183, None)),
        ["-s", "S", "reverse", "localabstract:usdb", "tcp:27183"]
    );
    let guard: TunnelGuard =
        result(TunnelGuard::open("S", "usdb", 27183, Some(said("")))).unwrap();
    assert_eq!(guard.serial, "S");
    assert_eq!(
        guard.removal(),
        ["-s", "S", "reverse", "--remove", "localabstract:usdb"]
    );
    assert!(guard.removed(said("")).is_none());
    assert_eq!(guard.removed(refused(b"gone")).unwrap().message(), "adb failed: gone");
    assert_eq!(
        command(TunnelGuard::open_remote("S", "tcp:1", 2, None)),
        ["-s", "S", "reverse", "tcp:1", "tcp:2"]
    );
    let guard: TunnelGuard =
        result(TunnelGuard::open_remote("S", "tcp:1", 2, Some(said("")))).unwrap();
    assert_eq!(guard.removal(), ["-s", "S", "reverse", "--remove", "tcp:1"]);
    let e: OperationError =
        result(TunnelGuard::open("S", "usdb", 1, Some(refused(b"busy")))).err().unwrap();
    assert_eq!(e.operation, Operation::Reverse);
    assert_eq!(e.message(), "adb reverse failed: adb failed: busy");
    let gone: Reply = Reply::NotSpawned("no such file".to_string());
    let e: OperationError =
        result(TunnelGuard::open_remote("S", "tcp:1", 1, Some(gone))).err().unwrap();
    assert_eq!(e.message(), "adb reverse failed: failed to spawn adb: no such file");
}

#[test]
fn app_is_installed_started_stopped_and_uninstalled() {
    assert_eq!(
        command(adb::install_apk("S", "app.apk", None)),
        ["-s", "S", "install", "-r", "app.apk"]
    );
    assert!(result(adb::install_apk("S", "app.apk", Some(said("Success")))).is_ok());
    let e: OperationError =
        result(adb::install_apk("S", "app.apk", Some(refused(b"no")))).unwrap_err();
    assert_eq!(e.operation, Operation::Install);
    assert_eq!(e.message(), "adb install failed: adb failed: no");
    assert_eq!(
        command(adb::start_activity("S", "p.q", ".Main", None)),
        ["-s", "S", "shell", "am", "start", "-n", "p.q/.Main"]
    );
    assert!(result(adb::start_activity("S", "p.q", ".Main", Some(said("")))).is_ok());
    let e: OperationError =
        result(adb::start_activity("S", "p.q", ".Main", Some(refused(b"no")))).unwrap_err();
    assert_eq!(e.operation, Operation::Start);
    assert_eq!(e.message(), "adb shell am start failed: adb failed: no");
    assert_eq!(
        command(adb::force_stop("S", "p.q", None)),
        ["-s", "S", "shell", "am", "force-stop", "p.q"]
    );
    assert_eq!(command(adb::uninstall("S", "p.q", None)), ["-s", "S", "uninstall", "p.q"]);
}

#[test]
fn teardown_only_reports_what_to_log() {
    assert!(result(adb::force_stop("S", "p", Some(said("")))).is_none());
    assert_eq!(
        result(adb::force_stop("S", "p", Some(refused(b"a")))).unwrap().message(),
        "adb failed: a"
    );
    assert!(result(adb::uninstall("S", "p", Some(said("Success")))).is_none());
    assert_eq!(
        result(adb::uninstall("S", "p", Some(refused(b"")))).unwrap().message(),
        "adb exited with status exit status: 1"
    );
}

#[test]
fn tunnels_are_listed_as_printed() {
    assert_eq!(command(adb::list_reverse("S", None)), ["-s", "S", "reverse", "--list"]);
    assert_eq!(result(adb::list_reverse("S", Some(said("x y\n")))).unwrap(), "x y\n");
    assert!(result(adb::list_reverse("S", Some(refused(b"x")))).is_err());
}

#[test]
fn capture_streams_the_screen_to_its_output() {
    assert_eq!(
        Capture::start("S", 1280, 720).args,
        [
            "-s",
            "S",
            "exec-out",
            "screenrecord",
            "--output-format=h264",
            "--size",
            "1280x720",
            "-"
        ]
    );
}

#[test]
fn device_commands_start_with_the_serial() {
    let all: Vec<Vec<String>> = vec![
        adb::push_file("S", "f").unwrap().args,
        command(TunnelGuard::open("S", "n", 1, None)),
        command(adb::install_apk("S", "a", None)),
        command(adb::uninstall("S", "a", None)),
        command(adb::start_activity("S", "a", "b", None)),
        command(adb::force_stop("S", "a", None)),
        command(adb::list_reverse("S", None)),
        Capture::start("S", 1, 2).args,
    ];
    for args in all {
        assert_eq!(args[..2], ["-s", "S"]);
    }
}
