use usb_display_bridge::adb::{Device, Output, Reply, Step};
use usb_display_bridge::cli;
use usb_display_bridge::cli::{Cmd, Job};
use usb_display_bridge::locate;
use usb_display_bridge::locate::{Locator, Place, Root, Search};

fn searched(mut search: Locator, answers: &[bool]) -> Locator {
    for a in answers {
        assert!(matches!(search.action(), Search::Probe(_)));
        search.probed(*a);
    }
    search
}

fn probed(search: &Locator) -> String {
    match search.action() {
        Search::Probe(place) => shown(place),
        Search::Found(place) => panic!("found {}", shown(place)),
        Search::NotFound => panic!("not found"),
    }
}

fn shown(place: Place) -> String {
    match place {
        Place::OnPath(dir, file) => format!("PATH[{dir}]/{file}"),
        Place::At(path) => path,
        Place::Under(root, steps) => format!("${}/{}", root.name(), steps.join("/")),
    }
}

#[test]
fn places_are_tried_in_order() {
    let mut search: Locator = locate::locate_adb(false, 2, true, true);
    let mut tried: Vec<String> = Vec::new();
    while let Search::Probe(place) = search.action() {
        tried.push(shown(place));
        search.probed(false);
    }
    assert_eq!(
        tried,
        [
            "PATH[0]/adb",
            "PATH[1]/adb",
            r"C:\Program Files\Android\platform-tools\adb.exe",
            r"C:\Users\SENTHILKUMARAN\AppData\Local\Android\Sdk\platform-tools\adb.exe",
            "/opt/android-sdk/platform-tools/adb",
            "/usr/bin/adb",
            "/opt/homebrew/bin/adb",
            "/usr/local/bin/adb",
            "$ANDROID_HOME/platform-tools/adb",
            "$ANDROID_SDK_ROOT/platform-tools/adb",
        ]
    );
    assert!(matches!(search.action(), Search::NotFound));
}

#[test]
fn first_file_is_the_one_that_is_found() {
    let found: Locator = searched(locate::locate_adb(false, 3, false, false), &[false, true]);
    assert!(matches!(found.action(), Search::Found(Place::OnPath(1, f)) if f == "adb"));
    let found: Locator = searched(locate::locate_adb(false, 0, false, false), &[
        false, false, false, true,
    ]);
    assert!(matches!(found.action(), Search::Found(Place::At(p)) if p == "/usr/bin/adb"));
}

#[test]
fn variables_that_are_not_set_are_skipped() {
    let six: [bool; 6] = [false; 6];
    let none: Locator = searched(locate::locate_adb(true, 0, false, false), &six);
    assert!(matches!(none.action(), Search::NotFound));
    let sdk: Locator = searched(locate::locate_adb(true, 0, false, true), &six);
    assert_eq!(probed(&sdk), "$ANDROID_SDK_ROOT/platform-tools/adb.exe");
    let found: Locator = searched(sdk, &[true]);
    assert!(matches!(found.action(), Search::Found(Place::Under(Root::AndroidSdkRoot, _))));
    let home: Locator = searched(locate::locate_adb(true, 0, true, false), &six);
    assert_eq!(probed(&home), "$ANDROID_HOME/platform-tools/adb.exe");
    assert!(matches!(searched(home, &[false]).action(), Search::NotFound));
}

#[test]
fn program_has_the_name_of_its_system() {
    assert_eq!(locate::adb_exe(false), "adb");
    assert_eq!(locate::adb_exe(true), "adb.exe");
    assert_eq!(probed(&locate::locate_adb(true, 1, false, false)), "PATH[0]/adb.exe");
}

#[test]
fn missing_program_is_told() {
    assert_eq!(
        locate::not_found(),
        "could not find `adb`. Install Android platform-tools, add it to PATH, \
         or set ANDROID_HOME."
    );
}

#[test]
fn subcommands_become_jobs() {
    assert_eq!(cli::real_main(Cmd::Devices), (Job::Devices, true));
    assert_eq!(cli::real_main(Cmd::TestTunnel), (Job::TestTunnel, true));
    assert_eq!(
        cli::real_main(Cmd::Mirror { width: 3, height: 4 }),
        (Job::Mirror { width: 3, height: 4 }, true)
    );
    assert_eq!(
        cli::real_main(Cmd::Extend { output_idx: 1, framerate: 30, preview: false }),
        (Job::Stream { output_idx: 1, framerate: 30 }, true)
    );
    assert_eq!(
        cli::cmd_extend(1, 30, true),
        Job::Preview { output_idx: 1, framerate: 30 }
    );
}

#[test]
fn preview_needs_no_adb() {
    let cmd: Cmd = Cmd::Extend { output_idx: 0, framerate: 60, preview: true };
    assert_eq!(cli::real_main(cmd), (Job::Preview { output_idx: 0, framerate: 60 }, false));
}

#[test]
fn defaults_are_those_of_the_help() {
    assert_eq!(cli::DEFAULT_PORT, 27183);
    assert_eq!((cli::DEFAULT_WIDTH, cli::DEFAULT_HEIGHT), (1280, 720));
    assert_eq!(cli::DEFAULT_FRAMERATE, 60);
}

#[test]
fn verbosity_sets_the_log_filter() {
    assert_eq!(cli::log_filter(0), "usb_display_bridge=warn");
    assert_eq!(cli::log_filter(1), "usb_display_bridge=info");
    assert_eq!(cli::log_filter(2), "usb_display_bridge=debug");
    assert_eq!(cli::log_filter(3), "usb_display_bridge=trace");
    assert_eq!(cli::log_filter(255), "usb_display_bridge=trace");
}

#[test]
fn devices_are_shown_one_on_a_line() {
    assert_eq!(cli::show_devices(&Vec::new()), ["(no devices)"]);
    let devs: Vec<Device> = vec![
        Device { serial: "a".to_string(), state: "device".to_string() },
        Device { serial: "b".to_string(), state: "x".to_string() },
    ];
    assert_eq!(cli::show_devices(&devs), ["a\tdevice", "b\tx"]);
}

#[test]
fn devices_command_prints_the_listing() {
    assert!(matches!(cli::cmd_devices(None), Step::Run(args) if args == ["devices", "-l"]));
    let reply = |success: bool| {
        Some(Reply::Finished(Output {
            success,
            status: "7".to_string(),
            stdout: b"List\nR58 device\nX offline\n".to_vec(),
            stderr: Vec::new(),
        }))
    };
    assert!(matches!(
        cli::cmd_devices(reply(true)),
        Step::Done(Ok(said)) if said == ["R58\tdevice"]
    ));
    match cli::cmd_devices(reply(false)) {
        Step::Done(Err(e)) => assert_eq!(e.message(), "adb exited with status 7"),
        _ => panic!("no error"),
    }
}
