//! The acceptance test for tunnels: push a file, open a reverse tunnel, see that
//! it is listed, remove it, and see that it is gone.
use crate::adb;
use crate::adb::{AdbError, Output, Reply, TunnelGuard};
use crate::failure;
use crate::failure::{Failure, FailureView};
use crate::text;
use vstd::prelude::*;
use vstd::string::*;

verus! {

/// What the tunnel is called on the device.
pub const TUNNEL_NAME: &'static str = "usdb_test";

/// How many seconds the tunnel stays open.
pub const PAUSE_SECONDS: u64 = 2;

/// What the test is doing.
#[derive(Debug, Clone, Copy, PartialEq, Eq, Structural)]
pub enum TunnelPhase {
    /// Listing the devices, to select one.
    Selecting,
    /// Pushing the probe file.
    Pushing,
    /// Opening the tunnel.
    Opening,
    /// Listing the tunnels, to find it.
    Listing,
    /// Saying that it is open.
    Announcing,
    /// Waiting.
    Pausing,
    /// Removing it.
    Closing,
    /// Listing the tunnels, to see that it is gone.
    Relisting,
    /// Saying that it was removed.
    Confirming,
    /// Nothing any more.
    Finished,
}

/// What is to be done next.
pub enum TunnelAction {
    /// Run this `adb` command.
    Adb(Vec<String>),
    /// Print these lines.
    Print(Vec<String>),
    /// Wait this many seconds.
    Pause(u64),
    /// Nothing: the test is over.
    Finish,
}

/// The contents of a [`TunnelAction`].
pub enum TunnelAsk {
    Adb(Seq<Seq<char>>),
    Print(Seq<Seq<char>>),
    Pause(u64),
    Finish,
}

impl View for TunnelAction {
    type V = TunnelAsk;

    open spec fn view(&self) -> TunnelAsk {
        match *self {
            TunnelAction::Adb(args) => TunnelAsk::Adb(text::texts(args@)),
            TunnelAction::Print(said) => TunnelAsk::Print(text::texts(said@)),
            TunnelAction::Pause(seconds) => TunnelAsk::Pause(seconds),
            TunnelAction::Finish => TunnelAsk::Finish,
        }
    }
}

/// What came of an action.
pub enum TunnelEvent {
    /// The `adb` command was run.
    Replied(Reply),
    /// The lines are printed, or the time is up.
    Done,
}

/// The course of the test.
pub struct TestTunnel {
    /// The serial that was asked for.
    pub wanted: Option<String>,
    /// The file that is pushed.
    pub probe: String,
    /// The file name in `probe`.
    pub name: Option<String>,
    /// The host's port.
    pub port: u16,
    pub phase: TunnelPhase,
    /// The device, once it is selected.
    pub serial: String,
    /// Why the test failed, if it did.
    pub failure: Option<Failure<TunnelPhase>>,
}

/// The text of a [`TestTunnel`].
pub struct TestView {
    pub wanted: Option<Seq<char>>,
    pub probe: Seq<char>,
    pub name: Option<Seq<char>>,
    pub port: u16,
    pub phase: TunnelPhase,
    pub serial: Seq<char>,
    pub failure: Option<FailureView<TunnelPhase>>,
}

impl View for TestTunnel {
    type V = TestView;

    open spec fn view(&self) -> TestView {
        TestView {
            wanted: adb::name_in(self.wanted),
            probe: self.probe@,
            name: adb::name_in(self.name),
            port: self.port,
            phase: self.phase,
            serial: self.serial@,
            failure: failure::failed(self.failure),
        }
    }
}

/// The device's end of the tunnel.
pub open spec fn tunnel_spec() -> Seq<char> {
    adb::abstract_socket(TUNNEL_NAME@)
}

/// A line of `listing` mentions the tunnel.
pub open spec fn mentioned(listing: Seq<char>) -> bool {
    exists|i: int|
        0 <= i < text::lines_of(listing).len() && text::occurs(
            #[trigger] text::lines_of(listing)[i],
            TUNNEL_NAME@,
        )
}

/// What is said when an open tunnel is not listed.
pub open spec fn not_listed_words(listing: Seq<char>) -> Seq<char> {
    "tunnel opened but `adb reverse --list` does not contain "@ + TUNNEL_NAME@ + ":\n"@ + listing
}

/// What is said when a tunnel that was removed is still listed.
pub open spec fn still_listed_words(listing: Seq<char>) -> Seq<char> {
    "tunnel still listed after close:\n"@ + listing
}

/// What is said while the tunnel is open.
pub open spec fn open_words(port: u16) -> Seq<Seq<char>> {
    seq![
        "reverse tunnel open: "@ + TUNNEL_NAME@ + " -> "@ + adb::host_spec(port),
        "press Ctrl-C to abort, or waiting 2s to test clean teardown..."@,
    ]
}

/// What is said when the tunnel was removed.
pub open spec fn closed_words() -> Seq<Seq<char>> {
    seq!["tunnel closed cleanly."@]
}

impl TestView {
    /// The test as it goes on in another phase.
    pub open spec fn in_phase(self, phase: TunnelPhase) -> TestView {
        TestView { phase, ..self }
    }

    /// The test has failed. A tunnel that is open is removed all the same.
    pub open spec fn failing(self, cause: Seq<char>) -> TestView {
        TestView {
            phase: if self.phase is Listing {
                TunnelPhase::Closing
            } else {
                TunnelPhase::Finished
            },
            failure: Some(FailureView { at: self.phase, cause }),
            ..self
        }
    }

    /// What the test asks for next.
    pub open spec fn asks(self) -> TunnelAsk {
        match self.phase {
            TunnelPhase::Selecting => TunnelAsk::Adb(adb::devices_args()),
            TunnelPhase::Pushing => TunnelAsk::Adb(
                adb::push_args(self.serial, self.probe, adb::remote_path(self.name->0)),
            ),
            TunnelPhase::Opening => TunnelAsk::Adb(
                adb::reverse_args(self.serial, tunnel_spec(), self.port),
            ),
            TunnelPhase::Listing | TunnelPhase::Relisting => TunnelAsk::Adb(
                adb::list_reverse_args(self.serial),
            ),
            TunnelPhase::Announcing => TunnelAsk::Print(open_words(self.port)),
            TunnelPhase::Pausing => TunnelAsk::Pause(PAUSE_SECONDS),
            TunnelPhase::Closing => TunnelAsk::Adb(adb::remove_args(self.serial, tunnel_spec())),
            TunnelPhase::Confirming => TunnelAsk::Print(closed_words()),
            TunnelPhase::Finished => TunnelAsk::Finish,
        }
    }

    /// The tunnel is open on the device.
    pub open spec fn tunnel_open(self) -> bool {
        ||| self.phase is Listing
        ||| self.phase is Announcing
        ||| self.phase is Pausing
        ||| self.phase is Closing
    }

    /// `event` answers what is to be done now.
    pub open spec fn accepts(self, event: TunnelEvent) -> bool {
        match event {
            TunnelEvent::Done => self.phase is Announcing || self.phase is Pausing
                || self.phase is Confirming,
            TunnelEvent::Replied(_) => {
                ||| self.phase is Selecting
                ||| self.phase is Pushing
                ||| self.phase is Opening
                ||| self.phase is Listing
                ||| self.phase is Closing
                ||| self.phase is Relisting
            },
        }
    }

    /// The test after `adb` replied.
    pub open spec fn replied(self, reply: Reply) -> TestView {
        match self.phase {
            TunnelPhase::Selecting => match adb::selected_from(self.wanted, reply) {
                Err(e) => self.failing(e.words()),
                Ok(dev) => {
                    let selected = TestView {
                        phase: TunnelPhase::Pushing,
                        serial: dev.serial,
                        ..self
                    };
                    if self.name is Some {
                        selected
                    } else {
                        selected.failing(
                            "pushing "@ + self.probe + ": "@ + adb::PushFault::NoFileName(
                                self.probe,
                            ).words(),
                        )
                    }
                },
            },
            TunnelPhase::Pushing => match adb::outcome(reply) {
                Err(e) => self.failing(
                    "pushing "@ + self.probe + ": "@ + adb::PushFault::Adb(e).words(),
                ),
                Ok(_) => self.in_phase(TunnelPhase::Opening),
            },
            TunnelPhase::Opening => match adb::outcome(reply) {
                Err(e) => self.failing(
                    adb::OperationFault { operation: adb::Operation::Reverse, cause: e }.words(),
                ),
                Ok(_) => self.in_phase(TunnelPhase::Listing),
            },
            TunnelPhase::Listing => match adb::outcome(reply) {
                Err(e) => self.failing(e.words()),
                Ok(listing) => if text::occurs(listing, TUNNEL_NAME@) {
                    self.in_phase(TunnelPhase::Announcing)
                } else {
                    self.failing(not_listed_words(listing))
                },
            },
            TunnelPhase::Closing => if self.failure is Some {
                self.in_phase(TunnelPhase::Finished)
            } else {
                self.in_phase(TunnelPhase::Relisting)
            },
            TunnelPhase::Relisting => match adb::outcome(reply) {
                Err(e) => self.failing(e.words()),
                Ok(listing) => if mentioned(listing) {
                    self.failing(still_listed_words(listing))
                } else {
                    self.in_phase(TunnelPhase::Confirming)
                },
            },
            _ => self,
        }
    }

    /// What is logged of a reply: the failure of a removal, and nothing else.
    pub open spec fn logs(self, reply: Reply, logged: Option<AdbError>) -> bool {
        if self.phase is Closing {
            adb::tolerated(reply, logged)
        } else {
            logged is None
        }
    }

    /// The test after `event`.
    pub open spec fn after(self, event: TunnelEvent) -> TestView {
        match event {
            TunnelEvent::Replied(reply) => self.replied(reply),
            TunnelEvent::Done => match self.phase {
                TunnelPhase::Announcing => self.in_phase(TunnelPhase::Pausing),
                TunnelPhase::Pausing => self.in_phase(TunnelPhase::Closing),
                TunnelPhase::Confirming => self.in_phase(TunnelPhase::Finished),
                _ => self,
            },
        }
    }

    /// The test after `events`.
    pub open spec fn after_all(self, events: Seq<TunnelEvent>) -> TestView
        decreases events.len(),
    {
        if events.len() == 0 {
            self
        } else {
            self.after_all(events.drop_last()).after(events.last())
        }
    }

    /// Before its file is pushed the test has one, and a test whose tunnel is
    /// open or gone has a failure only on the way out.
    pub open spec fn wf(self) -> bool {
        &&& self.phase is Pushing ==> self.name is Some
        &&& self.failure is Some ==> self.phase is Closing || self.phase is Finished
    }
}

/// The test before anything was done.
pub open spec fn started(
    wanted: Option<Seq<char>>,
    probe: Seq<char>,
    name: Option<Seq<char>>,
    port: u16,
) -> TestView {
    TestView {
        wanted,
        probe,
        name,
        port,
        phase: TunnelPhase::Selecting,
        serial: seq![],
        failure: None,
    }
}

/// Whether a line of `listing` mentions the tunnel.
fn any_line_mentions(listing: &str) -> (yes: bool)
    ensures
        yes == mentioned(listing@),
{
    let all: Vec<String> = text::lines(listing);
    let mut i: usize = 0;
    while i < all.len()
        invariant
            i <= all.len(),
            text::texts(all@) == text::lines_of(listing@),
            forall|j: int|
                0 <= j < i ==> !text::occurs(
                    #[trigger] text::lines_of(listing@)[j],
                    TUNNEL_NAME@,
                ),
        decreases all.len() - i,
    {
        assert(text::texts(all@)[i as int] == all[i as int]@);
        if text::contains(all[i].as_str(), TUNNEL_NAME) {
            assert(text::occurs(text::lines_of(listing@)[i as int], TUNNEL_NAME@));
            return true;
        }
        i = i + 1;
    }
    assert(text::texts(all@).len() == all.len());
    false
}

impl TestTunnel {
    /// A test with the device `wanted`, or the only one, that pushes the file
    /// `probe` and has its tunnel lead to `port`.
    pub fn new(wanted: Option<String>, probe: String, port: u16) -> (test: TestTunnel)
        ensures
            test@ == started(adb::name_in(wanted), probe@, test@.name, port),
            adb::file_named(probe@, test@.name),
            test@.wf(),
    {
        let name: Option<String> = adb::file_name(probe.as_str());
        TestTunnel::with_name(wanted, probe, name, port)
    }

    /// The same test, where the file name in `probe` is `name`.
    pub fn with_name(
        wanted: Option<String>,
        probe: String,
        name: Option<String>,
        port: u16,
    ) -> (test: TestTunnel)
        ensures
            test@ == started(adb::name_in(wanted), probe@, adb::name_in(name), port),
            test@.wf(),
            test.wanted == wanted,
            test.probe == probe,
            test.name == name,
    {
        TestTunnel {
            wanted,
            probe,
            name,
            port,
            phase: TunnelPhase::Selecting,
            serial: String::new(),
            failure: None,
        }
    }

    /// The tunnel of the test.
    fn tunnel(&self) -> (guard: TunnelGuard)
        ensures
            guard.serial@ == self.serial@,
            guard.remote_spec@ == tunnel_spec(),
    {
        TunnelGuard {
            serial: self.serial.clone(),
            remote_spec: "localabstract:".to_owned().concat(TUNNEL_NAME),
        }
    }

    /// The tunnel, while it is open: whoever abandons the test removes it.
    pub fn open_tunnel(&self) -> (open: Option<TunnelGuard>)
        ensures
            match open {
                Some(guard) => {
                    &&& self@.tunnel_open()
                    &&& guard.serial@ == self.serial@
                    &&& guard.remote_spec@ == tunnel_spec()
                },
                None => !self@.tunnel_open(),
            },
    {
        match self.phase {
            TunnelPhase::Listing
            | TunnelPhase::Announcing
            | TunnelPhase::Pausing
            | TunnelPhase::Closing => Some(self.tunnel()),
            _ => None,
        }
    }

    /// What is to be done next.
    pub fn action(&self) -> (action: TunnelAction)
        requires
            self@.wf(),
        ensures
            match self.phase {
                TunnelPhase::Selecting => action matches TunnelAction::Adb(args) && text::texts(
                    args@,
                ) == adb::devices_args(),
                TunnelPhase::Pushing => action matches TunnelAction::Adb(args) && text::texts(args@)
                    == adb::push_args(
                    self.serial@,
                    self.probe@,
                    adb::remote_path(self@.name->0),
                ),
                TunnelPhase::Opening => action matches TunnelAction::Adb(args) && text::texts(args@)
                    == adb::reverse_args(self.serial@, tunnel_spec(), self.port),
                TunnelPhase::Listing | TunnelPhase::Relisting => action matches TunnelAction::Adb(
                    args,
                ) && text::texts(args@) == adb::list_reverse_args(self.serial@),
                TunnelPhase::Announcing => action matches TunnelAction::Print(said) && text::texts(
                    said@,
                ) == open_words(self.port),
                TunnelPhase::Pausing => action == TunnelAction::Pause(PAUSE_SECONDS),
                TunnelPhase::Closing => action matches TunnelAction::Adb(args) && text::texts(args@)
                    == adb::remove_args(self.serial@, tunnel_spec()),
                TunnelPhase::Confirming => action matches TunnelAction::Print(said) && text::texts(
                    said@,
                ) == closed_words(),
                TunnelPhase::Finished => action == TunnelAction::Finish,
            },
            action@ == self@.asks(),
    {
        let serial: &str = self.serial.as_str();
        match self.phase {
            TunnelPhase::Selecting => TunnelAction::Adb(adb::list_devices(None).command()),
            TunnelPhase::Pushing => match adb::push_file_as(
                serial,
                self.probe.as_str(),
                self.name.clone(),
            ) {
                Ok(push) => TunnelAction::Adb(push.args),
                Err(_) => TunnelAction::Finish,
            },
            TunnelPhase::Opening => TunnelAction::Adb(
                TunnelGuard::open(serial, TUNNEL_NAME, self.port, None).command(),
            ),
            TunnelPhase::Listing | TunnelPhase::Relisting => TunnelAction::Adb(
                adb::list_reverse(serial, None).command(),
            ),
            TunnelPhase::Announcing => {
                let first: String = "reverse tunnel open: ".to_owned().concat(TUNNEL_NAME).concat(
                    " -> ",
                ).concat(adb::tcp_spec(self.port).as_str());
                let said: Vec<String> = text::owned(
                    &[
                        first.as_str(),
                        "press Ctrl-C to abort, or waiting 2s to test clean teardown...",
                    ],
                );
                assert(text::texts(said@) == open_words(self.port));
                TunnelAction::Print(said)
            },
            TunnelPhase::Pausing => TunnelAction::Pause(PAUSE_SECONDS),
            TunnelPhase::Closing => TunnelAction::Adb(self.tunnel().removal()),
            TunnelPhase::Confirming => {
                let said: Vec<String> = text::owned(&["tunnel closed cleanly."]);
                assert(text::texts(said@) == closed_words());
                TunnelAction::Print(said)
            },
            TunnelPhase::Finished => TunnelAction::Finish,
        }
    }

    /// The test has failed.
    fn fail(&mut self, cause: String)
        ensures
            final(self)@ == old(self)@.failing(cause@),
    {
        let at: TunnelPhase = self.phase;
        self.phase = if at == TunnelPhase::Listing {
            TunnelPhase::Closing
        } else {
            TunnelPhase::Finished
        };
        self.failure = Some(Failure { at, cause });
    }

    /// What is said of a failed push.
    fn push_cause(&self, why: adb::PushError) -> (cause: String)
        ensures
            cause@ == "pushing "@ + self.probe@ + ": "@ + why@.words(),
    {
        "pushing ".to_owned().concat(self.probe.as_str()).concat(": ").concat(
            why.message().as_str(),
        )
    }

    /// Go on after `adb` replied.
    fn take_reply(&mut self, reply: Reply) -> (logged: Option<AdbError>)
        requires
            old(self)@.wf(),
            old(self)@.accepts(TunnelEvent::Replied(reply)),
        ensures
            final(self)@ == old(self)@.replied(reply),
            final(self)@.wf(),
            old(self)@.logs(reply, logged),
            adb::read_plainly(reply),
    {
        match self.phase {
            TunnelPhase::Selecting => {
                let wanted: Option<&str> = match &self.wanted {
                    Some(s) => Some(s.as_str()),
                    None => None,
                };
                match adb::select_device(wanted, Some(reply)).result() {
                    Ok(dev) => {
                        self.serial = dev.serial;
                        self.phase = TunnelPhase::Pushing;
                        if self.name.is_none() {
                            let why: adb::PushError = adb::PushError::NoFileName(
                                self.probe.clone(),
                            );
                            let cause: String = self.push_cause(why);
                            self.fail(cause);
                        }
                    },
                    Err(e) => self.fail(e.message()),
                }
            },
            TunnelPhase::Pushing => match adb::run(reply) {
                Ok(_) => {
                    self.phase = TunnelPhase::Opening;
                },
                Err(e) => {
                    let cause: String = self.push_cause(adb::PushError::Adb(e));
                    self.fail(cause);
                },
            },
            TunnelPhase::Opening => match TunnelGuard::open(
                self.serial.as_str(),
                TUNNEL_NAME,
                self.port,
                Some(reply),
            ).result() {
                Ok(_) => {
                    self.phase = TunnelPhase::Listing;
                },
                Err(e) => self.fail(e.message()),
            },
            TunnelPhase::Listing => match adb::run(reply) {
                Err(e) => self.fail(e.message()),
                Ok(listing) => {
                    if text::contains(listing.as_str(), TUNNEL_NAME) {
                        self.phase = TunnelPhase::Announcing;
                    } else {
                        self.fail(
                            "tunnel opened but `adb reverse --list` does not contain ".to_owned().concat(
                            TUNNEL_NAME,
                        ).concat(":\n").concat(listing.as_str()),
                        );
                    }
                },
            },
            TunnelPhase::Closing => {
                self.phase = if self.failure.is_some() {
                    TunnelPhase::Finished
                } else {
                    TunnelPhase::Relisting
                };
                return self.tunnel().removed(reply);
            },
            TunnelPhase::Relisting => match adb::run(reply) {
                Err(e) => self.fail(e.message()),
                Ok(listing) => {
                    if any_line_mentions(listing.as_str()) {
                        self.fail(
                            "tunnel still listed after close:\n".to_owned().concat(
                                listing.as_str(),
                            ),
                        );
                    } else {
                        self.phase = TunnelPhase::Confirming;
                    }
                },
            },
            _ => {},
        }
        None
    }

    /// Go on after `event`. What is handed back is the failure of a removal, which
    /// is only to be logged.
    pub fn advance(&mut self, event: TunnelEvent) -> (logged: Option<AdbError>)
        requires
            old(self)@.wf(),
            old(self)@.accepts(event),
        ensures
            final(self)@ == old(self)@.after(event),
            final(self)@.wf(),
            match event {
                TunnelEvent::Replied(reply) => {
                    &&& old(self)@.logs(reply, logged)
                    &&& adb::read_plainly(reply)
                },
                TunnelEvent::Done => logged is None,
            },
    {
        match event {
            TunnelEvent::Replied(reply) => self.take_reply(reply),
            TunnelEvent::Done => {
                self.phase = match self.phase {
                    TunnelPhase::Announcing => TunnelPhase::Pausing,
                    TunnelPhase::Pausing => TunnelPhase::Closing,
                    _ => TunnelPhase::Finished,
                };
                None
            },
        }
    }
}

/// Each of `events` answers what is to be done when it happens.
pub open spec fn accepts_all(test: TestView, events: Seq<TunnelEvent>) -> bool
    decreases events.len(),
{
    events.len() > 0 ==> accepts_all(test, events.drop_last()) && test.after_all(
        events.drop_last(),
    ).accepts(events.last())
}

/// How often a tunnel was opened in the course of `events`.
pub open spec fn openings(test: TestView, events: Seq<TunnelEvent>) -> nat
    decreases events.len(),
{
    if events.len() == 0 {
        0
    } else {
        let before = test.after_all(events.drop_last());
        openings(test, events.drop_last()) + if !before.tunnel_open() && before.after(
            events.last(),
        ).tunnel_open() {
            1nat
        } else {
            0nat
        }
    }
}

/// How often the command that removes the tunnel was run in the course of
/// `events`.
pub open spec fn removals(test: TestView, events: Seq<TunnelEvent>) -> nat
    decreases events.len(),
{
    if events.len() == 0 {
        0
    } else {
        removals(test, events.drop_last()) + if test.after_all(events.drop_last()).phase
            is Closing {
            1nat
        } else {
            0nat
        }
    }
}

/// However `adb` replies, a tunnel that was opened is removed before the test is
/// over, and removed once: also where the test fails.
pub proof fn law_tunnel_is_removed(
    wanted: Option<Seq<char>>,
    probe: Seq<char>,
    name: Option<Seq<char>>,
    port: u16,
    events: Seq<TunnelEvent>,
)
    requires
        accepts_all(started(wanted, probe, name, port), events),
    ensures
        ({
            let test = started(wanted, probe, name, port);
            let end = test.after_all(events);
            &&& end.wf()
            &&& openings(test, events) == removals(test, events) + if end.tunnel_open() {
                1nat
            } else {
                0nat
            }
            &&& end.phase is Finished ==> openings(test, events) == removals(test, events)
        }),
    decreases events.len(),
{
    if events.len() > 0 {
        law_tunnel_is_removed(wanted, probe, name, port, events.drop_last());
    }
}

/// The test only succeeds if the tunnel was seen while it was open and not seen
/// after it was removed.
pub proof fn law_success_is_earned(test: TestView, event: TunnelEvent)
    requires
        test.wf(),
        test.accepts(event),
        test.after(event).failure is None,
    ensures
        test.after(event).phase is Announcing ==> {
            &&& test.phase is Listing
            &&& event matches TunnelEvent::Replied(reply)
            &&& adb::outcome(reply) matches Ok(listing)
            &&& text::occurs(listing, TUNNEL_NAME@)
        },
        test.after(event).phase is Confirming ==> {
            &&& test.phase is Relisting
            &&& event matches TunnelEvent::Replied(reply)
            &&& adb::outcome(reply) matches Ok(listing)
            &&& !mentioned(listing)
        },
        test.after(event).phase is Relisting ==> test.phase is Closing,
        test.after(event).phase is Pausing ==> test.phase is Announcing,
        test.after(event).phase is Closing ==> test.phase is Pausing,
        test.after(event).phase is Finished ==> test.phase is Confirming,
{
}

/// The look at the listing while the tunnel is open and the look after it was
/// removed ask the same: whether the listing mentions the tunnel.
pub proof fn law_both_looks_agree(listing: Seq<char>)
    ensures
        mentioned(listing) <==> text::occurs(listing, TUNNEL_NAME@),
{
    reveal_strlit("usdb_test");
    text::law_found_in_a_line(listing, TUNNEL_NAME@);
}

/// The serial that a test was asked for decides among several devices: if one of
/// those that the listing shows as ready has it, the test goes on with that one. If
/// none has it, the test is over and says so. A single device is taken.
pub proof fn law_asked_serial_is_used(
    serial: Seq<char>,
    probe: Seq<char>,
    name: Seq<char>,
    port: u16,
    out: Output,
    i: int,
)
    requires
        out.success,
    ensures
        ({
            let devs = adb::devices_in(adb::utf8_lossy(out.stdout@));
            let then = started(Some(serial), probe, Some(name), port).after(
                TunnelEvent::Replied(Reply::Finished(out)),
            );
            &&& devs.len() > 1 && 0 <= i < devs.len() && devs[i].serial == serial ==> {
                &&& then.failure is None
                &&& then.serial == serial
                &&& then.asks() matches TunnelAsk::Adb(args)
                &&& adb::addressed(args, serial)
            }
            &&& devs.len() > 1 && (forall|k: int|
                0 <= k < devs.len() ==> devs[k].serial != serial) ==> {
                &&& then.asks() is Finish
                &&& then.failure is Some
                &&& then.failure->Some_0.cause == "--serial "@ + serial
                    + " not found among connected devices"@
            }
            &&& devs.len() == 1 ==> then.failure is None && then.serial == devs[0].serial
        }),
{
    let devs = adb::devices_in(adb::utf8_lossy(out.stdout@));
    adb::law_listing_decides(Some(serial), Reply::Finished(out));
    adb::law_selected_device_is_listed(devs, Some(serial));
    adb::lemma_first_with(devs, serial);
}

/// A test stays with its device: each later command is for it.
pub proof fn law_later_commands_are_addressed(test: TestView, event: TunnelEvent)
    requires
        test.wf(),
        test.accepts(event),
        !(test.phase is Selecting),
    ensures
        test.after(event).serial == test.serial,
        !(test.after(event).phase is Selecting),
        test.after(event).asks() matches TunnelAsk::Adb(args) ==> adb::addressed(args, test.serial),
{
}

/// However the command is answered, a test that is on its way out removes the tunnel
/// and is over, and keeps saying what ended it.
pub open spec fn loses_its_tunnel(test: TestView, serial: Seq<char>) -> bool {
    &&& test.failure is Some
    &&& test.asks() == TunnelAsk::Adb(
        seq!["-s"@, serial, "reverse"@, "--remove"@, "localabstract:"@ + "usdb_test"@],
    )
    &&& forall|r: Reply|
        {
            let over = #[trigger] test.after(TunnelEvent::Replied(r));
            over.asks() is Finish && over.failure == test.failure
        }
}

/// The test runs its course: it selects the device, pushes the file under its name,
/// opens the tunnel, sees it listed, says so, waits for two seconds, removes it, sees
/// it gone and says so. Where a step fails, the test says which and why, and a tunnel
/// that is open is removed.
#[verifier::rlimit(40)]
#[verifier::spinoff_prover]
pub proof fn law_test_runs_its_course(
    wanted: Option<Seq<char>>,
    probe: Seq<char>,
    name: Seq<char>,
    port: u16,
    dev: adb::DeviceView,
    listed: Reply,
    good: Reply,
    bad: Reply,
    seen: Reply,
    unseen: Reply,
    any: Reply,
)
    requires
        adb::selected_from(wanted, listed) == Ok::<_, adb::Refusal>(dev),
        adb::outcome(good) is Ok,
        adb::outcome(bad) is Err,
        adb::outcome(seen) is Ok,
        adb::outcome(unseen) is Ok,
        text::occurs(adb::outcome(seen)->Ok_0, "usdb_test"@),
        !text::occurs(adb::outcome(unseen)->Ok_0, "usdb_test"@),
    ensures
        ({
            let serial = dev.serial;
            let said = adb::outcome(bad)->Err_0.words();
            let s0 = started(wanted, probe, Some(name), port);
            let s1 = s0.after(TunnelEvent::Replied(listed));
            let s2 = s1.after(TunnelEvent::Replied(good));
            let s3 = s2.after(TunnelEvent::Replied(good));
            let s4 = s3.after(TunnelEvent::Replied(seen));
            let s5 = s4.after(TunnelEvent::Done);
            let s6 = s5.after(TunnelEvent::Done);
            let s7 = s6.after(TunnelEvent::Replied(any));
            let s8 = s7.after(TunnelEvent::Replied(unseen));
            let s9 = s8.after(TunnelEvent::Done);
            let nameless = started(wanted, probe, None, port).after(TunnelEvent::Replied(listed));
            let f1 = s1.after(TunnelEvent::Replied(bad));
            let f2 = s2.after(TunnelEvent::Replied(bad));
            let f3 = s3.after(TunnelEvent::Replied(bad));
            let g3 = s3.after(TunnelEvent::Replied(unseen));
            let f7 = s7.after(TunnelEvent::Replied(bad));
            let g7 = s7.after(TunnelEvent::Replied(seen));
            &&& s0.asks() == TunnelAsk::Adb(seq!["devices"@, "-l"@])
            &&& s1.asks() == TunnelAsk::Adb(
                seq!["-s"@, serial, "push"@, probe, "/data/local/tmp"@ + seq!['/'] + name],
            )
            &&& s2.asks() matches TunnelAsk::Adb(args)
            &&& args.len() == 5
            &&& args.take(4) == seq![
                "-s"@,
                serial,
                "reverse"@,
                "localabstract:"@ + "usdb_test"@,
            ]
            &&& adb::names_port(args[4], port)
            &&& s3.asks() == TunnelAsk::Adb(seq!["-s"@, serial, "reverse"@, "--list"@])
            &&& s4.asks() matches TunnelAsk::Print(lines)
            &&& lines.len() == 2
            &&& lines[1] == "press Ctrl-C to abort, or waiting 2s to test clean teardown..."@
            &&& exists|end: Seq<char>|
                adb::names_port(end, port) && lines[0] == #[trigger] ("reverse tunnel open: "@
                    + "usdb_test"@ + " -> "@ + end)
            &&& s5.asks() == TunnelAsk::Pause(2)
            &&& s6.asks() == TunnelAsk::Adb(
                seq!["-s"@, serial, "reverse"@, "--remove"@, "localabstract:"@ + "usdb_test"@],
            )
            &&& s7.asks() == TunnelAsk::Adb(seq!["-s"@, serial, "reverse"@, "--list"@])
            &&& s8.asks() == TunnelAsk::Print(seq!["tunnel closed cleanly."@])
            &&& s9.asks() is Finish && s9.failure is None
            &&& nameless.asks() is Finish && nameless.failure->Some_0.cause == "pushing "@ + probe
                + ": "@ + "local path has no filename: "@ + probe
            &&& f1.asks() is Finish && f1.failure->Some_0.cause == "pushing "@ + probe + ": "@
                + "adb push failed: "@ + said
            &&& f2.asks() is Finish && f2.failure->Some_0.cause == "adb reverse failed: "@ + said
            &&& loses_its_tunnel(f3, serial) && f3.failure->Some_0.cause == said
            &&& loses_its_tunnel(g3, serial) && g3.failure->Some_0.cause
                == "tunnel opened but `adb reverse --list` does not contain "@ + "usdb_test"@
                + ":\n"@ + adb::outcome(unseen)->Ok_0
            &&& f7.asks() is Finish && f7.failure->Some_0.cause == said
            &&& g7.asks() is Finish && g7.failure->Some_0.cause
                == "tunnel still listed after close:\n"@ + adb::outcome(seen)->Ok_0
            &&& !s0.tunnel_open() && !s1.tunnel_open() && !s2.tunnel_open() && !f2.tunnel_open()
            &&& s3.tunnel_open() && s4.tunnel_open() && s5.tunnel_open() && s6.tunnel_open()
            &&& f3.tunnel_open() && g3.tunnel_open()
            &&& !s7.tunnel_open() && !s8.tunnel_open() && !s9.tunnel_open()
        }),
{
    let serial = dev.serial;
    let said = adb::outcome(bad)->Err_0.words();
    let s0 = started(wanted, probe, Some(name), port);
    let s1 = s0.after(TunnelEvent::Replied(listed));
    let s2 = s1.after(TunnelEvent::Replied(good));
    let s3 = s2.after(TunnelEvent::Replied(good));
    let s4 = s3.after(TunnelEvent::Replied(seen));
    let s5 = s4.after(TunnelEvent::Done);
    let s6 = s5.after(TunnelEvent::Done);
    let s7 = s6.after(TunnelEvent::Replied(any));
    law_both_looks_agree(adb::outcome(seen)->Ok_0);
    law_both_looks_agree(adb::outcome(unseen)->Ok_0);
    adb::law_tunnel_ends_are_named(port, TUNNEL_NAME@);
    adb::law_commands_say_what_is_asked(serial, tunnel_spec(), seq![], port);
    reveal_strlit("/");
    assert("/"@ == seq!['/']);
    assert(s1.phase is Pushing && s2.phase is Opening && s3.phase is Listing);
    assert(s4.phase is Announcing && s5.phase is Pausing && s6.phase is Closing);
    assert(s7.phase is Relisting);
    let end = adb::host_spec(port);
    let first = "reverse tunnel open: "@ + "usdb_test"@ + " -> "@ + end;
    assert(open_words(port)[0] == first);
    let nameless = started(wanted, probe, None, port).after(TunnelEvent::Replied(listed));
    assert(nameless.failure->Some_0.cause =~= "pushing "@ + probe + ": "@
        + "local path has no filename: "@ + probe);
    let f1 = s1.after(TunnelEvent::Replied(bad));
    assert(f1.failure->Some_0.cause =~= "pushing "@ + probe + ": "@ + "adb push failed: "@ + said);
}

/// A test takes every answer to what it asks for, and no other.
pub proof fn law_every_answer_is_taken(test: TestView, event: TunnelEvent)
    ensures
        test.accepts(event) <==> match event {
            TunnelEvent::Replied(_) => test.asks() is Adb,
            TunnelEvent::Done => test.asks() is Print || test.asks() is Pause,
        },
{
}

/// A removal that fails is handed back to be logged, and nothing else is.
pub proof fn law_removal_is_logged(test: TestView, reply: Reply, logged: Option<AdbError>)
    requires
        test.logs(reply, logged),
    ensures
        test.phase is Closing ==> match adb::outcome(reply) {
            Ok(_) => logged is None,
            Err(e) => logged is Some && logged->Some_0@ == e,
        },
        !(test.phase is Closing) ==> logged is None,
{
}

/// What a test was given and what it did is seen whole.
pub proof fn law_test_is_seen_whole(test: TestTunnel)
    ensures
        test@.wanted == match test.wanted {
            Some(serial) => Some(serial@),
            None => None,
        },
        test@.probe == test.probe@,
        test@.name == match test.name {
            Some(name) => Some(name@),
            None => None,
        },
        test@.port == test.port,
        test@.phase == test.phase,
        test@.serial == test.serial@,
        test@.failure == match test.failure {
            Some(f) => Some(FailureView { at: f.at, cause: f.cause@ }),
            None => None,
        },
{
}

} // verus!
