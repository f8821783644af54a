//! The detection orchestrator: a state machine that waits for the device to
//! go off, waits for it to come on, fires the trigger command once, and
//! starts over.
//!
//! The machine does no work of its own. Each step returns an [`Action`]; the
//! caller performs it and hands back the [`Event`] that answers it. The
//! machine's state is its [`Machine`] view, and [`Machine::next`] says what
//! every step does.
//!
//! Once it runs, the machine never stops. Where a wake listener fails
//! during a wait, the machine closes it and polls for the rest of that
//! wait; it asks for a fresh listener at the next one.

use vstd::prelude::*;
use vstd::string::StringExecFns;
use crate::addr::{IpAddress, SocketAddress};
use crate::config::{CmdArgs, DeviceAddress};
use crate::laws::law_step_stays_valid;
use crate::multicast::{
    accept_from,
    listen_plan,
    BindError,
    MulticastSocket,
    Platform,
    SocketStep,
};
use crate::prober::{
    poll_step,
    reachable,
    AttemptView,
    PollStep,
    PollStepView,
    ProbeAttempt,
    ProberView,
    TcpProber,
};
use crate::span::{Span, NANOS_PER_MILLI};
use crate::trigger::{
    command_text,
    device_endpoint,
    endpoint_text,
    split,
    texts,
    trigger_command,
    CommandRun,
};

verus! {

/// Which transition the machine waits for.
#[derive(Clone, Copy, Debug, PartialEq, Eq, Structural)]
pub enum Phase {
    /// The device has not been probed yet.
    Starting,
    /// The device was last seen reachable: wait for it to go off.
    AwaitingOff,
    /// The device was seen unreachable: wait for it to come on, then fire
    /// the trigger.
    AwaitingOn,
}

/// Why the watcher cannot start.
#[derive(Clone, Copy, Debug, PartialEq, Eq, Structural)]
pub enum Fatal {
    /// The device's address is no address.
    InvalidDeviceAddress,
    /// No wake listener can be had.
    Listener(BindError),
}

impl Fatal {
    /// The reason in words.
    pub open spec fn spec_describe(self) -> Seq<char> {
        match self {
            Fatal::InvalidDeviceAddress => "invalid tv ip"@,
            Fatal::Listener(e) => "bind multicast socket failed: "@ + e.spec_describe(),
        }
    }

    /// The reason in words.
    pub fn describe(&self) -> (r: String)
        ensures
            r@ == self.spec_describe(),
    {
        match self {
            Fatal::InvalidDeviceAddress => String::from_str("invalid tv ip"),
            Fatal::Listener(e) => {
                let detail = e.describe();
                String::from_str("bind multicast socket failed: ").concat(detail.as_str())
            },
        }
    }
}

/// What the machine asks its caller to do next.
#[derive(Clone, Copy, Debug, PartialEq, Eq, Structural)]
pub enum Action {
    /// Attempt a connection to the device, bounded by the timeout.
    Probe,
    /// Pause for this long.
    Sleep(Span),
    /// Open a fresh wake listener.
    Bind,
    /// Close the wake listener.
    Release,
    /// Wait for one datagram on the wake listener.
    Receive,
    /// Run the trigger command.
    Trigger,
    /// Give up.
    Stop(Fatal),
}

/// An action with its pause in nanoseconds.
pub enum ActionView {
    Probe,
    Sleep(nat),
    Bind,
    Release,
    Receive,
    Trigger,
    Stop(Fatal),
}

impl View for Action {
    type V = ActionView;

    open spec fn view(&self) -> ActionView {
        match self {
            Action::Probe => ActionView::Probe,
            Action::Sleep(pause) => ActionView::Sleep(pause@),
            Action::Bind => ActionView::Bind,
            Action::Release => ActionView::Release,
            Action::Receive => ActionView::Receive,
            Action::Trigger => ActionView::Trigger,
            Action::Stop(fatal) => ActionView::Stop(*fatal),
        }
    }
}

/// What the caller reports once it has done what an action asked for.
#[allow(inconsistent_fields)]
#[derive(Clone, Copy, Debug, PartialEq, Eq, Structural)]
pub enum Event {
    /// A connection attempt ended.
    Probed(ProbeAttempt),
    /// The pause is over.
    Slept,
    /// The wake listener is open.
    Bound,
    /// The wake listener could not be opened.
    BindFailed,
    /// The wake listener is closed.
    Released,
    /// A datagram of `len` bytes arrived from `from`.
    Datagram { len: usize, from: SocketAddress },
    /// Receiving failed.
    ReceiveFailed,
    /// The trigger command was run.
    Triggered(CommandRun),
}

/// An event with its times in nanoseconds.
pub enum EventView {
    Probed(AttemptView),
    Slept,
    Bound,
    BindFailed,
    Released,
    Datagram { len: usize, from: SocketAddress },
    ReceiveFailed,
    Triggered(CommandRun),
}

impl View for Event {
    type V = EventView;

    open spec fn view(&self) -> EventView {
        match self {
            Event::Probed(attempt) => EventView::Probed(attempt@),
            Event::Slept => EventView::Slept,
            Event::Bound => EventView::Bound,
            Event::BindFailed => EventView::BindFailed,
            Event::Released => EventView::Released,
            Event::Datagram { len, from } => EventView::Datagram { len: *len, from: *from },
            Event::ReceiveFailed => EventView::ReceiveFailed,
            Event::Triggered(run) => EventView::Triggered(*run),
        }
    }
}

/// The state of the machine.
pub struct Machine {
    /// The bound on each connection attempt, in nanoseconds.
    pub timeout: nat,
    /// The device's address: the only sender whose datagrams count.
    pub device_ip: IpAddress,
    /// Whether a wake listener is configured.
    pub wake: bool,
    /// Whether a wake listener is open.
    pub listening: bool,
    /// Which transition the machine waits for.
    pub phase: Phase,
    /// The action that the caller was last asked for.
    pub pending: ActionView,
    /// The liveness state: how the latest attempt was classified, or `None`
    /// before the first.
    pub alive: Option<bool>,
}

impl Machine {
    /// The machine after it has asked for `action`.
    pub open spec fn ask(self, action: ActionView) -> (Machine, Option<ActionView>) {
        (Machine { pending: action, ..self }, Some(action))
    }

    /// The machine with the action that it waits to be answered.
    pub open spec fn asking(self) -> (Machine, ActionView) {
        (self, self.pending)
    }

    /// Starts waiting for the device to go off: probe at once.
    pub open spec fn enter_off(self) -> (Machine, Option<ActionView>) {
        Machine { phase: Phase::AwaitingOff, ..self }.ask(ActionView::Probe)
    }

    /// Starts waiting for the device to come on: open a wake listener
    /// first where one is configured, else probe at once.
    pub open spec fn enter_on(self) -> (Machine, Option<ActionView>) {
        let m = Machine { phase: Phase::AwaitingOn, ..self };
        if self.wake {
            m.ask(ActionView::Bind)
        } else {
            m.ask(ActionView::Probe)
        }
    }

    /// The device is confirmed on: close the wake listener where one is
    /// open, then fire the trigger.
    pub open spec fn confirm(self) -> (Machine, Option<ActionView>) {
        if self.listening {
            self.ask(ActionView::Release)
        } else {
            self.ask(ActionView::Trigger)
        }
    }

    /// What follows the polling step `step` of a wait for the state
    /// `expect`.
    pub open spec fn follow(self, expect: bool, step: PollStepView) -> (
        Machine,
        Option<ActionView>,
    ) {
        match step {
            PollStepView::Done => if expect {
                self.confirm()
            } else {
                self.enter_on()
            },
            PollStepView::Sleep(pause) => self.ask(ActionView::Sleep(pause)),
            PollStepView::Retry => self.ask(ActionView::Probe),
        }
    }

    /// One round of polling for the state `expect`.
    pub open spec fn poll(self, expect: bool, attempt: AttemptView) -> (
        Machine,
        Option<ActionView>,
    ) {
        self.follow(expect, poll_step(self.timeout, expect, attempt))
    }

    /// What the machine does with the outcome of a probe that it asked for.
    /// At startup the outcome chooses the phase. While waiting for off the
    /// machine polls. While waiting for on it polls where no wake listener
    /// is open; with one open it waits for a datagram after each attempt
    /// that finds the device unreachable.
    pub open spec fn on_probe(self, attempt: AttemptView) -> (Machine, Option<ActionView>) {
        let alive = reachable(self.timeout, attempt);
        let m = Machine { alive: Some(alive), ..self };
        match self.phase {
            Phase::Starting => if alive {
                m.enter_off()
            } else {
                m.enter_on()
            },
            Phase::AwaitingOff => m.poll(false, attempt),
            Phase::AwaitingOn => if !self.listening {
                m.poll(true, attempt)
            } else if alive {
                m.confirm()
            } else {
                m.ask(ActionView::Receive)
            },
        }
    }

    /// What the machine does once the wake listener is open: at startup it
    /// closes it again, having learnt that it can be had; in a wait it
    /// probes.
    pub open spec fn on_bound(self) -> (Machine, Option<ActionView>) {
        let m = Machine { listening: true, ..self };
        if self.phase == Phase::Starting {
            m.ask(ActionView::Release)
        } else {
            m.ask(ActionView::Probe)
        }
    }

    /// What the machine does where the wake listener cannot be opened: at
    /// startup it stops; in a wait it goes on without one, by polling.
    pub open spec fn on_bind_failed(self) -> (Machine, Option<ActionView>) {
        if self.phase == Phase::Starting {
            self.ask(ActionView::Stop(Fatal::Listener(BindError::Refused)))
        } else {
            self.ask(ActionView::Probe)
        }
    }

    /// What the machine does once the wake listener is closed: it fires the
    /// trigger where the device is confirmed on, and probes else.
    pub open spec fn on_released(self) -> (Machine, Option<ActionView>) {
        let m = Machine { listening: false, ..self };
        if self.phase == Phase::AwaitingOn && self.alive == Some(true) {
            m.ask(ActionView::Trigger)
        } else {
            m.ask(ActionView::Probe)
        }
    }

    /// One step: the state after `event` and the action asked for next. An
    /// event that does not answer the pending action changes nothing, and
    /// nothing is asked for.
    pub open spec fn next(self, event: EventView) -> (Machine, Option<ActionView>) {
        match (self.pending, event) {
            (ActionView::Probe, EventView::Probed(attempt)) => self.on_probe(attempt),
            (ActionView::Sleep(_), EventView::Slept) => self.ask(ActionView::Probe),
            (ActionView::Bind, EventView::Bound) => self.on_bound(),
            (ActionView::Bind, EventView::BindFailed) => self.on_bind_failed(),
            (ActionView::Release, EventView::Released) => self.on_released(),
            (ActionView::Receive, EventView::Datagram { len, from }) => if accept_from(
                self.device_ip,
                len,
                from,
            ) is Some {
                self.ask(ActionView::Probe)
            } else {
                self.ask(ActionView::Receive)
            },
            (ActionView::Receive, EventView::ReceiveFailed) => self.ask(ActionView::Release),
            (ActionView::Trigger, EventView::Triggered(_)) => self.enter_off(),
            _ => (self, None),
        }
    }

    /// The states that a machine can be in: the liveness state, the wake
    /// listener and the pending action fit the phase.
    pub open spec fn inv(self) -> bool {
        &&& self.listening ==> self.wake
        &&& {
            ||| self.pending is Stop
            ||| {
                &&& self.phase == Phase::Starting
                &&& self.alive is None
                &&& {
                    ||| !self.listening && self.pending is Probe
                    ||| !self.listening && self.wake && self.pending is Bind
                    ||| self.listening && self.pending is Release
                }
            }
            ||| {
                &&& self.phase == Phase::AwaitingOff
                &&& self.alive == Some(true)
                &&& !self.listening
                &&& (self.pending is Probe || self.pending is Sleep)
            }
            ||| {
                &&& self.phase == Phase::AwaitingOn
                &&& self.alive == Some(false)
                &&& {
                    ||| self.pending is Probe
                    ||| !self.listening && self.pending is Sleep
                    ||| !self.listening && self.wake && self.pending is Bind
                    ||| self.listening && (self.pending is Receive || self.pending is Release)
                }
            }
            ||| {
                &&& self.phase == Phase::AwaitingOn
                &&& self.alive == Some(true)
                &&& {
                    ||| !self.listening && self.pending is Trigger
                    ||| self.listening && self.pending is Release
                }
            }
        }
    }

    /// The machine at startup, or why there is none: the device's address
    /// must be an address, and the plan of the wake listener, where one is
    /// configured, must be a plan. With a wake listener the machine first
    /// opens it once, to learn whether it can be had; else it probes.
    pub open spec fn startup(
        timeout: nat,
        device_ip: Option<IpAddress>,
        wake: Option<Result<Seq<SocketStep>, BindError>>,
    ) -> Result<(Machine, ActionView), Fatal> {
        match (device_ip, wake) {
            (None, _) => Err(Fatal::InvalidDeviceAddress),
            (Some(_), Some(Err(e))) => Err(Fatal::Listener(e)),
            (Some(ip), Some(Ok(_))) => Ok(
                Machine {
                    timeout,
                    device_ip: ip,
                    wake: true,
                    listening: false,
                    phase: Phase::Starting,
                    pending: ActionView::Bind,
                    alive: None,
                }.asking(),
            ),
            (Some(ip), None) => Ok(
                Machine {
                    timeout,
                    device_ip: ip,
                    wake: false,
                    listening: false,
                    phase: Phase::Starting,
                    pending: ActionView::Probe,
                    alive: None,
                }.asking(),
            ),
        }
    }
}

/// The interface that the settings choose for the wake listener, if they
/// choose one: `interface` is what its text was read as, and `None` where
/// it is no host address.
pub open spec fn chosen_interface(args: CmdArgs, interface: Option<IpAddress>) -> Option<
    Option<IpAddress>,
> {
    match args.if_addr {
        Some(_) => Some(interface),
        None => None,
    }
}

/// The plan of the wake listener that the settings ask for, if they ask for
/// one: `multicast` is what the group's text was read as, and `None` where
/// it is no socket address. The listener joins on the interface that the
/// settings choose, or on one that the system chooses.
pub open spec fn wake_plan(
    args: CmdArgs,
    multicast: Option<SocketAddress>,
    interface: Option<IpAddress>,
    platform: Platform,
) -> Option<Result<Seq<SocketStep>, BindError>> {
    match args.multicast_addr {
        Some(_) => Some(listen_plan(multicast, chosen_interface(args, interface), platform)),
        None => None,
    }
}

/// The view of an action that a step returned, or of none.
pub open spec fn view_of(action: Option<Action>) -> Option<ActionView> {
    match action {
        Some(action) => Some(action@),
        None => None,
    }
}

/// The detection orchestrator.
#[derive(Debug)]
pub struct Orchestrator {
    prober: TcpProber,
    device_ip: IpAddress,
    listener: Option<MulticastSocket>,
    command: Vec<String>,
    listening: bool,
    phase: Phase,
    pending: Action,
    alive: Option<bool>,
}

impl View for Orchestrator {
    type V = Machine;

    closed spec fn view(&self) -> Machine {
        Machine {
            timeout: self.prober@.timeout,
            device_ip: self.device_ip,
            wake: self.listener is Some,
            listening: self.listening,
            phase: self.phase,
            pending: self.pending@,
            alive: self.alive,
        }
    }
}

impl Orchestrator {
    /// The prober that classifies the attempts.
    pub closed spec fn spec_prober(self) -> TcpProber {
        self.prober
    }

    /// The wake listener, where one is configured.
    pub closed spec fn spec_listener(self) -> Option<MulticastSocket> {
        self.listener
    }

    /// The trigger command.
    pub closed spec fn spec_command(self) -> Seq<String> {
        self.command@
    }

    /// What a step leaves as it is: the prober, the wake listener and the
    /// trigger command.
    pub open spec fn same_setup(self, other: Orchestrator) -> bool {
        &&& self.spec_prober() == other.spec_prober()
        &&& self.spec_listener() == other.spec_listener()
        &&& self.spec_command() == other.spec_command()
    }

    /// Sets the watcher up from its settings. `device` is what the device's
    /// address was read as, `multicast` what the multicast group was read
    /// as, and `interface` what the interface address was read as, each
    /// `None` where the text is no address.
    ///
    /// Fails, before any action is asked for, where the device's address is
    /// malformed, or where a wake listener is asked for and its group or
    /// its interface is malformed or the two differ in family. Else the
    /// prober targets the device's control endpoint with the timeout of the
    /// settings, the trigger command starts the package of the settings,
    /// and the first action is returned.
    pub fn start(
        args: &CmdArgs,
        device: Option<DeviceAddress>,
        multicast: Option<SocketAddress>,
        interface: Option<IpAddress>,
        platform: Platform,
    ) -> (r: Result<(Orchestrator, Action), Fatal>)
        ensures
            match r {
                Ok((machine, action)) => {
                    &&& device matches Some(d)
                    &&& Machine::startup(
                        args.timeout as nat * NANOS_PER_MILLI as nat,
                        Some(d.ip),
                        wake_plan(*args, multicast, interface, platform),
                    ) == Ok::<(Machine, ActionView), Fatal>((machine@, action@))
                    &&& machine@.inv()
                    &&& machine.spec_prober()@ == ProberView {
                        addr: endpoint_text(d.text@),
                        timeout: args.timeout as nat * NANOS_PER_MILLI as nat,
                    }
                    &&& texts(machine.spec_command()) == split(
                        command_text(endpoint_text(d.text@), args.package_name@),
                        ' ',
                    )
                    &&& machine.spec_command().len() >= 1
                    &&& match machine.spec_listener() {
                        Some(listener) => wake_plan(*args, multicast, interface, platform) == Some(
                            Ok::<Seq<SocketStep>, BindError>(listener@),
                        ),
                        None => wake_plan(*args, multicast, interface, platform) is None,
                    }
                },
                Err(fatal) => Machine::startup(
                    args.timeout as nat * NANOS_PER_MILLI as nat,
                    match device {
                        Some(d) => Some(d.ip),
                        None => None,
                    },
                    wake_plan(*args, multicast, interface, platform),
                ) == Err::<(Machine, ActionView), Fatal>(fatal),
            },
    {
        let device = match device {
            Some(device) => device,
            None => {
                return Err(Fatal::InvalidDeviceAddress);
            },
        };
        let chosen = match &args.if_addr {
            Some(_) => Some(interface),
            None => None,
        };
        let listener = match &args.multicast_addr {
            Some(_) => match MulticastSocket::try_new(multicast, chosen, platform) {
                Ok(listener) => Some(listener),
                Err(e) => {
                    return Err(Fatal::Listener(e));
                },
            },
            None => None,
        };
        let endpoint = device_endpoint(device.text.as_str());
        let command = trigger_command(device.text.as_str(), args.package_name.as_str());
        let prober = TcpProber::new(endpoint, Span::from_millis(args.timeout));
        let first = if listener.is_some() {
            Action::Bind
        } else {
            Action::Probe
        };
        let machine = Orchestrator {
            prober,
            device_ip: device.ip,
            listener,
            command,
            listening: false,
            phase: Phase::Starting,
            pending: first,
            alive: None,
        };
        Ok((machine, first))
    }

    /// The prober, whose target and timeout every probe uses.
    pub fn prober(&self) -> (r: &TcpProber)
        ensures
            *r == self.spec_prober(),
            r@.timeout == self@.timeout,
    {
        &self.prober
    }

    /// The wake listener to open when the machine asks for it.
    pub fn listener(&self) -> (r: Option<&MulticastSocket>)
        ensures
            match r {
                Some(listener) => self.spec_listener() == Some(*listener),
                None => self.spec_listener() is None,
            },
            r is Some <==> self@.wake,
    {
        self.listener.as_ref()
    }

    /// The trigger command to run when the machine asks for it: the program
    /// and its arguments.
    pub fn command(&self) -> (r: &Vec<String>)
        ensures
            r@ == self.spec_command(),
    {
        &self.command
    }

    /// The device's address.
    pub fn device_ip(&self) -> (r: IpAddress)
        ensures
            r == self@.device_ip,
    {
        self.device_ip
    }

    /// Which transition the machine waits for.
    pub fn phase(&self) -> (r: Phase)
        ensures
            r == self@.phase,
    {
        self.phase
    }

    /// The liveness state: how the latest attempt was classified.
    pub fn alive(&self) -> (r: Option<bool>)
        ensures
            r == self@.alive,
    {
        self.alive
    }

    /// Whether a wake listener is open.
    pub fn listening(&self) -> (r: bool)
        ensures
            r == self@.listening,
    {
        self.listening
    }

    /// The action that the machine waits to be answered.
    pub fn pending(&self) -> (r: Action)
        ensures
            r@ == self@.pending,
    {
        self.pending
    }

    fn ask(&mut self, action: Action) -> (r: Option<Action>)
        ensures
            (final(self)@, view_of(r)) == old(self)@.ask(action@),
            final(self).same_setup(*old(self)),
    {
        self.pending = action;
        Some(action)
    }

    fn enter_off(&mut self) -> (r: Option<Action>)
        ensures
            (final(self)@, view_of(r)) == old(self)@.enter_off(),
            final(self).same_setup(*old(self)),
    {
        self.phase = Phase::AwaitingOff;
        self.ask(Action::Probe)
    }

    fn enter_on(&mut self) -> (r: Option<Action>)
        ensures
            (final(self)@, view_of(r)) == old(self)@.enter_on(),
            final(self).same_setup(*old(self)),
    {
        self.phase = Phase::AwaitingOn;
        if self.listener.is_some() {
            self.ask(Action::Bind)
        } else {
            self.ask(Action::Probe)
        }
    }

    fn confirm(&mut self) -> (r: Option<Action>)
        ensures
            (final(self)@, view_of(r)) == old(self)@.confirm(),
            final(self).same_setup(*old(self)),
    {
        if self.listening {
            self.ask(Action::Release)
        } else {
            self.ask(Action::Trigger)
        }
    }

    fn follow(&mut self, expect: bool, step: PollStep) -> (r: Option<Action>)
        ensures
            (final(self)@, view_of(r)) == old(self)@.follow(expect, step@),
            final(self).same_setup(*old(self)),
    {
        match step {
            PollStep::Done => if expect {
                self.confirm()
            } else {
                self.enter_on()
            },
            PollStep::Sleep(pause) => self.ask(Action::Sleep(pause)),
            PollStep::Retry => self.ask(Action::Probe),
        }
    }

    fn on_probe(&mut self, attempt: &ProbeAttempt) -> (r: Option<Action>)
        ensures
            (final(self)@, view_of(r)) == old(self)@.on_probe(attempt@),
            final(self).same_setup(*old(self)),
    {
        let alive = self.prober.probe(attempt);
        self.alive = Some(alive);
        match self.phase {
            Phase::Starting => if alive {
                self.enter_off()
            } else {
                self.enter_on()
            },
            Phase::AwaitingOff => {
                let step = self.prober.probe_until_off(attempt);
                self.follow(false, step)
            },
            Phase::AwaitingOn => if !self.listening {
                let step = self.prober.probe_until_on(attempt);
                self.follow(true, step)
            } else if alive {
                self.confirm()
            } else {
                self.ask(Action::Receive)
            },
        }
    }

    fn on_bound(&mut self) -> (r: Option<Action>)
        ensures
            (final(self)@, view_of(r)) == old(self)@.on_bound(),
            final(self).same_setup(*old(self)),
    {
        self.listening = true;
        if self.phase == Phase::Starting {
            self.ask(Action::Release)
        } else {
            self.ask(Action::Probe)
        }
    }

    fn on_bind_failed(&mut self) -> (r: Option<Action>)
        ensures
            (final(self)@, view_of(r)) == old(self)@.on_bind_failed(),
            final(self).same_setup(*old(self)),
    {
        if self.phase == Phase::Starting {
            self.ask(Action::Stop(Fatal::Listener(BindError::Refused)))
        } else {
            self.ask(Action::Probe)
        }
    }

    fn on_released(&mut self) -> (r: Option<Action>)
        ensures
            (final(self)@, view_of(r)) == old(self)@.on_released(),
            final(self).same_setup(*old(self)),
    {
        let confirmed = match self.alive {
            Some(alive) => alive && self.phase == Phase::AwaitingOn,
            None => false,
        };
        self.listening = false;
        if confirmed {
            self.ask(Action::Trigger)
        } else {
            self.ask(Action::Probe)
        }
    }

    fn on_datagram(&mut self, len: usize, from: SocketAddress) -> (r: Option<Action>)
        ensures
            (final(self)@, view_of(r)) == if accept_from(old(self)@.device_ip, len, from) is Some {
                old(self)@.ask(ActionView::Probe)
            } else {
                old(self)@.ask(ActionView::Receive)
            },
            final(self).same_setup(*old(self)),
    {
        let accepted = match &self.listener {
            Some(listener) => listener.recv_peer(self.device_ip, len, from).is_some(),
            None => from.ip() == self.device_ip,
        };
        if accepted {
            self.ask(Action::Probe)
        } else {
            self.ask(Action::Receive)
        }
    }

    /// Takes the event that answers the pending action and returns the
    /// action to perform next, or `None` where the event answers nothing
    /// that is pending. The step is the one that [`Machine::next`]
    /// describes, and the state stays one that a machine can be in.
    pub fn step(&mut self, event: Event) -> (action: Option<Action>)
        ensures
            (final(self)@, view_of(action)) == old(self)@.next(event@),
            final(self).same_setup(*old(self)),
            old(self)@.inv() ==> final(self)@.inv(),
    {
        proof {
            if self@.inv() {
                law_step_stays_valid(self@, event@);
            }
        }
        match (self.pending, event) {
            (Action::Probe, Event::Probed(attempt)) => self.on_probe(&attempt),
            (Action::Sleep(_), Event::Slept) => self.ask(Action::Probe),
            (Action::Bind, Event::Bound) => self.on_bound(),
            (Action::Bind, Event::BindFailed) => self.on_bind_failed(),
            (Action::Release, Event::Released) => self.on_released(),
            (Action::Receive, Event::Datagram { len, from }) => self.on_datagram(len, from),
            (Action::Receive, Event::ReceiveFailed) => self.ask(Action::Release),
            (Action::Trigger, Event::Triggered(_)) => self.enter_off(),
            _ => None,
        }
    }
}

} // verus!
