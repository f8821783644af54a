use mytv::addr::{IpAddress, SocketAddress};
use mytv::config::{CmdArgs, DeviceAddress, DEFAULT_TIMEOUT_MILLIS};
use mytv::multicast::{BindError, Platform, SocketStep};
use mytv::orchestrator::{Action, Event, Fatal, Orchestrator, Phase};
use mytv::prober::{ConnectOutcome, ProbeAttempt};
use mytv::span::Span;
use mytv::trigger::CommandRun;

const GROUP: SocketAddress = SocketAddress::V4 { ip: 0xE00000FB, port: 5353 };

fn args(multicast: bool, timeout: u64) -> CmdArgs {
    CmdArgs {
        tv_ip: "192.168.1.10".to_string(),
        package_name: "org.xbmc.kodi".to_string(),
        multicast_addr: if multicast { Some("224.0.0.251:5353".to_string()) } else { None },
        if_addr: None,
        timeout,
    }
}

fn device() -> Option<DeviceAddress> {
    Some(DeviceAddress { ip: IpAddress::v4(192, 168, 1, 10), text: "192.168.1.10".to_string() })
}

fn polling(timeout: u64) -> (Orchestrator, Action) {
    Orchestrator::start(&args(false, timeout), device(), None, None, Platform::Unix).unwrap()
}

fn listening(timeout: u64) -> (Orchestrator, Action) {
    Orchestrator::start(&args(true, timeout), device(), Some(GROUP), None, Platform::Unix).unwrap()
}

fn up(ms: u64) -> Event {
    Event::Probed(ProbeAttempt { outcome: ConnectOutcome::Connected, elapsed: Span::from_millis(ms) })
}

fn down(ms: u64) -> Event {
    Event::Probed(ProbeAttempt { outcome: ConnectOutcome::Failed, elapsed: Span::from_millis(ms) })
}

fn silent(ms: u64) -> Event {
    Event::Probed(ProbeAttempt { outcome: ConnectOutcome::TimedOut, elapsed: Span::from_millis(ms) })
}

fn from_host(d: u8) -> Event {
    Event::Datagram { len: 64, from: SocketAddress::new(IpAddress::v4(192, 168, 1, d), 5353) }
}

fn ran() -> Event {
    Event::Triggered(CommandRun::Exited { success: true })
}

/// A device that is reachable or not by a schedule, and a clock that only
/// the performed actions move.
struct World {
    now: u64,
    starts_on: bool,
    flips: Vec<u64>,
    refuses: bool,
    timeout: u64,
    arrivals: Vec<(u64, u8)>,
    probes: Vec<u64>,
    triggers: Vec<u64>,
    binds: usize,
    releases: usize,
    went_on_wait: Vec<u64>,
}

impl World {
    fn new(starts_on: bool, flips: &[u64], timeout: u64) -> World {
        World {
            now: 0,
            starts_on,
            flips: flips.to_vec(),
            refuses: true,
            timeout,
            arrivals: Vec::new(),
            probes: Vec::new(),
            triggers: Vec::new(),
            binds: 0,
            releases: 0,
            went_on_wait: Vec::new(),
        }
    }

    fn reachable(&self, at: u64) -> bool {
        let passed = self.flips.iter().filter(|t| **t <= at).count();
        self.starts_on == (passed % 2 == 0)
    }

    fn millis(span: Span) -> u64 {
        span.as_secs() * 1000 + (span.subsec_nanos() / 1_000_000) as u64
    }

    /// Performs one action; `None` where the world has nothing more to give.
    fn perform(&mut self, action: Action) -> Option<Event> {
        match action {
            Action::Probe => {
                self.probes.push(self.now);
                if self.reachable(self.now) {
                    self.now += 2;
                    Some(up(2))
                } else if self.refuses {
                    Some(down(0))
                } else {
                    self.now += self.timeout;
                    Some(silent(self.timeout))
                }
            }
            Action::Sleep(pause) => {
                self.now += World::millis(pause);
                Some(Event::Slept)
            }
            Action::Bind => {
                self.binds += 1;
                Some(Event::Bound)
            }
            Action::Release => {
                self.releases += 1;
                Some(Event::Released)
            }
            Action::Receive => {
                if self.arrivals.is_empty() {
                    return None;
                }
                let (at, host) = self.arrivals.remove(0);
                if at > self.now {
                    self.now = at;
                }
                Some(from_host(host))
            }
            Action::Trigger => {
                self.triggers.push(self.now);
                Some(ran())
            }
            Action::Stop(_) => None,
        }
    }

    /// Runs the machine until the clock passes `until` or the world ends.
    fn drive(&mut self, machine: &mut Orchestrator, first: Action, until: u64) {
        let mut action = first;
        while self.now <= until {
            let event = match self.perform(action) {
                Some(event) => event,
                None => return,
            };
            let before = machine.phase();
            action = machine.step(event).expect("the event answers the action");
            if before != Phase::AwaitingOn && machine.phase() == Phase::AwaitingOn {
                self.went_on_wait.push(self.now);
            }
        }
    }
}

#[test]
fn malformed_device_address_starts_nothing() {
    let r = Orchestrator::start(&args(false, 3000), None, None, None, Platform::Unix);
    assert_eq!(r.err(), Some(Fatal::InvalidDeviceAddress));
    let r = Orchestrator::start(&args(true, 3000), None, Some(GROUP), None, Platform::Unix);
    assert_eq!(r.err(), Some(Fatal::InvalidDeviceAddress));
    let r = Orchestrator::start(&args(true, 3000), None, None, None, Platform::Unix);
    assert_eq!(r.err(), Some(Fatal::InvalidDeviceAddress));
}

#[test]
fn malformed_multicast_group_starts_nothing() {
    let r = Orchestrator::start(&args(true, 3000), device(), None, None, Platform::Unix);
    assert_eq!(r.err(), Some(Fatal::Listener(BindError::InvalidGroup)));
}

fn with_interface(text: &str) -> CmdArgs {
    let mut settings = args(true, 3000);
    settings.if_addr = Some(text.to_string());
    settings
}

#[test]
fn the_listener_joins_on_the_chosen_interface() {
    let chosen = IpAddress::v4(192, 168, 1, 2);
    let (machine, first) = Orchestrator::start(
        &with_interface("192.168.1.2"),
        device(),
        Some(GROUP),
        Some(chosen),
        Platform::Unix,
    )
    .unwrap();
    assert_eq!(first, Action::Bind);
    let steps = machine.listener().unwrap().steps();
    assert_eq!(steps[5], SocketStep::JoinV4 { group: 0xE00000FB, interface: 0xC0A80102 });
}

#[test]
fn an_ipv6_listener_joins_on_the_chosen_interface() {
    let group = SocketAddress::V6 { ip: 0xff02 << 112 | 0xfb, port: 5353, flowinfo: 0, scope_id: 0 };
    let (machine, _) = Orchestrator::start(
        &with_interface("fe80::1"),
        device(),
        Some(group),
        Some(IpAddress::V6(0xfe80 << 112 | 1)),
        Platform::Unix,
    )
    .unwrap();
    let steps = machine.listener().unwrap().steps();
    assert_eq!(steps[2], SocketStep::ReusePort(true));
    assert_eq!(
        steps[5],
        SocketStep::JoinV6 { group: 0xff02 << 112 | 0xfb, interface: 0xfe80 << 112 | 1 }
    );
}

#[test]
fn a_malformed_interface_starts_nothing() {
    let r = Orchestrator::start(&with_interface("eth0"), device(), Some(GROUP), None, Platform::Unix);
    assert_eq!(r.err(), Some(Fatal::Listener(BindError::InvalidInterface)));
}

#[test]
fn an_interface_of_the_other_family_starts_nothing() {
    let r = Orchestrator::start(
        &with_interface("fe80::1"),
        device(),
        Some(GROUP),
        Some(IpAddress::V6(1)),
        Platform::Unix,
    );
    assert_eq!(r.err(), Some(Fatal::Listener(BindError::InterfaceFamily)));
    let group = SocketAddress::V6 { ip: 0xff02 << 112 | 0xfb, port: 5353, flowinfo: 0, scope_id: 0 };
    let r = Orchestrator::start(
        &with_interface("10.0.0.1"),
        device(),
        Some(group),
        Some(IpAddress::v4(10, 0, 0, 1)),
        Platform::Unix,
    );
    assert_eq!(r.err(), Some(Fatal::Listener(BindError::InterfaceFamily)));
}

#[test]
fn an_interface_that_is_not_asked_for_is_not_read() {
    let (machine, _) = Orchestrator::start(
        &args(true, 3000),
        device(),
        Some(GROUP),
        Some(IpAddress::V6(1)),
        Platform::Unix,
    )
    .unwrap();
    let steps = machine.listener().unwrap().steps();
    assert_eq!(steps[5], SocketStep::JoinV4 { group: 0xE00000FB, interface: 0 });
    let polled =
        Orchestrator::start(&with_polling_interface(), device(), None, None, Platform::Unix);
    assert!(polled.unwrap().0.listener().is_none());
}

fn with_polling_interface() -> CmdArgs {
    let mut settings = args(false, 3000);
    settings.if_addr = Some("eth0".to_string());
    settings
}

#[test]
fn a_group_that_is_not_asked_for_is_not_read() {
    let (machine, first) =
        Orchestrator::start(&args(false, 3000), device(), Some(GROUP), None, Platform::Unix).unwrap();
    assert!(machine.listener().is_none());
    assert_eq!(first, Action::Probe);
}

#[test]
fn start_sets_up_prober_and_command() {
    let (machine, first) = polling(3000);
    assert_eq!(first, Action::Probe);
    assert_eq!(machine.pending(), Action::Probe);
    assert_eq!(machine.phase(), Phase::Starting);
    assert_eq!(machine.alive(), None);
    assert_eq!(machine.device_ip(), IpAddress::v4(192, 168, 1, 10));
    assert_eq!(machine.prober().addr(), "192.168.1.10:6095");
    assert_eq!(machine.prober().timeout(), Span::from_millis(3000));
    assert!(machine.listener().is_none());
    assert_eq!(
        machine.command(),
        &vec![
            "curl".to_string(),
            "-v".to_string(),
            "http://192.168.1.10:6095/controller?action=startapp&type=packagename&packagename=org.xbmc.kodi"
                .to_string(),
        ]
    );
}

#[test]
fn default_settings_poll_every_three_seconds() {
    let settings = CmdArgs::new("192.168.1.10".to_string(), "org.xbmc.kodi".to_string());
    assert_eq!(settings.timeout, 3000);
    assert_eq!(DEFAULT_TIMEOUT_MILLIS, 3000);
    assert_eq!(settings.multicast_addr, None);
    assert_eq!(settings.if_addr, None);
    assert_eq!(settings.tv_ip, "192.168.1.10");
    assert_eq!(settings.package_name, "org.xbmc.kodi");
    let (machine, _) = Orchestrator::start(&settings, device(), None, None, Platform::Unix).unwrap();
    assert_eq!(machine.prober().timeout(), Span::from_millis(3000));
}

#[test]
fn start_plans_the_wake_listener() {
    let (machine, first) = listening(3000);
    assert_eq!(first, Action::Bind);
    let listener = machine.listener().unwrap();
    assert_eq!(listener.steps().len(), 7);
    assert_eq!(listener.steps()[5], SocketStep::JoinV4 { group: 0xE00000FB, interface: 0 });
    assert_eq!(listener.steps()[6], SocketStep::NonBlocking(true));
}

#[test]
fn startup_opens_the_listener_once_before_the_first_probe() {
    let (mut machine, first) = listening(3000);
    assert_eq!(first, Action::Bind);
    assert!(!machine.listening());
    assert_eq!(machine.step(Event::Bound), Some(Action::Release));
    assert!(machine.listening());
    assert_eq!(machine.phase(), Phase::Starting);
    assert_eq!(machine.step(Event::Released), Some(Action::Probe));
    assert!(!machine.listening());
    assert_eq!(machine.phase(), Phase::Starting);
    assert_eq!(machine.alive(), None);
}

#[test]
fn a_listener_that_cannot_be_opened_at_startup_is_fatal() {
    let (mut machine, _) = listening(3000);
    let stop = Action::Stop(Fatal::Listener(BindError::Refused));
    assert_eq!(machine.step(Event::BindFailed), Some(stop));
    assert_eq!(machine.pending(), stop);
    assert_eq!(machine.alive(), None);
}

#[test]
fn reachable_at_startup_waits_for_off() {
    let (mut machine, _) = polling(3000);
    assert_eq!(machine.step(up(3)), Some(Action::Probe));
    assert_eq!(machine.phase(), Phase::AwaitingOff);
    assert_eq!(machine.alive(), Some(true));
}

#[test]
fn unreachable_at_startup_waits_for_on() {
    let (mut machine, _) = polling(3000);
    assert_eq!(machine.step(down(3)), Some(Action::Probe));
    assert_eq!(machine.phase(), Phase::AwaitingOn);
    assert_eq!(machine.alive(), Some(false));

    let (mut machine, _) = polling(3000);
    assert_eq!(machine.step(silent(3000)), Some(Action::Probe));
    assert_eq!(machine.phase(), Phase::AwaitingOn);
}

#[test]
fn awaiting_off_polls_at_the_cadence() {
    let (mut machine, _) = polling(3000);
    machine.step(up(3));
    assert_eq!(machine.step(up(10)), Some(Action::Sleep(Span::from_millis(2990))));
    assert_eq!(machine.phase(), Phase::AwaitingOff);
    assert_eq!(machine.step(Event::Slept), Some(Action::Probe));
    assert_eq!(machine.step(up(0)), Some(Action::Sleep(Span::from_millis(3000))));
    assert_eq!(machine.step(Event::Slept), Some(Action::Probe));
    assert_eq!(machine.step(down(1)), Some(Action::Probe));
    assert_eq!(machine.phase(), Phase::AwaitingOn);
    assert_eq!(machine.alive(), Some(false));
}

#[test]
fn a_connection_at_the_timeout_counts_as_off() {
    let (mut machine, _) = polling(3000);
    machine.step(up(3));
    assert_eq!(machine.step(up(3000)), Some(Action::Probe));
    assert_eq!(machine.phase(), Phase::AwaitingOn);
    assert_eq!(machine.alive(), Some(false));
    assert_eq!(machine.step(up(3000)), Some(Action::Probe));
    assert_eq!(machine.phase(), Phase::AwaitingOn);
    assert_eq!(machine.step(up(2999)), Some(Action::Trigger));
}

#[test]
fn awaiting_on_by_polling_fires_once() {
    let (mut machine, _) = polling(3000);
    machine.step(down(1));
    assert_eq!(machine.step(down(4)), Some(Action::Sleep(Span::from_millis(2996))));
    assert_eq!(machine.step(Event::Slept), Some(Action::Probe));
    assert_eq!(machine.step(silent(3000)), Some(Action::Probe));
    assert_eq!(machine.phase(), Phase::AwaitingOn);
    assert_eq!(machine.step(up(8)), Some(Action::Trigger));
    assert_eq!(machine.phase(), Phase::AwaitingOn);
    assert_eq!(machine.alive(), Some(true));
    assert_eq!(machine.step(ran()), Some(Action::Probe));
    assert_eq!(machine.phase(), Phase::AwaitingOff);
    assert_eq!(machine.alive(), Some(true));
}

#[test]
fn a_failed_trigger_changes_nothing() {
    for outcome in [CommandRun::SpawnFailed, CommandRun::Exited { success: false }] {
        let (mut machine, _) = polling(3000);
        machine.step(down(1));
        assert_eq!(machine.step(up(1)), Some(Action::Trigger));
        assert_eq!(machine.step(Event::Triggered(outcome)), Some(Action::Probe));
        assert_eq!(machine.phase(), Phase::AwaitingOff);
        assert_eq!(machine.step(up(1)), Some(Action::Sleep(Span::from_millis(2999))));
    }
}

#[test]
fn awaiting_on_with_a_listener_waits_for_datagrams() {
    let (mut machine, _) = listening(3000);
    machine.step(Event::Bound);
    machine.step(Event::Released);
    assert_eq!(machine.step(down(1)), Some(Action::Bind));
    assert_eq!(machine.phase(), Phase::AwaitingOn);
    assert_eq!(machine.step(Event::Bound), Some(Action::Probe));
    assert_eq!(machine.step(down(1)), Some(Action::Receive));
    assert_eq!(machine.step(from_host(10)), Some(Action::Probe));
    assert_eq!(machine.step(down(1)), Some(Action::Receive));
    assert_eq!(machine.step(from_host(10)), Some(Action::Probe));
    assert_eq!(machine.step(up(1)), Some(Action::Release));
    assert_eq!(machine.alive(), Some(true));
    assert_eq!(machine.phase(), Phase::AwaitingOn);
    assert_eq!(machine.step(Event::Released), Some(Action::Trigger));
    assert_eq!(machine.step(ran()), Some(Action::Probe));
    assert_eq!(machine.phase(), Phase::AwaitingOff);
}

#[test]
fn a_listener_probes_before_it_waits() {
    let (mut machine, _) = listening(3000);
    machine.step(Event::Bound);
    machine.step(Event::Released);
    machine.step(down(1));
    assert_eq!(machine.step(Event::Bound), Some(Action::Probe));
    assert_eq!(machine.step(up(1)), Some(Action::Release));
    assert_eq!(machine.step(Event::Released), Some(Action::Trigger));
}

#[test]
fn only_the_devices_datagram_wakes_a_probe() {
    let (mut machine, _) = listening(3000);
    machine.step(Event::Bound);
    machine.step(Event::Released);
    machine.step(down(1));
    machine.step(Event::Bound);
    assert_eq!(machine.step(down(1)), Some(Action::Receive));

    assert_eq!(machine.step(from_host(9)), Some(Action::Receive));
    assert_eq!(machine.pending(), Action::Receive);
    assert_eq!(machine.phase(), Phase::AwaitingOn);
    assert_eq!(machine.alive(), Some(false));
    assert_eq!(machine.step(from_host(11)), Some(Action::Receive));
    let v6 = SocketAddress::V6 { ip: 0xC0A8010A, port: 5353, flowinfo: 0, scope_id: 0 };
    assert_eq!(machine.step(Event::Datagram { len: 1, from: v6 }), Some(Action::Receive));

    assert_eq!(machine.step(from_host(10)), Some(Action::Probe));
    assert_eq!(machine.pending(), Action::Probe);
    assert_eq!(machine.step(from_host(10)), None);
    assert_eq!(machine.pending(), Action::Probe);
}

#[test]
fn datagrams_from_three_senders_probe_once_per_device_datagram() {
    let mut world = World::new(false, &[], 3000);
    world.arrivals = vec![(100, 9), (200, 10), (300, 11), (400, 9), (500, 10), (600, 11)];
    let (mut machine, first) = listening(3000);
    world.drive(&mut machine, first, 10_000);
    // One probe at startup, one on entering the wait, one for each of the
    // device's two datagrams.
    assert_eq!(world.probes, vec![0, 0, 200, 500]);
    assert!(world.triggers.is_empty());
    assert_eq!(machine.pending(), Action::Receive);
}

#[test]
fn a_failed_receive_falls_back_to_polling() {
    let (mut machine, _) = listening(3000);
    machine.step(Event::Bound);
    machine.step(Event::Released);
    machine.step(down(1));
    machine.step(Event::Bound);
    assert!(machine.listening());
    assert_eq!(machine.step(down(1)), Some(Action::Receive));
    assert_eq!(machine.step(Event::ReceiveFailed), Some(Action::Release));
    assert_eq!(machine.step(Event::Released), Some(Action::Probe));
    assert!(!machine.listening());
    assert_eq!(machine.phase(), Phase::AwaitingOn);
    assert_eq!(machine.step(down(10)), Some(Action::Sleep(Span::from_millis(2990))));
    assert_eq!(machine.step(Event::Slept), Some(Action::Probe));
    assert_eq!(machine.step(up(10)), Some(Action::Trigger));
    assert_eq!(machine.step(ran()), Some(Action::Probe));
    assert_eq!(machine.phase(), Phase::AwaitingOff);
    // The next wait asks for a fresh listener.
    assert_eq!(machine.step(down(1)), Some(Action::Bind));
}

#[test]
fn a_listener_that_cannot_be_reopened_leaves_polling() {
    let (mut machine, _) = listening(3000);
    machine.step(Event::Bound);
    machine.step(Event::Released);
    assert_eq!(machine.step(down(1)), Some(Action::Bind));
    assert_eq!(machine.step(Event::BindFailed), Some(Action::Probe));
    assert!(!machine.listening());
    assert_eq!(machine.phase(), Phase::AwaitingOn);
    assert_eq!(machine.step(down(0)), Some(Action::Sleep(Span::from_millis(3000))));
    assert_eq!(machine.step(Event::Slept), Some(Action::Probe));
    assert_eq!(machine.step(silent(3000)), Some(Action::Probe));
    assert_eq!(machine.step(up(1)), Some(Action::Trigger));
    assert_eq!(machine.step(ran()), Some(Action::Probe));
    assert_eq!(machine.step(down(1)), Some(Action::Bind));
    assert_eq!(machine.step(Event::Bound), Some(Action::Probe));
    assert!(machine.listening());
}

#[test]
fn a_stopped_machine_asks_for_nothing() {
    let (mut machine, _) = listening(3000);
    let stop = Action::Stop(Fatal::Listener(BindError::Refused));
    assert_eq!(machine.step(Event::BindFailed), Some(stop));
    for event in [up(1), Event::Slept, Event::Bound, Event::BindFailed, Event::Released,
        from_host(10), Event::ReceiveFailed, ran()]
    {
        assert_eq!(machine.step(event), None);
        assert_eq!(machine.pending(), stop);
        assert_eq!(machine.phase(), Phase::Starting);
    }
}

#[test]
fn an_event_that_answers_nothing_is_dropped() {
    let (mut machine, _) = polling(3000);
    for event in [Event::Slept, Event::Bound, Event::BindFailed, Event::Released, from_host(10),
        Event::ReceiveFailed, ran()]
    {
        assert_eq!(machine.step(event), None);
        assert_eq!(machine.pending(), Action::Probe);
        assert_eq!(machine.phase(), Phase::Starting);
        assert_eq!(machine.alive(), None);
    }
    machine.step(down(1));
    assert_eq!(machine.step(up(1)), Some(Action::Trigger));
    assert_eq!(machine.step(up(1)), None);
    assert_eq!(machine.step(Event::Slept), None);
    assert_eq!(machine.pending(), Action::Trigger);
    assert_eq!(machine.step(ran()), Some(Action::Probe));
}

#[test]
fn going_off_is_seen_within_one_polling_interval() {
    // Reachable at startup, off from 5000 ms on, polled every 3000 ms.
    let mut world = World::new(true, &[5000], 3000);
    let (mut machine, first) = polling(3000);
    world.drive(&mut machine, first, 20_000);
    assert_eq!(world.went_on_wait.len(), 1);
    let seen = world.went_on_wait[0];
    assert!(seen >= 5000);
    assert!(seen <= 5000 + 3000);
    assert!(world.triggers.is_empty());
    assert_eq!(machine.phase(), Phase::AwaitingOn);
}

#[test]
fn a_machine_that_starts_reachable_begins_awaiting_off() {
    let mut world = World::new(true, &[5000], 3000);
    let (mut machine, first) = polling(3000);
    world.drive(&mut machine, first, 4000);
    assert_eq!(machine.phase(), Phase::AwaitingOff);
    assert!(world.went_on_wait.is_empty());
}

#[test]
fn coming_on_fires_once_and_not_before() {
    // Unreachable at startup, on from 5000 ms, no wake listener.
    let mut world = World::new(false, &[5000], 3000);
    let (mut machine, first) = polling(3000);
    world.drive(&mut machine, first, 4999);
    assert!(world.triggers.is_empty());
    let pending = machine.pending();
    world.drive(&mut machine, pending, 60_000);
    assert_eq!(world.triggers.len(), 1);
    assert!(world.triggers[0] >= 5000);
    assert!(world.triggers[0] <= 5000 + 3000 + 2);
    assert_eq!(machine.phase(), Phase::AwaitingOff);
}

#[test]
fn n_cycles_fire_n_times() {
    for refuses in [true, false] {
        for n in [1usize, 2, 5, 12] {
            // On at startup; off and on again n times, 10 s apart.
            let mut flips = Vec::new();
            for k in 0..n as u64 {
                flips.push(10_000 + 20_000 * k);
                flips.push(20_000 + 20_000 * k);
            }
            let mut world = World::new(true, &flips, 3000);
            world.refuses = refuses;
            let (mut machine, first) = polling(3000);
            world.drive(&mut machine, first, 20_000 * n as u64 + 9_000);
            assert_eq!(world.triggers.len(), n);
            for (k, at) in world.triggers.iter().enumerate() {
                let on = 20_000 + 20_000 * k as u64;
                assert!(*at >= on && *at <= on + 3000 + 2);
            }
        }
    }
}

#[test]
fn n_cycles_fire_n_times_from_an_off_start() {
    let mut world = World::new(false, &[4_000, 14_000, 24_000, 34_000, 44_000], 3000);
    let (mut machine, first) = polling(3000);
    world.drive(&mut machine, first, 50_000);
    assert_eq!(world.triggers.len(), 3);
}

#[test]
fn n_cycles_fire_n_times_with_a_listener() {
    let mut world = World::new(true, &[1_000, 5_000, 9_000, 13_000], 3000);
    // The device announces itself once before it accepts connections and
    // once after, each time it comes on.
    world.arrivals = vec![(4_900, 10), (5_100, 10), (12_900, 10), (13_100, 10), (13_200, 9)];
    let (mut machine, first) = listening(3000);
    world.drive(&mut machine, first, 100_000);
    assert_eq!(world.triggers, vec![5_102, 13_102]);
    // One listener to try at startup and one for each wait for on.
    assert_eq!(world.binds, 1 + 2);
    assert_eq!(world.releases, 1 + 2);
}

#[test]
fn instant_failures_are_polled_no_faster_than_the_timeout() {
    for timeout in [100u64, 3000, 10_000] {
        let mut world = World::new(false, &[], timeout);
        let (mut machine, first) = polling(timeout);
        world.drive(&mut machine, first, 20 * timeout);
        // The startup probe and the first probe of the wait follow each
        // other at once; from then on the probes are one timeout apart.
        assert_eq!(world.probes[0], 0);
        assert_eq!(world.probes[1], 0);
        for pair in world.probes[1..].windows(2) {
            assert_eq!(pair[1] - pair[0], timeout);
        }
        assert_eq!(world.probes.len(), 2 + 20);
    }
}

#[test]
fn off_then_on_polling_keeps_the_floor() {
    // On at startup, off at once afterwards: the wait for off ends with a
    // refused attempt, and the wait for on begins with an attempt of its
    // own.
    let mut world = World::new(true, &[1], 3000);
    let (mut machine, first) = polling(3000);
    world.drive(&mut machine, first, 30_000);
    assert_eq!(world.went_on_wait, vec![2]);
    assert_eq!(&world.probes[..3], &[0, 2, 2]);
    let in_wait = &world.probes[2..];
    assert_eq!(in_wait.len(), 10);
    for pair in in_wait.windows(2) {
        assert_eq!(pair[1] - pair[0], 3000);
    }
    assert_eq!(machine.phase(), Phase::AwaitingOn);
}

#[test]
fn liveness_state_is_the_latest_classification() {
    let (mut machine, _) = polling(3000);
    assert_eq!(machine.alive(), None);
    machine.step(up(1));
    assert_eq!(machine.alive(), Some(true));
    machine.step(Event::Slept);
    assert_eq!(machine.alive(), Some(true));
    machine.step(down(1));
    assert_eq!(machine.alive(), Some(false));
    machine.step(silent(3000));
    assert_eq!(machine.alive(), Some(false));
    machine.step(up(5));
    assert_eq!(machine.alive(), Some(true));
}

#[test]
fn fatal_reasons_in_words() {
    assert_eq!(Fatal::InvalidDeviceAddress.describe(), "invalid tv ip");
    assert_eq!(
        Fatal::Listener(BindError::InvalidGroup).describe(),
        "bind multicast socket failed: invalid multicast address"
    );
    assert_eq!(
        Fatal::Listener(BindError::Refused).describe(),
        "bind multicast socket failed: socket setup refused"
    );
}
