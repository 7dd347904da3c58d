use brightless::ddc_manager::DdcManager;
use brightless::discovery::{Action, Discovery, Event, Phase};
use brightless::error::DdcError;
use brightless::vcp::VcpReply;
use std::collections::HashMap;

/// A display behind a bus: what it replies to each feature code.
#[derive(Clone, Default)]
struct Display {
    replies: HashMap<u8, VcpReply>,
}

impl Display {
    fn with(mut self, code: u8, value: u16, maximum: u16) -> Display {
        self.replies.insert(code, VcpReply::new(value, maximum));
        self
    }

    fn plain() -> Display {
        Display::default().with(0x10, 50, 100)
    }

    fn full() -> Display {
        Display::default()
            .with(0x10, 50, 100)
            .with(0x12, 40, 255)
            .with(0x62, 10, 64)
            .with(0x60, 0x11, 0x1b)
            .with(0xd6, 1, 5)
    }
}

/// A host with outputs, blobs, device nodes and displays, which keeps a log
/// of what was done to it.
#[derive(Default)]
struct Host {
    blobs: HashMap<String, Vec<u8>>,
    nodes: Option<Vec<String>>,
    /// Listings that come before `nodes`, one per request.
    earlier_nodes: Vec<Option<Vec<String>>>,
    cannot_open: Vec<String>,
    displays: HashMap<String, Display>,
    open: Vec<String>,
    log: Vec<String>,
}

impl Host {
    fn perform(&mut self, action: Action) -> Option<Event> {
        match action {
            Action::ReadEdid { connector } => {
                self.log.push(format!("edid {}", connector));
                Some(Event::Edid(self.blobs.get(&connector).cloned()))
            }
            Action::ListBuses => {
                self.log.push("list".to_string());
                let listing = if self.earlier_nodes.is_empty() {
                    self.nodes.clone()
                } else {
                    self.earlier_nodes.remove(0)
                };
                Some(Event::Buses(match listing {
                    Some(nodes) => Ok(nodes),
                    None => Err("cannot list /dev".to_string()),
                }))
            }
            Action::Open { path } => {
                self.log.push(format!("open {}", path));
                assert!(!self.open.contains(&path), "{} is opened twice", path);
                if self.cannot_open.contains(&path) {
                    Some(Event::Opened(false))
                } else {
                    self.open.push(path);
                    Some(Event::Opened(true))
                }
            }
            Action::Query { path, code } => {
                self.log.push(format!("query {} {:02x}", path, code));
                assert!(self.open.contains(&path), "{} is not open", path);
                let reply = self.displays.get(&path).and_then(|d| d.replies.get(&code)).copied();
                Some(Event::Reply(reply))
            }
            Action::Release { path } => {
                self.log.push(format!("release {}", path));
                assert!(self.open.contains(&path), "{} is not open", path);
                self.open.retain(|p| p != &path);
                Some(Event::Released)
            }
            Action::Finished => None,
        }
    }

    fn discover(&mut self, connectors: &[&str]) -> Discovery {
        let mut discovery = Discovery::new(connectors.iter().map(|c| c.to_string()).collect());
        let mut steps = 0;
        loop {
            let action = discovery.action();
            match self.perform(action) {
                Some(event) => discovery.step(event),
                None => break,
            }
            steps += 1;
            assert!(steps < 10_000, "discovery does not end");
        }
        assert!(discovery.is_finished());
        assert_eq!(discovery.phase(), Phase::Finished);
        discovery
    }
}

fn nodes(paths: &[&str]) -> Option<Vec<String>> {
    Some(paths.iter().map(|p| p.to_string()).collect())
}

fn named_blob(name: &[u8]) -> Vec<u8> {
    let mut blob = vec![0u8; 128];
    for i in 1..7 {
        blob[i] = 0xff;
    }
    blob[8] = 64 + 17;
    blob[9] = 64 + 45;
    blob[10] = 0x12;
    blob[11] = 0x34;
    if !name.is_empty() {
        blob[0x36 + 3] = 0xfc;
        for j in 0..13 {
            blob[0x36 + 5 + j] = if j < name.len() { name[j] } else { 0x0a };
        }
    } else {
        blob[0x36] = 1;
    }
    for block in 1..4 {
        blob[0x36 + 18 * block] = 1;
    }
    blob
}

#[test]
fn no_connectors_no_monitors() {
    let mut host = Host::default();
    host.nodes = nodes(&["/dev/i2c-0"]);
    host.displays.insert("/dev/i2c-0".to_string(), Display::full());
    let discovery = host.discover(&[]);
    assert!(host.log.is_empty());
    assert!(matches!(discovery.discover_monitors(), Err(DdcError::NoMonitors)));
    let discovery = host.discover(&[]);
    assert!(matches!(DdcManager::new(discovery), Err(DdcError::NoMonitors)));
}

#[test]
fn finished_at_once_without_connectors() {
    let discovery = Discovery::new(vec![]);
    assert!(discovery.is_finished());
    assert!(matches!(discovery.action(), Action::Finished));
}

#[test]
fn every_handshake_fails() {
    let mut host = Host::default();
    host.nodes = nodes(&["/dev/i2c-0", "/dev/i2c-1", "/dev/i2c-2"]);
    // a display that answers everything but brightness is no display
    host.displays.insert(
        "/dev/i2c-1".to_string(),
        Display::default().with(0x12, 1, 100).with(0x60, 0x11, 0).with(0xd6, 1, 0),
    );
    let discovery = host.discover(&["card0-DP-1", "card0-DP-2"]);
    assert!(matches!(discovery.discover_monitors(), Err(DdcError::NoMonitors)));
    assert!(host.open.is_empty());
    assert_eq!(
        host.log,
        vec![
            "edid card0-DP-1",
            "list",
            "open /dev/i2c-0",
            "query /dev/i2c-0 10",
            "release /dev/i2c-0",
            "open /dev/i2c-1",
            "query /dev/i2c-1 10",
            "release /dev/i2c-1",
            "open /dev/i2c-2",
            "query /dev/i2c-2 10",
            "release /dev/i2c-2",
            "edid card0-DP-2",
            "list",
            "open /dev/i2c-0",
            "query /dev/i2c-0 10",
            "release /dev/i2c-0",
            "open /dev/i2c-1",
            "query /dev/i2c-1 10",
            "release /dev/i2c-1",
            "open /dev/i2c-2",
            "query /dev/i2c-2 10",
            "release /dev/i2c-2",
        ]
    );
}

#[test]
fn no_bus_can_be_opened() {
    let mut host = Host::default();
    host.nodes = nodes(&["/dev/i2c-0", "/dev/i2c-1"]);
    host.cannot_open = vec!["/dev/i2c-0".to_string(), "/dev/i2c-1".to_string()];
    host.displays.insert("/dev/i2c-0".to_string(), Display::full());
    let discovery = host.discover(&["card0-DP-1"]);
    assert!(matches!(discovery.discover_monitors(), Err(DdcError::NoMonitors)));
    assert_eq!(host.log, vec!["edid card0-DP-1", "list", "open /dev/i2c-0", "open /dev/i2c-1"]);
}

#[test]
fn no_buses_no_monitors() {
    let mut host = Host::default();
    host.nodes = nodes(&["/dev/null", "/dev/sda", "/dev/i2c", "/dev/tty0"]);
    let discovery = host.discover(&["card0-DP-1"]);
    assert!(matches!(discovery.discover_monitors(), Err(DdcError::NoMonitors)));
    assert_eq!(host.log, vec!["edid card0-DP-1", "list"]);
    let mut host = Host::default();
    host.nodes = nodes(&[]);
    let discovery = host.discover(&["card0-DP-1"]);
    assert!(matches!(discovery.discover_monitors(), Err(DdcError::NoMonitors)));
}

#[test]
fn listing_failure_leaves_the_output_without_a_monitor() {
    let mut host = Host::default();
    host.nodes = None;
    host.displays.insert("/dev/i2c-0".to_string(), Display::full());
    let discovery = host.discover(&["card0-DP-1"]);
    assert!(matches!(discovery.discover_monitors(), Err(DdcError::NoMonitors)));
    assert_eq!(host.log, vec!["edid card0-DP-1", "list"]);
}

#[test]
fn listing_failure_for_every_output() {
    let mut host = Host::default();
    host.nodes = None;
    let discovery = host.discover(&["card0-DP-1", "card0-DP-2"]);
    assert!(matches!(DdcManager::new(discovery), Err(DdcError::NoMonitors)));
    assert_eq!(host.log, vec!["edid card0-DP-1", "list", "edid card0-DP-2", "list"]);
}

#[test]
fn listing_failure_keeps_the_monitors_bound_before() {
    let mut host = Host::default();
    host.earlier_nodes = vec![nodes(&["/dev/i2c-0"])];
    host.nodes = None;
    host.displays.insert("/dev/i2c-0".to_string(), Display::full());
    let discovery = host.discover(&["card0-DP-1", "card0-DP-2", "card0-DP-3"]);
    let monitors = discovery.discover_monitors().unwrap();
    assert_eq!(monitors.len(), 1);
    assert_eq!(monitors[0].connector, "card0-DP-1");
    assert_eq!(monitors[0].bus, "/dev/i2c-0");
    assert_eq!(monitors[0].name, "Monitor 1");
    assert_eq!(host.open, vec!["/dev/i2c-0"]);
}

#[test]
fn listing_failure_does_not_end_discovery() {
    let mut host = Host::default();
    host.earlier_nodes = vec![None];
    host.nodes = nodes(&["/dev/i2c-0", "/dev/i2c-1"]);
    host.displays.insert("/dev/i2c-1".to_string(), Display::plain());
    let discovery = host.discover(&["card0-DP-1", "card0-DP-2"]);
    let monitors = discovery.discover_monitors().unwrap();
    assert_eq!(monitors.len(), 1);
    assert_eq!(monitors[0].connector, "card0-DP-2");
    assert_eq!(monitors[0].bus, "/dev/i2c-1");
    assert_eq!(
        host.log,
        vec![
            "edid card0-DP-1",
            "list",
            "edid card0-DP-2",
            "list",
            "open /dev/i2c-0",
            "query /dev/i2c-0 10",
            "release /dev/i2c-0",
            "open /dev/i2c-1",
            "query /dev/i2c-1 10",
            "query /dev/i2c-1 12",
            "query /dev/i2c-1 62",
            "query /dev/i2c-1 60",
            "query /dev/i2c-1 d6",
        ]
    );
}

#[test]
fn listing_failure_step_by_step() {
    let mut discovery = Discovery::new(vec!["a".to_string(), "b".to_string()]);
    discovery.step(Event::Edid(None));
    assert_eq!(discovery.phase(), Phase::Buses);
    discovery.step(Event::Buses(Err("denied".to_string())));
    assert_eq!(discovery.phase(), Phase::Edid);
    assert!(matches!(discovery.action(), Action::ReadEdid { connector } if connector == "b"));
    discovery.step(Event::Edid(None));
    discovery.step(Event::Buses(Err("denied".to_string())));
    assert!(discovery.is_finished());
    assert!(matches!(discovery.discover_monitors(), Err(DdcError::NoMonitors)));
}

#[test]
fn one_full_monitor() {
    let mut host = Host::default();
    host.blobs.insert("card0-DP-1".to_string(), named_blob(b"TestMon"));
    host.nodes = nodes(&["/dev/null", "/dev/i2c-0", "/dev/i2c-4"]);
    host.displays.insert("/dev/i2c-4".to_string(), Display::full());
    let discovery = host.discover(&["card0-DP-1"]);
    let manager = DdcManager::new(discovery).unwrap();
    assert_eq!(manager.monitors.len(), 1);
    let m = &manager.monitors[0];
    assert_eq!(m.name, "TestMon");
    assert_eq!(m.connector, "card0-DP-1");
    assert_eq!(m.bus, "/dev/i2c-4");
    assert_eq!((m.min_brightness, m.max_brightness), (0, 100));
    assert_eq!((m.min_contrast, m.max_contrast), (0, 255));
    assert_eq!((m.min_volume, m.max_volume), (0, 64));
    assert!(m.supports_input_source);
    assert!(m.supports_power_mode);
    assert_eq!(host.open, vec!["/dev/i2c-4"]);
    assert_eq!(
        host.log,
        vec![
            "edid card0-DP-1",
            "list",
            "open /dev/i2c-0",
            "query /dev/i2c-0 10",
            "release /dev/i2c-0",
            "open /dev/i2c-4",
            "query /dev/i2c-4 10",
            "query /dev/i2c-4 12",
            "query /dev/i2c-4 62",
            "query /dev/i2c-4 60",
            "query /dev/i2c-4 d6",
        ]
    );
    assert!(manager.supports_contrast(0));
    assert!(manager.supports_volume(0));
    assert!(manager.supports_input_source(0));
    assert!(manager.supports_power_mode(0));
}

#[test]
fn optional_features_degrade() {
    let mut host = Host::default();
    host.nodes = nodes(&["/dev/i2c-0"]);
    host.displays.insert(
        "/dev/i2c-0".to_string(),
        Display::plain().with(0x60, 99, 0).with(0xd6, 0, 0),
    );
    let discovery = host.discover(&["card0-DP-1"]);
    let monitors = discovery.discover_monitors().unwrap();
    assert_eq!(monitors.len(), 1);
    let m = &monitors[0];
    assert_eq!((m.min_brightness, m.max_brightness), (0, 100));
    assert_eq!((m.min_contrast, m.max_contrast), (0, 0));
    assert_eq!((m.min_volume, m.max_volume), (0, 0));
    assert!(!m.supports_input_source);
    assert!(!m.supports_power_mode);
    assert!(host.log.contains(&"query /dev/i2c-0 d6".to_string()));
}

#[test]
fn a_bus_is_claimed_once() {
    let mut host = Host::default();
    host.nodes = nodes(&["/dev/i2c-0", "/dev/i2c-1", "/dev/i2c-2", "/dev/i2c-3"]);
    host.displays.insert("/dev/i2c-1".to_string(), Display::plain());
    host.displays.insert("/dev/i2c-3".to_string(), Display::full());
    let discovery = host.discover(&["card0-DP-1", "card0-DP-2", "card0-HDMI-A-1"]);
    let monitors = discovery.discover_monitors().unwrap();
    assert_eq!(monitors.len(), 2);
    assert_eq!(monitors[0].connector, "card0-DP-1");
    assert_eq!(monitors[0].bus, "/dev/i2c-1");
    assert_eq!(monitors[1].connector, "card0-DP-2");
    assert_eq!(monitors[1].bus, "/dev/i2c-3");
    // the third output finds both displays' buses claimed and opens neither
    let tail: Vec<&String> =
        host.log.iter().skip_while(|l| *l != "edid card0-HDMI-A-1").collect();
    assert_eq!(
        tail,
        vec![
            "edid card0-HDMI-A-1",
            "list",
            "open /dev/i2c-0",
            "query /dev/i2c-0 10",
            "release /dev/i2c-0",
            "open /dev/i2c-2",
            "query /dev/i2c-2 10",
            "release /dev/i2c-2",
        ]
    );
    let mut open = host.open.clone();
    open.sort();
    assert_eq!(open, vec!["/dev/i2c-1", "/dev/i2c-3"]);
}

#[test]
fn buses_are_exclusive_whatever_answers() {
    for mask in 0..64u32 {
        let paths: Vec<String> = (0..6).map(|i| format!("/dev/i2c-{}", i)).collect();
        let mut host = Host::default();
        host.nodes = Some(paths.clone());
        for (i, path) in paths.iter().enumerate() {
            if mask & (1 << i) != 0 {
                host.displays.insert(path.clone(), Display::plain());
            }
        }
        let connectors = ["a", "b", "c", "d"];
        let discovery = host.discover(&connectors);
        let answering = mask.count_ones() as usize;
        match discovery.discover_monitors() {
            Ok(monitors) => {
                assert_eq!(monitors.len(), answering.min(connectors.len()));
                for i in 0..monitors.len() {
                    assert_eq!(monitors[i].connector, connectors[i]);
                    for j in 0..i {
                        assert_ne!(monitors[i].bus, monitors[j].bus);
                    }
                }
            }
            Err(DdcError::NoMonitors) => assert_eq!(answering, 0),
            Err(other) => panic!("unexpected error: {:?}", other),
        }
    }
}

#[test]
fn duplicate_paths_in_the_listing_are_claimed_once() {
    let mut host = Host::default();
    host.nodes = nodes(&["/dev/i2c-7", "/dev/i2c-7"]);
    host.displays.insert("/dev/i2c-7".to_string(), Display::plain());
    let discovery = host.discover(&["a", "b"]);
    let monitors = discovery.discover_monitors().unwrap();
    assert_eq!(monitors.len(), 1);
    assert_eq!(monitors[0].connector, "a");
    assert_eq!(monitors[0].bus, "/dev/i2c-7");
}

#[test]
fn placeholders_become_positions() {
    let mut host = Host::default();
    host.blobs.insert("b".to_string(), named_blob(b"Named"));
    host.blobs.insert("c".to_string(), vec![0u8; 64]);
    host.blobs.insert("d".to_string(), named_blob(b""));
    let mut wrong = named_blob(b"Hidden");
    wrong[0] = 0x55;
    host.blobs.insert("e".to_string(), wrong);
    let paths: Vec<String> = (0..5).map(|i| format!("/dev/i2c-{}", i)).collect();
    host.nodes = Some(paths.clone());
    for path in &paths {
        host.displays.insert(path.clone(), Display::plain());
    }
    let discovery = host.discover(&["a", "b", "c", "d", "e"]);
    let monitors = discovery.discover_monitors().unwrap();
    let names: Vec<&str> = monitors.iter().map(|m| m.name.as_str()).collect();
    assert_eq!(names, vec!["Monitor 1", "Named", "Monitor 3", "ACM 1234", "Monitor 5"]);
}

#[test]
fn positions_count_bound_monitors_only() {
    let mut host = Host::default();
    host.nodes = nodes(&["/dev/i2c-0"]);
    host.displays.insert("/dev/i2c-0".to_string(), Display::plain());
    // the first output binds the only display; the second stays without
    let discovery = host.discover(&["a", "b"]);
    let monitors = discovery.discover_monitors().unwrap();
    assert_eq!(monitors.len(), 1);
    assert_eq!(monitors[0].name, "Monitor 1");
    assert_eq!(monitors[0].connector, "a");

    // the first output finds no display at first
    let mut host = Host::default();
    host.nodes = nodes(&[]);
    let mut discovery = Discovery::new(vec!["a".to_string(), "b".to_string()]);
    let action = discovery.action();
    discovery.step(host.perform(action).unwrap());
    let action = discovery.action();
    discovery.step(host.perform(action).unwrap());
    host.nodes = nodes(&["/dev/i2c-0"]);
    host.displays.insert("/dev/i2c-0".to_string(), Display::plain());
    loop {
        let action = discovery.action();
        match host.perform(action) {
            Some(event) => discovery.step(event),
            None => break,
        }
    }
    let monitors = discovery.discover_monitors().unwrap();
    assert_eq!(monitors.len(), 1);
    assert_eq!(monitors[0].name, "Monitor 1");
    assert_eq!(monitors[0].connector, "b");
}

#[test]
fn a_named_placeholder_is_renamed_too() {
    let mut host = Host::default();
    host.blobs.insert("a".to_string(), named_blob(b"Unknown Monit"));
    host.nodes = nodes(&["/dev/i2c-0"]);
    host.displays.insert("/dev/i2c-0".to_string(), Display::plain());
    let discovery = host.discover(&["a"]);
    let monitors = discovery.discover_monitors().unwrap();
    assert_eq!(monitors[0].name, "Unknown Monit");
}

#[test]
fn many_monitors_get_decimal_positions() {
    let mut host = Host::default();
    let paths: Vec<String> = (0..12).map(|i| format!("/dev/i2c-{}", i)).collect();
    host.nodes = Some(paths.clone());
    for path in &paths {
        host.displays.insert(path.clone(), Display::plain());
    }
    let connectors: Vec<String> = (0..12).map(|i| format!("out{}", i)).collect();
    let refs: Vec<&str> = connectors.iter().map(|c| c.as_str()).collect();
    let monitors = host.discover(&refs).discover_monitors().unwrap();
    assert_eq!(monitors.len(), 12);
    assert_eq!(monitors[0].name, "Monitor 1");
    assert_eq!(monitors[8].name, "Monitor 9");
    assert_eq!(monitors[9].name, "Monitor 10");
    assert_eq!(monitors[11].name, "Monitor 12");
    assert_eq!(monitors[11].bus, "/dev/i2c-11");
}

#[test]
fn events_out_of_turn_change_nothing() {
    let mut discovery = Discovery::new(vec!["a".to_string()]);
    assert_eq!(discovery.phase(), Phase::Edid);
    discovery.step(Event::Reply(Some(VcpReply::new(1, 100))));
    discovery.step(Event::Opened(true));
    discovery.step(Event::Released);
    discovery.step(Event::Buses(Ok(vec!["/dev/i2c-0".to_string()])));
    assert_eq!(discovery.phase(), Phase::Edid);
    assert!(matches!(discovery.action(), Action::ReadEdid { connector } if connector == "a"));
    discovery.step(Event::Edid(None));
    assert_eq!(discovery.phase(), Phase::Buses);
    discovery.step(Event::Edid(None));
    discovery.step(Event::Reply(None));
    assert_eq!(discovery.phase(), Phase::Buses);
    assert!(matches!(discovery.action(), Action::ListBuses));
    discovery.step(Event::Buses(Ok(vec!["/dev/i2c-0".to_string()])));
    assert_eq!(discovery.phase(), Phase::Open);
    discovery.step(Event::Reply(Some(VcpReply::new(1, 100))));
    assert_eq!(discovery.phase(), Phase::Open);
    assert!(matches!(discovery.action(), Action::Open { path } if path == "/dev/i2c-0"));
    discovery.step(Event::Opened(true));
    assert_eq!(discovery.phase(), Phase::Handshake);
    discovery.step(Event::Opened(true));
    discovery.step(Event::Released);
    assert_eq!(discovery.phase(), Phase::Handshake);
    assert!(matches!(
        discovery.action(),
        Action::Query { path, code: 0x10 } if path == "/dev/i2c-0"
    ));
    discovery.step(Event::Reply(None));
    assert_eq!(discovery.phase(), Phase::Release);
    discovery.step(Event::Reply(Some(VcpReply::new(1, 100))));
    assert_eq!(discovery.phase(), Phase::Release);
    assert!(matches!(discovery.action(), Action::Release { path } if path == "/dev/i2c-0"));
    discovery.step(Event::Released);
    assert_eq!(discovery.phase(), Phase::Finished);
    discovery.step(Event::Edid(None));
    discovery.step(Event::Reply(Some(VcpReply::new(1, 100))));
    assert!(discovery.is_finished());
    assert!(matches!(discovery.discover_monitors(), Err(DdcError::NoMonitors)));
}

#[test]
fn phases_of_a_probe() {
    let mut discovery = Discovery::new(vec!["a".to_string()]);
    discovery.step(Event::Edid(None));
    discovery.step(Event::Buses(Ok(vec!["/dev/i2c-9".to_string()])));
    discovery.step(Event::Opened(true));
    discovery.step(Event::Reply(Some(VcpReply::new(5, 80))));
    assert_eq!(discovery.phase(), Phase::Contrast);
    assert!(matches!(discovery.action(), Action::Query { code: 0x12, .. }));
    discovery.step(Event::Reply(None));
    assert_eq!(discovery.phase(), Phase::Volume);
    assert!(matches!(discovery.action(), Action::Query { code: 0x62, .. }));
    discovery.step(Event::Reply(Some(VcpReply::new(3, 30))));
    assert_eq!(discovery.phase(), Phase::InputSource);
    assert!(matches!(discovery.action(), Action::Query { code: 0x60, .. }));
    discovery.step(Event::Reply(Some(VcpReply::new(27, 0))));
    assert_eq!(discovery.phase(), Phase::PowerMode);
    assert!(matches!(
        discovery.action(),
        Action::Query { path, code: 0xd6 } if path == "/dev/i2c-9"
    ));
    discovery.step(Event::Reply(Some(VcpReply::new(6, 0))));
    assert!(discovery.is_finished());
    let monitors = discovery.discover_monitors().unwrap();
    assert_eq!(monitors.len(), 1);
    let m = &monitors[0];
    assert_eq!(m.name, "Monitor 1");
    assert_eq!((m.max_brightness, m.max_contrast, m.max_volume), (80, 0, 30));
    assert!(m.supports_input_source);
    assert!(!m.supports_power_mode);
}
