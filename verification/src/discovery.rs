//! Discovery: binding each connected output to a bus of its own.
//!
//! Discovery reads blobs, lists buses and talks to displays, and decides in
//! between. The deciding is here, as a machine: `Discovery::action` says
//! what the driver has to do next, and `Discovery::step` takes what came of
//! it. The outputs are taken in their order. For each the buses are tried in
//! the order of their listing, those that are already claimed left out, and
//! the first one that answers the request for brightness is claimed. An
//! output stays without a monitor where the buses cannot be listed or none
//! of them answers. Discovery fails only where no monitor was bound at all.

use vstd::prelude::*;
use vstd::string::StringExecFns;
use crate::ddc_manager::{all_named, distinct_buses, monitor_views, Monitor, MonitorView};
use crate::edid::{bytes_read, edid_name, parse_edid_name, read_edid, usable_edid};
use crate::error::{DdcError, DdcErrorView};
use crate::probe::{capabilities, test_ddc_connection, Capabilities, ProbeReplies};
use crate::text::{decimal, push_decimal, same_text, starts_with, texts};
use crate::vcp::{
    VcpReply, VCP_BRIGHTNESS, VCP_CONTRAST, VCP_INPUT_SOURCE, VCP_POWER_MODE, VCP_VOLUME,
};

verus! {

/// What discovery is waiting for.
#[derive(Debug, Clone, Copy, PartialEq, Eq, Structural)]
pub enum Phase {
    /// The blob of the current output.
    Edid,
    /// The listing of the buses.
    Buses,
    /// The opening of the candidate bus.
    Open,
    /// The reply to the request for brightness on the candidate bus.
    Handshake,
    /// The closing of the candidate bus, which did not answer.
    Release,
    /// The reply to the request for contrast on the claimed bus.
    Contrast,
    /// The reply to the request for volume on the claimed bus.
    Volume,
    /// The reply to the request for the input source on the claimed bus.
    InputSource,
    /// The reply to the request for the power mode on the claimed bus.
    PowerMode,
    /// Nothing: discovery is over.
    Finished,
}

/// What the driver has to do next.
#[derive(Debug)]
pub enum Action {
    /// Read the identification blob of this output.
    ReadEdid { connector: String },
    /// List the paths of the device nodes.
    ListBuses,
    /// Open the bus at this path and keep it open under the path.
    Open { path: String },
    /// Request the feature with this code on the open bus at this path.
    Query { path: String, code: u8 },
    /// Close the bus at this path: it is no display's.
    Release { path: String },
    /// Nothing more: take the result.
    Finished,
}

/// An `Action` with its texts as sequences of characters.
pub enum ActionView {
    ReadEdid { connector: Seq<char> },
    ListBuses,
    Open { path: Seq<char> },
    Query { path: Seq<char>, code: u8 },
    Release { path: Seq<char> },
    Finished,
}

impl View for Action {
    type V = ActionView;

    open spec fn view(&self) -> ActionView {
        match self {
            Action::ReadEdid { connector } => ActionView::ReadEdid { connector: connector@ },
            Action::ListBuses => ActionView::ListBuses,
            Action::Open { path } => ActionView::Open { path: path@ },
            Action::Query { path, code } => ActionView::Query { path: path@, code: *code },
            Action::Release { path } => ActionView::Release { path: path@ },
            Action::Finished => ActionView::Finished,
        }
    }
}

/// What came of an action.
#[derive(Debug)]
pub enum Event {
    /// The blob that was read, `None` where there is none to read.
    Edid(Option<Vec<u8>>),
    /// The paths of the device nodes in the order of the listing, or why
    /// they could not be listed. Without a listing the output stays without
    /// a monitor.
    Buses(Result<Vec<String>, String>),
    /// Whether the bus could be opened.
    Opened(bool),
    /// The reply to a request, `None` where the request failed.
    Reply(Option<VcpReply>),
    /// The bus was closed.
    Released,
}

/// An `Event` with its data as sequences.
pub enum EventView {
    Edid(Option<Seq<u8>>),
    Buses(Result<Seq<Seq<char>>, Seq<char>>),
    Opened(bool),
    Reply(Option<VcpReply>),
    Released,
}

impl View for Event {
    type V = EventView;

    open spec fn view(&self) -> EventView {
        match self {
            Event::Edid(blob) => EventView::Edid(bytes_read(*blob)),
            Event::Buses(Ok(paths)) => EventView::Buses(Ok(texts(paths@))),
            Event::Buses(Err(cause)) => EventView::Buses(Err(cause@)),
            Event::Opened(opened) => EventView::Opened(*opened),
            Event::Reply(reply) => EventView::Reply(*reply),
            Event::Released => EventView::Released,
        }
    }
}

/// The state of a discovery.
pub struct DiscoveryView {
    /// The connected outputs, in the order in which they are taken.
    pub connectors: Seq<Seq<char>>,
    /// Position of the output that is being bound.
    pub current: int,
    /// The name resolved for the current output.
    pub name: Seq<char>,
    /// The device nodes as listed for the current output.
    pub buses: Seq<Seq<char>>,
    /// Position of the bus that is being tried.
    pub candidate: int,
    /// The replies that the bus being tried gave so far.
    pub replies: ProbeReplies,
    /// The monitors bound so far.
    pub monitors: Seq<MonitorView>,
    /// What discovery is waiting for.
    pub phase: Phase,
}

/// The name of a monitor whose blob gave none, until discovery is over.
pub open spec fn placeholder() -> Seq<char> {
    "Unknown Monitor"@
}

/// How the path of a bus begins.
pub open spec fn bus_prefix() -> Seq<char> {
    "/dev/i2c-"@
}

/// The name that a blob gives an output: the parsed one, or the
/// placeholder.
pub open spec fn resolved_name(blob: Option<Seq<u8>>) -> Seq<char> {
    match usable_edid(blob) {
        Some(data) => match edid_name(data) {
            Some(name) => name,
            None => placeholder(),
        },
        None => placeholder(),
    }
}

/// A monitor is bound to the bus at `path`.
pub open spec fn is_claimed(monitors: Seq<MonitorView>, path: Seq<char>) -> bool {
    exists|i: int| 0 <= i < monitors.len() && (#[trigger] monitors[i]).bus == path
}

/// The node at `path` is a bus that no monitor is bound to.
pub open spec fn is_candidate(monitors: Seq<MonitorView>, path: Seq<char>) -> bool {
    bus_prefix().is_prefix_of(path) && !is_claimed(monitors, path)
}

/// Position of the first candidate at or after `from`; the length of the
/// listing where there is none.
pub open spec fn next_candidate(monitors: Seq<MonitorView>, buses: Seq<Seq<char>>, from: int) -> int
    decreases buses.len() - from,
{
    if from < 0 || from >= buses.len() {
        buses.len() as int
    } else if is_candidate(monitors, buses[from]) {
        from
    } else {
        next_candidate(monitors, buses, from + 1)
    }
}

/// No replies yet.
pub open spec fn no_replies() -> ProbeReplies {
    ProbeReplies {
        brightness: None,
        contrast: None,
        volume: None,
        input_source: None,
        power_mode: None,
    }
}

/// The state before anything was done: the first output is up, or
/// discovery is over at once where there is no output.
pub open spec fn initial(connectors: Seq<Seq<char>>) -> DiscoveryView {
    DiscoveryView {
        connectors,
        current: 0,
        name: Seq::empty(),
        buses: Seq::empty(),
        candidate: 0,
        replies: no_replies(),
        monitors: Seq::empty(),
        phase: if connectors.len() == 0 {
            Phase::Finished
        } else {
            Phase::Edid
        },
    }
}

/// The state once the current output is done with: the next output is up,
/// or discovery is over.
pub open spec fn next_connector(s: DiscoveryView) -> DiscoveryView {
    DiscoveryView {
        current: s.current + 1,
        phase: if s.current + 1 < s.connectors.len() {
            Phase::Edid
        } else {
            Phase::Finished
        },
        ..s
    }
}

/// The state once the buses before `from` are done with: the first
/// candidate from there on is to be opened, or the output stays without a
/// monitor.
pub open spec fn scan(s: DiscoveryView, from: int) -> DiscoveryView {
    let found = next_candidate(s.monitors, s.buses, from);
    if found < s.buses.len() {
        DiscoveryView { candidate: found, phase: Phase::Open, ..s }
    } else {
        next_connector(s)
    }
}

/// The monitor that the current output and the candidate bus make.
pub open spec fn bound_monitor(s: DiscoveryView, found: Capabilities) -> MonitorView {
    MonitorView {
        name: s.name,
        connector: s.connectors[s.current],
        bus: s.buses[s.candidate],
        min_brightness: found.min_brightness,
        max_brightness: found.max_brightness,
        min_contrast: found.min_contrast,
        max_contrast: found.max_contrast,
        min_volume: found.min_volume,
        max_volume: found.max_volume,
        supports_input_source: found.supports_input_source,
        supports_power_mode: found.supports_power_mode,
    }
}

/// The state once the last reply of a probe is in: the monitor is bound and
/// the next output is up.
pub open spec fn bind(s: DiscoveryView, replies: ProbeReplies) -> DiscoveryView {
    match capabilities(replies) {
        Some(found) => next_connector(
            DiscoveryView { monitors: s.monitors.push(bound_monitor(s, found)), replies, ..s },
        ),
        None => s,
    }
}

/// The state after an event. An event that the phase does not wait for
/// changes nothing.
pub open spec fn step(s: DiscoveryView, event: EventView) -> DiscoveryView {
    match s.phase {
        Phase::Edid => match event {
            EventView::Edid(blob) => DiscoveryView {
                name: resolved_name(blob),
                phase: Phase::Buses,
                ..s
            },
            _ => s,
        },
        Phase::Buses => match event {
            EventView::Buses(Ok(paths)) => scan(DiscoveryView { buses: paths, ..s }, 0),
            EventView::Buses(Err(_)) => next_connector(s),
            _ => s,
        },
        Phase::Open => match event {
            EventView::Opened(true) => DiscoveryView { phase: Phase::Handshake, ..s },
            EventView::Opened(false) => scan(s, s.candidate + 1),
            _ => s,
        },
        Phase::Handshake => match event {
            EventView::Reply(Some(v)) => DiscoveryView {
                replies: ProbeReplies { brightness: Some(v), ..no_replies() },
                phase: Phase::Contrast,
                ..s
            },
            EventView::Reply(None) => DiscoveryView { phase: Phase::Release, ..s },
            _ => s,
        },
        Phase::Release => match event {
            EventView::Released => scan(s, s.candidate + 1),
            _ => s,
        },
        Phase::Contrast => match event {
            EventView::Reply(reply) => DiscoveryView {
                replies: ProbeReplies { contrast: reply, ..s.replies },
                phase: Phase::Volume,
                ..s
            },
            _ => s,
        },
        Phase::Volume => match event {
            EventView::Reply(reply) => DiscoveryView {
                replies: ProbeReplies { volume: reply, ..s.replies },
                phase: Phase::InputSource,
                ..s
            },
            _ => s,
        },
        Phase::InputSource => match event {
            EventView::Reply(reply) => DiscoveryView {
                replies: ProbeReplies { input_source: reply, ..s.replies },
                phase: Phase::PowerMode,
                ..s
            },
            _ => s,
        },
        Phase::PowerMode => match event {
            EventView::Reply(reply) => bind(s, ProbeReplies { power_mode: reply, ..s.replies }),
            _ => s,
        },
        Phase::Finished => s,
    }
}

/// What the driver has to do in a state.
pub open spec fn action(s: DiscoveryView) -> ActionView {
    match s.phase {
        Phase::Edid => ActionView::ReadEdid { connector: s.connectors[s.current] },
        Phase::Buses => ActionView::ListBuses,
        Phase::Open => ActionView::Open { path: s.buses[s.candidate] },
        Phase::Handshake => ActionView::Query { path: s.buses[s.candidate], code: 0x10 },
        Phase::Release => ActionView::Release { path: s.buses[s.candidate] },
        Phase::Contrast => ActionView::Query { path: s.buses[s.candidate], code: 0x12 },
        Phase::Volume => ActionView::Query { path: s.buses[s.candidate], code: 0x62 },
        Phase::InputSource => ActionView::Query { path: s.buses[s.candidate], code: 0x60 },
        Phase::PowerMode => ActionView::Query { path: s.buses[s.candidate], code: 0xd6 },
        Phase::Finished => ActionView::Finished,
    }
}

/// The state after a run of events, the first event first.
pub open spec fn run(s: DiscoveryView, events: Seq<EventView>) -> DiscoveryView
    decreases events.len(),
{
    if events.len() == 0 {
        s
    } else {
        step(run(s, events.drop_last()), events.last())
    }
}

/// The name of the monitor at `position` once discovery is over: a
/// placeholder becomes `Monitor` and the position, counted from 1.
pub open spec fn final_name(name: Seq<char>, position: int) -> Seq<char> {
    if name == placeholder() {
        "Monitor "@ + decimal((position + 1) as nat)
    } else {
        name
    }
}

/// The monitors with their final names.
pub open spec fn renamed(monitors: Seq<MonitorView>) -> Seq<MonitorView> {
    Seq::new(
        monitors.len(),
        |i: int| MonitorView { name: final_name(monitors[i].name, i), ..monitors[i] },
    )
}

/// What a discovery comes to in a state: the monitors bound, with their
/// final names, and `NoMonitors` where none was bound.
pub open spec fn result(s: DiscoveryView) -> Result<Seq<MonitorView>, DdcErrorView> {
    if s.monitors.len() == 0 {
        Err(DdcErrorView::NoMonitors)
    } else {
        Ok(renamed(s.monitors))
    }
}

/// A bus is being tried or was just claimed.
pub open spec fn on_a_bus(phase: Phase) -> bool {
    phase != Phase::Edid && phase != Phase::Buses && phase != Phase::Finished
}

/// The bus being tried has answered the request for brightness.
pub open spec fn past_handshake(phase: Phase) -> bool {
    phase == Phase::Contrast || phase == Phase::Volume || phase == Phase::InputSource || phase
        == Phase::PowerMode
}

/// Every monitor is bound to a node that is a bus, and hangs on one of the
/// first `done` outputs.
pub open spec fn bound_to_outputs(
    monitors: Seq<MonitorView>,
    connectors: Seq<Seq<char>>,
    done: int,
) -> bool {
    forall|i: int|
        0 <= i < monitors.len() ==> {
            &&& bus_prefix().is_prefix_of((#[trigger] monitors[i]).bus)
            &&& exists|k: int|
                0 <= k < done && k < connectors.len() && #[trigger] connectors[k]
                    == monitors[i].connector
        }
}

/// What holds of every state that a discovery reaches.
pub open spec fn inv(s: DiscoveryView) -> bool {
    &&& 0 <= s.current <= s.connectors.len()
    &&& s.phase != Phase::Finished ==> s.current < s.connectors.len()
    &&& on_a_bus(s.phase) ==> 0 <= s.candidate < s.buses.len() && is_candidate(
        s.monitors,
        s.buses[s.candidate],
    )
    &&& on_a_bus(s.phase) || s.phase == Phase::Buses ==> s.name.len() > 0
    &&& past_handshake(s.phase) ==> s.replies.brightness is Some
    &&& distinct_buses(s.monitors)
    &&& all_named(s.monitors)
    &&& s.monitors.len() <= s.current
    &&& bound_to_outputs(s.monitors, s.connectors, s.current)
}

/// The first candidate lies at `found` when no node from `from` up to there
/// is one and the listing ends there or holds one there.
pub proof fn lemma_next_candidate(
    monitors: Seq<MonitorView>,
    buses: Seq<Seq<char>>,
    from: int,
    found: int,
)
    requires
        0 <= from <= found <= buses.len(),
        forall|k: int| from <= k < found ==> !is_candidate(monitors, #[trigger] buses[k]),
        found == buses.len() || is_candidate(monitors, buses[found]),
    ensures
        next_candidate(monitors, buses, from) == found,
    decreases found - from,
{
    if from < found {
        lemma_next_candidate(monitors, buses, from + 1, found);
    }
}

/// The first candidate from `from` on lies in the listing from there on and
/// is a candidate, or there is none.
pub proof fn lemma_next_candidate_found(
    monitors: Seq<MonitorView>,
    buses: Seq<Seq<char>>,
    from: int,
)
    requires
        0 <= from,
    ensures
        ({
            let found = next_candidate(monitors, buses, from);
            &&& found <= buses.len()
            &&& found < buses.len() ==> from <= found && is_candidate(monitors, buses[found])
        }),
    decreases buses.len() - from,
{
    if from < buses.len() && !is_candidate(monitors, buses[from]) {
        lemma_next_candidate_found(monitors, buses, from + 1);
    }
}

/// Every name that a blob gives an output holds at least one character.
pub proof fn lemma_resolved_name_not_empty(blob: Option<Seq<u8>>)
    ensures
        resolved_name(blob).len() > 0,
{
    reveal_strlit("Unknown Monitor");
}

/// A step keeps what holds of every state.
pub proof fn lemma_step_inv(s: DiscoveryView, event: EventView)
    requires
        inv(s),
    ensures
        inv(step(s, event)),
{
    let t = step(s, event);
    match s.phase {
        Phase::Edid => {
            if let EventView::Edid(blob) = event {
                lemma_resolved_name_not_empty(blob);
            }
        },
        Phase::Buses => {
            if let EventView::Buses(Ok(paths)) = event {
                lemma_next_candidate_found(s.monitors, paths, 0);
            }
        },
        Phase::Open => {
            lemma_next_candidate_found(s.monitors, s.buses, s.candidate + 1);
        },
        Phase::Release => {
            lemma_next_candidate_found(s.monitors, s.buses, s.candidate + 1);
        },
        Phase::PowerMode => {
            if let EventView::Reply(reply) = event {
                let replies = ProbeReplies { power_mode: reply, ..s.replies };
                let found = capabilities(replies)->0;
                let m = bound_monitor(s, found);
                let monitors = s.monitors.push(m);
                assert forall|i: int, j: int| 0 <= i < j < monitors.len() implies (
                #[trigger] monitors[i]).bus != (#[trigger] monitors[j]).bus by {
                    if j == s.monitors.len() {
                        assert(s.monitors[i].bus != m.bus);
                    } else {
                        assert(s.monitors[i].bus != s.monitors[j].bus);
                    }
                }
                assert forall|i: int| 0 <= i < monitors.len() implies (
                #[trigger] monitors[i]).name.len() > 0 by {
                    if i < s.monitors.len() {
                        assert(s.monitors[i].name.len() > 0);
                    }
                }
                assert forall|i: int| 0 <= i < monitors.len() implies {
                    &&& bus_prefix().is_prefix_of((#[trigger] monitors[i]).bus)
                    &&& exists|k: int|
                        0 <= k < s.current + 1 && k < s.connectors.len()
                            && #[trigger] s.connectors[k] == monitors[i].connector
                } by {
                    if i < s.monitors.len() {
                        assert(bus_prefix().is_prefix_of(s.monitors[i].bus));
                        let k = choose|k: int|
                            0 <= k < s.current && k < s.connectors.len()
                                && #[trigger] s.connectors[k] == s.monitors[i].connector;
                        assert(s.connectors[k] == monitors[i].connector);
                    } else {
                        assert(s.connectors[s.current] == monitors[i].connector);
                    }
                }
            }
        },
        _ => {},
    }
    lemma_bound_later(s.monitors, s.connectors, s.current, s.current + 1);
}

/// What hangs on one of the first outputs hangs on one of some more.
pub proof fn lemma_bound_later(
    monitors: Seq<MonitorView>,
    connectors: Seq<Seq<char>>,
    done: int,
    later: int,
)
    requires
        bound_to_outputs(monitors, connectors, done),
        done <= later,
    ensures
        bound_to_outputs(monitors, connectors, later),
{
    assert forall|i: int| 0 <= i < monitors.len() implies {
        &&& bus_prefix().is_prefix_of((#[trigger] monitors[i]).bus)
        &&& exists|k: int|
            0 <= k < later && k < connectors.len() && #[trigger] connectors[k]
                == monitors[i].connector
    } by {
        let k = choose|k: int|
            0 <= k < done && k < connectors.len() && #[trigger] connectors[k]
                == monitors[i].connector;
        assert(connectors[k] == monitors[i].connector);
    }
}

/// A run of events keeps what holds of every state.
pub proof fn lemma_run_inv(s: DiscoveryView, events: Seq<EventView>)
    requires
        inv(s),
    ensures
        inv(run(s, events)),
    decreases events.len(),
{
    if events.len() > 0 {
        lemma_run_inv(s, events.drop_last());
        lemma_step_inv(run(s, events.drop_last()), events.last());
    }
}

/// Giving the monitors their final names changes no bus and no output.
pub proof fn lemma_renamed_bound(
    monitors: Seq<MonitorView>,
    connectors: Seq<Seq<char>>,
    done: int,
)
    requires
        bound_to_outputs(monitors, connectors, done),
    ensures
        bound_to_outputs(renamed(monitors), connectors, done),
{
    let after = renamed(monitors);
    assert forall|i: int| 0 <= i < after.len() implies {
        &&& bus_prefix().is_prefix_of((#[trigger] after[i]).bus)
        &&& exists|k: int|
            0 <= k < done && k < connectors.len() && #[trigger] connectors[k]
                == after[i].connector
    } by {
        assert(bus_prefix().is_prefix_of(monitors[i].bus));
        let k = choose|k: int|
            0 <= k < done && k < connectors.len() && #[trigger] connectors[k]
                == monitors[i].connector;
        assert(connectors[k] == after[i].connector);
    }
}

/// Giving the monitors their final names changes no bus and leaves no name
/// empty.
pub proof fn lemma_renamed(monitors: Seq<MonitorView>)
    requires
        distinct_buses(monitors),
        all_named(monitors),
    ensures
        renamed(monitors).len() == monitors.len(),
        distinct_buses(renamed(monitors)),
        all_named(renamed(monitors)),
{
    let after = renamed(monitors);
    assert forall|i: int, j: int| 0 <= i < j < after.len() implies (#[trigger] after[i]).bus != (
    #[trigger] after[j]).bus by {
        assert(monitors[i].bus != monitors[j].bus);
    }
    assert forall|i: int| 0 <= i < after.len() implies (#[trigger] after[i]).name.len() > 0 by {
        assert(monitors[i].name.len() > 0);
        reveal_strlit("Monitor ");
    }
}

/// Whatever the outputs are and whatever comes of the driver's actions, no
/// two monitors are ever bound to the same bus, during discovery and in its
/// result, and every monitor of the result has a name.
pub proof fn lemma_buses_exclusive(connectors: Seq<Seq<char>>, events: Seq<EventView>)
    ensures
        distinct_buses(run(initial(connectors), events).monitors),
        result(run(initial(connectors), events)) matches Ok(monitors) ==> distinct_buses(monitors)
            && all_named(monitors) && monitors.len() > 0,
{
    lemma_run_inv(initial(connectors), events);
    lemma_renamed(run(initial(connectors), events).monitors);
}

/// Whatever comes of the driver's actions, every monitor of the result is
/// bound to a bus and hangs on one of the outputs, and there are no more
/// monitors than outputs.
pub proof fn lemma_monitors_of_outputs(connectors: Seq<Seq<char>>, events: Seq<EventView>)
    ensures
        result(run(initial(connectors), events)) matches Ok(monitors) ==> monitors.len()
            <= connectors.len() && bound_to_outputs(
            monitors,
            connectors,
            connectors.len() as int,
        ),
{
    let s = run(initial(connectors), events);
    lemma_run_inv(initial(connectors), events);
    lemma_run_connectors(initial(connectors), events);
    lemma_bound_later(s.monitors, s.connectors, s.current, s.connectors.len() as int);
    lemma_renamed_bound(s.monitors, s.connectors, s.connectors.len() as int);
}

/// A run of events leaves the outputs as they are.
pub proof fn lemma_run_connectors(s: DiscoveryView, events: Seq<EventView>)
    ensures
        run(s, events).connectors == s.connectors,
    decreases events.len(),
{
    if events.len() > 0 {
        lemma_run_connectors(s, events.drop_last());
    }
}

/// Without a connected output discovery is over at once and fails with
/// `NoMonitors`, whatever the driver reports.
pub proof fn lemma_no_connectors(events: Seq<EventView>)
    ensures
        run(initial(Seq::empty()), events) == initial(Seq::empty()),
        action(initial(Seq::empty())) == ActionView::Finished,
        result(run(initial(Seq::empty()), events)) == Err::<Seq<MonitorView>, DdcErrorView>(
            DdcErrorView::NoMonitors,
        ),
    decreases events.len(),
{
    if events.len() > 0 {
        lemma_no_connectors(events.drop_last());
    }
}

/// The event is of the kind that the phase waits for.
pub open spec fn in_turn(phase: Phase, event: EventView) -> bool {
    match phase {
        Phase::Edid => event is Edid,
        Phase::Buses => event is Buses,
        Phase::Open => event is Opened,
        Phase::Release => event is Released,
        Phase::Finished => false,
        _ => event is Reply,
    }
}

/// How far a discovery has come: the output, the bus within the output's
/// listing, and the phase on that bus. A discovery that is over has come
/// farthest.
pub open spec fn stage(s: DiscoveryView) -> (int, int, int) {
    match s.phase {
        Phase::Finished => (s.connectors.len() as int + 1, 0, 0),
        Phase::Edid => (s.current, 0, 0),
        Phase::Buses => (s.current, 1, 0),
        Phase::Open => (s.current, 2 + s.candidate, 0),
        Phase::Handshake => (s.current, 2 + s.candidate, 1),
        Phase::Release => (s.current, 2 + s.candidate, 2),
        Phase::Contrast => (s.current, 2 + s.candidate, 2),
        Phase::Volume => (s.current, 2 + s.candidate, 3),
        Phase::InputSource => (s.current, 2 + s.candidate, 4),
        Phase::PowerMode => (s.current, 2 + s.candidate, 5),
    }
}

/// The first stage comes before the second.
pub open spec fn before(a: (int, int, int), b: (int, int, int)) -> bool {
    a.0 < b.0 || (a.0 == b.0 && (a.1 < b.1 || (a.1 == b.1 && a.2 < b.2)))
}

/// An event in turn moves a discovery ahead, and an event out of turn
/// changes nothing. No output is taken twice and no bus is tried twice for
/// one output, so a discovery whose listings are finite comes to an end.
pub proof fn lemma_step_ahead(s: DiscoveryView, event: EventView)
    requires
        inv(s),
    ensures
        in_turn(s.phase, event) ==> before(stage(s), stage(step(s, event))),
        !in_turn(s.phase, event) ==> step(s, event) == s,
{
    match s.phase {
        Phase::Buses => {
            if let EventView::Buses(Ok(paths)) = event {
                lemma_next_candidate_found(s.monitors, paths, 0);
            }
        },
        Phase::Open => {
            lemma_next_candidate_found(s.monitors, s.buses, s.candidate + 1);
        },
        Phase::Release => {
            lemma_next_candidate_found(s.monitors, s.buses, s.candidate + 1);
        },
        _ => {},
    }
}

/// The event is a reply to a request that did not fail.
pub open spec fn is_answer(event: EventView) -> bool {
    event matches EventView::Reply(Some(_))
}

/// Where no bus ever answers the request for brightness, no monitor is
/// bound and discovery fails with `NoMonitors`, whatever else the driver
/// reports.
pub proof fn lemma_no_answer_no_monitors(connectors: Seq<Seq<char>>, events: Seq<EventView>)
    requires
        forall|i: int| 0 <= i < events.len() ==> !is_answer(#[trigger] events[i]),
    ensures
        run(initial(connectors), events).monitors.len() == 0,
        !past_handshake(run(initial(connectors), events).phase),
        result(run(initial(connectors), events)) == Err::<Seq<MonitorView>, DdcErrorView>(
            DdcErrorView::NoMonitors,
        ),
    decreases events.len(),
{
    if events.len() > 0 {
        let before = events.drop_last();
        assert forall|i: int| 0 <= i < before.len() implies !is_answer(#[trigger] before[i]) by {
            assert(before[i] == events[i]);
        }
        lemma_no_answer_no_monitors(connectors, before);
        assert(!is_answer(events[events.len() - 1]));
    }
}

/// A listing of the buses that failed leaves the output as a listing
/// without a node does: without a monitor. The monitors bound before stay.
pub proof fn lemma_listing_failure(s: DiscoveryView, cause: Seq<char>)
    requires
        s.phase == Phase::Buses,
    ensures
        step(s, EventView::Buses(Err(cause))) == next_connector(s),
        step(s, EventView::Buses(Err(cause))).monitors == s.monitors,
        step(s, EventView::Buses(Ok(Seq::empty()))) == next_connector(
            DiscoveryView { buses: Seq::empty(), ..s },
        ),
{
}

/// A discovery in progress.
#[derive(Debug)]
pub struct Discovery {
    connectors: Vec<String>,
    current: usize,
    name: String,
    buses: Vec<String>,
    candidate: usize,
    replies: ProbeReplies,
    monitors: Vec<Monitor>,
    phase: Phase,
}

/// Whether a monitor is bound to the bus at `path`.
fn claimed(monitors: &Vec<Monitor>, path: &str) -> (r: bool)
    ensures
        r == is_claimed(monitor_views(monitors@), path@),
{
    let mut i: usize = 0;
    while i < monitors.len()
        invariant
            i <= monitors@.len(),
            forall|k: int| 0 <= k < i ==> (#[trigger] monitor_views(monitors@)[k]).bus != path@,
        decreases monitors@.len() - i,
    {
        if same_text(monitors[i].bus.as_str(), path) {
            assert(monitor_views(monitors@)[i as int].bus == path@);
            return true;
        }
        i = i + 1;
    }
    false
}

/// Position of the first candidate at or after `from`, or the length of the
/// listing.
fn find_candidate(monitors: &Vec<Monitor>, buses: &Vec<String>, from: usize) -> (found: usize)
    requires
        from <= buses@.len(),
    ensures
        found == next_candidate(monitor_views(monitors@), texts(buses@), from as int),
        from <= found <= buses@.len(),
{
    let mut i: usize = from;
    while i < buses.len()
        invariant
            from <= i <= buses@.len(),
            forall|k: int|
                from <= k < i ==> !is_candidate(
                    monitor_views(monitors@),
                    #[trigger] texts(buses@)[k],
                ),
        decreases buses@.len() - i,
    {
        let path = buses[i].as_str();
        assert(texts(buses@)[i as int] == path@);
        if starts_with(path, "/dev/i2c-") && !claimed(monitors, path) {
            proof {
                lemma_next_candidate(
                    monitor_views(monitors@),
                    texts(buses@),
                    from as int,
                    i as int,
                );
            }
            return i;
        }
        i = i + 1;
    }
    proof {
        lemma_next_candidate(monitor_views(monitors@), texts(buses@), from as int, i as int);
    }
    i
}

/// The name that a blob gives an output.
fn resolve_name(blob: Option<Vec<u8>>) -> (name: String)
    ensures
        name@ == resolved_name(bytes_read(blob)),
{
    match read_edid(blob) {
        Some(data) => match parse_edid_name(data.as_slice()) {
            Some(name) => name,
            None => String::from_str("Unknown Monitor"),
        },
        None => String::from_str("Unknown Monitor"),
    }
}

impl Discovery {
    /// The state of the discovery.
    pub closed spec fn view(&self) -> DiscoveryView {
        DiscoveryView {
            connectors: texts(self.connectors@),
            current: self.current as int,
            name: self.name@,
            buses: texts(self.buses@),
            candidate: self.candidate as int,
            replies: self.replies,
            monitors: monitor_views(self.monitors@),
            phase: self.phase,
        }
    }

    /// The discovery is in a state that a discovery reaches.
    pub closed spec fn wf(&self) -> bool {
        inv(self@)
    }

    /// A discovery in such a state has no two monitors on one bus and
    /// none without a name.
    pub proof fn lemma_wf(&self)
        requires
            self.wf(),
        ensures
            inv(self@),
            distinct_buses(self@.monitors),
            all_named(self@.monitors),
    {
    }

    /// Starts a discovery over the connected outputs, in their order.
    pub fn new(connectors: Vec<String>) -> (d: Discovery)
        ensures
            d.wf(),
            d@ == initial(texts(connectors@)),
    {
        let phase = if connectors.len() == 0 {
            Phase::Finished
        } else {
            Phase::Edid
        };
        let d = Discovery {
            connectors,
            current: 0,
            name: String::new(),
            buses: Vec::new(),
            candidate: 0,
            replies: ProbeReplies {
                brightness: None,
                contrast: None,
                volume: None,
                input_source: None,
                power_mode: None,
            },
            monitors: Vec::new(),
            phase,
        };
        assert(d@.buses =~= Seq::empty());
        assert(d@.monitors =~= Seq::empty());
        d
    }

    /// What discovery is waiting for.
    pub fn phase(&self) -> (phase: Phase)
        ensures
            phase == self@.phase,
    {
        self.phase
    }

    /// Whether discovery is over.
    pub fn is_finished(&self) -> (r: bool)
        ensures
            r == (self@.phase == Phase::Finished),
    {
        match self.phase {
            Phase::Finished => true,
            _ => false,
        }
    }

    /// What the driver has to do next.
    pub fn action(&self) -> (a: Action)
        requires
            self.wf(),
        ensures
            a@ == action(self@),
    {
        match self.phase {
            Phase::Edid => Action::ReadEdid { connector: self.connectors[self.current].clone() },
            Phase::Buses => Action::ListBuses,
            Phase::Open => Action::Open { path: self.buses[self.candidate].clone() },
            Phase::Handshake => Action::Query {
                path: self.buses[self.candidate].clone(),
                code: VCP_BRIGHTNESS,
            },
            Phase::Release => Action::Release { path: self.buses[self.candidate].clone() },
            Phase::Contrast => Action::Query {
                path: self.buses[self.candidate].clone(),
                code: VCP_CONTRAST,
            },
            Phase::Volume => Action::Query {
                path: self.buses[self.candidate].clone(),
                code: VCP_VOLUME,
            },
            Phase::InputSource => Action::Query {
                path: self.buses[self.candidate].clone(),
                code: VCP_INPUT_SOURCE,
            },
            Phase::PowerMode => Action::Query {
                path: self.buses[self.candidate].clone(),
                code: VCP_POWER_MODE,
            },
            Phase::Finished => Action::Finished,
        }
    }

    /// Goes on to the next output, or ends discovery after the last.
    fn advance(&mut self)
        requires
            old(self)@.current < old(self)@.connectors.len(),
        ensures
            final(self)@ == next_connector(old(self)@),
    {
        let count = self.connectors.len();
        self.current = self.current + 1;
        self.phase = if self.current < count {
            Phase::Edid
        } else {
            Phase::Finished
        };
    }

    /// Goes on to the first candidate after the present one, or to the next
    /// output where there is none.
    fn scan_on(&mut self)
        requires
            old(self)@.current < old(self)@.connectors.len(),
            old(self)@.candidate < old(self)@.buses.len(),
        ensures
            final(self)@ == scan(old(self)@, old(self)@.candidate + 1),
    {
        let listed = self.buses.len();
        let from = if self.candidate < listed {
            self.candidate + 1
        } else {
            listed
        };
        self.scan(from);
    }

    /// Goes on to the first candidate at or after `from`, or to the next
    /// output where there is none.
    fn scan(&mut self, from: usize)
        requires
            old(self)@.current < old(self)@.connectors.len(),
            from <= old(self)@.buses.len(),
        ensures
            final(self)@ == scan(old(self)@, from as int),
    {
        let found = find_candidate(&self.monitors, &self.buses, from);
        if found < self.buses.len() {
            self.candidate = found;
            self.phase = Phase::Open;
        } else {
            self.advance();
        }
    }

    /// Binds the current output to the candidate bus, with what the probe
    /// found, and goes on to the next output.
    fn bind(&mut self, replies: ProbeReplies)
        requires
            old(self)@.current < old(self)@.connectors.len(),
            old(self)@.candidate < old(self)@.buses.len(),
        ensures
            final(self)@ == bind(old(self)@, replies),
    {
        match test_ddc_connection(&replies) {
            Some(found) => {
                let monitor = Monitor {
                    name: self.name.clone(),
                    connector: self.connectors[self.current].clone(),
                    bus: self.buses[self.candidate].clone(),
                    min_brightness: found.min_brightness,
                    max_brightness: found.max_brightness,
                    min_contrast: found.min_contrast,
                    max_contrast: found.max_contrast,
                    min_volume: found.min_volume,
                    max_volume: found.max_volume,
                    supports_input_source: found.supports_input_source,
                    supports_power_mode: found.supports_power_mode,
                };
                assert(monitor@ == bound_monitor(old(self)@, found));
                self.monitors.push(monitor);
                assert(monitor_views(self.monitors@) =~= monitor_views(old(self).monitors@).push(
                    monitor@,
                ));
                self.replies = replies;
                self.advance();
            },
            None => {},
        }
    }

    /// Takes what came of the action that the discovery asked for.
    ///
    /// An event that the discovery is not waiting for changes nothing.
    pub fn step(&mut self, event: Event)
        requires
            old(self).wf(),
        ensures
            final(self).wf(),
            final(self)@ == step(old(self)@, event@),
    {
        proof {
            lemma_step_inv(self@, event@);
        }
        match self.phase {
            Phase::Edid => match event {
                Event::Edid(blob) => {
                    self.name = resolve_name(blob);
                    self.phase = Phase::Buses;
                },
                _ => {},
            },
            Phase::Buses => match event {
                Event::Buses(Ok(paths)) => {
                    self.buses = paths;
                    self.scan(0);
                },
                Event::Buses(Err(_)) => {
                    self.advance();
                },
                _ => {},
            },
            Phase::Open => match event {
                Event::Opened(true) => {
                    self.phase = Phase::Handshake;
                },
                Event::Opened(false) => {
                    self.scan_on();
                },
                _ => {},
            },
            Phase::Handshake => match event {
                Event::Reply(Some(v)) => {
                    self.replies = ProbeReplies {
                        brightness: Some(v),
                        contrast: None,
                        volume: None,
                        input_source: None,
                        power_mode: None,
                    };
                    self.phase = Phase::Contrast;
                },
                Event::Reply(None) => {
                    self.phase = Phase::Release;
                },
                _ => {},
            },
            Phase::Release => match event {
                Event::Released => {
                    self.scan_on();
                },
                _ => {},
            },
            Phase::Contrast => match event {
                Event::Reply(reply) => {
                    self.replies.contrast = reply;
                    self.phase = Phase::Volume;
                },
                _ => {},
            },
            Phase::Volume => match event {
                Event::Reply(reply) => {
                    self.replies.volume = reply;
                    self.phase = Phase::InputSource;
                },
                _ => {},
            },
            Phase::InputSource => match event {
                Event::Reply(reply) => {
                    self.replies.input_source = reply;
                    self.phase = Phase::PowerMode;
                },
                _ => {},
            },
            Phase::PowerMode => match event {
                Event::Reply(reply) => {
                    let mut replies = self.replies;
                    replies.power_mode = reply;
                    self.bind(replies);
                },
                _ => {},
            },
            Phase::Finished => {},
        }
    }

    /// What the discovery came to: the monitors bound, in the order of
    /// their outputs and with their final names, or the error.
    ///
    /// The only error is `NoMonitors`, where no monitor was bound: for want
    /// of outputs, of buses that can be listed and opened, or of a bus that
    /// answers. In the result no two monitors share a bus and every monitor
    /// has a name.
    pub fn discover_monitors(self) -> (r: Result<Vec<Monitor>, DdcError>)
        requires
            self.wf(),
        ensures
            match result(self@) {
                Ok(monitors) => r is Ok && monitor_views(r->Ok_0@) == monitors,
                Err(error) => r is Err && r->Err_0@ == error,
            },
            r matches Ok(monitors) ==> monitors@.len() > 0 && distinct_buses(
                monitor_views(monitors@),
            ) && all_named(monitor_views(monitors@)),
            r matches Ok(monitors) ==> monitors@.len() <= self@.connectors.len()
                && bound_to_outputs(
                monitor_views(monitors@),
                self@.connectors,
                self@.connectors.len() as int,
            ),
    {
        proof {
            lemma_renamed(self@.monitors);
            lemma_bound_later(
                self@.monitors,
                self@.connectors,
                self@.current,
                self@.connectors.len() as int,
            );
            lemma_renamed_bound(self@.monitors, self@.connectors, self@.connectors.len() as int);
        }
        let ghost before = self@.monitors;
        let Discovery { monitors, .. } = self;
        if monitors.len() == 0 {
            return Err(DdcError::NoMonitors);
        }
        let mut monitors = monitors;
        let mut i: usize = 0;
        while i < monitors.len()
            invariant
                i <= monitors@.len() == before.len(),
                forall|k: int|
                    0 <= k < i ==> #[trigger] monitor_views(monitors@)[k] == renamed(before)[k],
                forall|k: int|
                    i <= k < before.len() ==> #[trigger] monitor_views(monitors@)[k] == before[k],
            decreases monitors@.len() - i,
        {
            let ghost earlier = monitor_views(monitors@);
            if same_text(monitors[i].name.as_str(), "Unknown Monitor") {
                let mut name = String::from_str("Monitor ");
                push_decimal(&mut name, i + 1);
                monitors[i].name = name;
            }
            proof {
                let now = monitor_views(monitors@);
                assert(earlier[i as int] == before[i as int]);
                assert(now[i as int] == renamed(before)[i as int]);
                assert forall|k: int| 0 <= k < i implies #[trigger] now[k] == renamed(before)[k] by {
                    assert(earlier[k] == renamed(before)[k]);
                }
                assert forall|k: int| i + 1 <= k < before.len() implies #[trigger] now[k]
                    == before[k] by {
                    assert(earlier[k] == before[k]);
                }
            }
            i = i + 1;
        }
        assert(monitor_views(monitors@) =~= renamed(before));
        Ok(monitors)
    }
}

} // verus!
