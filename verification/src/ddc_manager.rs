//! The registry of claimed monitors and its controls.
//!
//! The registry holds what discovery found out about each monitor. It does
//! not hold the bus: for every control it says which exchange the driver has
//! to make on the monitor's bus, if any, and turns the reply into the answer.

use vstd::prelude::*;
use vstd::string::StringExecFns;
use crate::discovery::{bound_to_outputs, result, Discovery};
use crate::error::{outcome, reported, DdcError, DdcErrorView};
use crate::percent::{degenerate, percentage_of, raw_of, to_percentage, to_raw};
use crate::vcp::{
    InputSource, PowerMode, VcpReply, VcpWrite, VCP_BRIGHTNESS, VCP_CONTRAST, VCP_INPUT_SOURCE,
    VCP_POWER_MODE, VCP_VOLUME,
};

verus! {

/// A feature of a monitor that the registry controls.
#[derive(Debug, Clone, Copy, PartialEq, Eq, Structural)]
pub enum Feature {
    Brightness,
    Contrast,
    Volume,
    InputSource,
    PowerMode,
}

impl Feature {
    /// The feature's code on the wire.
    pub open spec fn spec_code(self) -> u8 {
        match self {
            Feature::Brightness => 0x10,
            Feature::Contrast => 0x12,
            Feature::Volume => 0x62,
            Feature::InputSource => 0x60,
            Feature::PowerMode => 0xd6,
        }
    }

    /// The feature's name in messages.
    pub open spec fn spec_label(self) -> Seq<char> {
        match self {
            Feature::Brightness => "brightness"@,
            Feature::Contrast => "contrast"@,
            Feature::Volume => "volume"@,
            Feature::InputSource => "input source"@,
            Feature::PowerMode => "power mode"@,
        }
    }

    /// The feature's value is a level in a range, seen as a percentage.
    pub open spec fn is_level(self) -> bool {
        self is Brightness || self is Contrast || self is Volume
    }

    /// The feature's code on the wire.
    pub fn code(&self) -> (r: u8)
        ensures
            r == self.spec_code(),
    {
        match self {
            Feature::Brightness => VCP_BRIGHTNESS,
            Feature::Contrast => VCP_CONTRAST,
            Feature::Volume => VCP_VOLUME,
            Feature::InputSource => VCP_INPUT_SOURCE,
            Feature::PowerMode => VCP_POWER_MODE,
        }
    }

    /// The feature's name in messages.
    pub fn label(&self) -> (r: &'static str)
        ensures
            r@ == self.spec_label(),
    {
        match self {
            Feature::Brightness => "brightness",
            Feature::Contrast => "contrast",
            Feature::Volume => "volume",
            Feature::InputSource => "input source",
            Feature::PowerMode => "power mode",
        }
    }
}

/// What reading a feature takes.
#[derive(Debug, Clone, Copy, PartialEq, Eq, Structural)]
pub enum Reading {
    /// The answer is known without the bus.
    Known(u8),
    /// The driver has to request the feature with this code.
    Ask(u8),
}

/// A monitor bound to the bus that was claimed for it.
#[derive(Debug)]
pub struct Monitor {
    /// The name shown for the monitor; never empty after discovery.
    pub name: String,
    /// The display output the monitor hangs on.
    pub connector: String,
    /// Path of the bus claimed for the monitor. The driver keeps the open
    /// handle under it.
    pub bus: String,
    pub min_brightness: u16,
    pub max_brightness: u16,
    pub min_contrast: u16,
    pub max_contrast: u16,
    pub min_volume: u16,
    pub max_volume: u16,
    pub supports_input_source: bool,
    pub supports_power_mode: bool,
}

/// A `Monitor` with its texts as sequences of characters.
pub struct MonitorView {
    pub name: Seq<char>,
    pub connector: Seq<char>,
    pub bus: Seq<char>,
    pub min_brightness: u16,
    pub max_brightness: u16,
    pub min_contrast: u16,
    pub max_contrast: u16,
    pub min_volume: u16,
    pub max_volume: u16,
    pub supports_input_source: bool,
    pub supports_power_mode: bool,
}

impl View for Monitor {
    type V = MonitorView;

    open spec fn view(&self) -> MonitorView {
        MonitorView {
            name: self.name@,
            connector: self.connector@,
            bus: self.bus@,
            min_brightness: self.min_brightness,
            max_brightness: self.max_brightness,
            min_contrast: self.min_contrast,
            max_contrast: self.max_contrast,
            min_volume: self.min_volume,
            max_volume: self.max_volume,
            supports_input_source: self.supports_input_source,
            supports_power_mode: self.supports_power_mode,
        }
    }
}

/// The monitors as views.
pub open spec fn monitor_views(monitors: Seq<Monitor>) -> Seq<MonitorView> {
    monitors.map_values(|m: Monitor| m@)
}

/// No two monitors are bound to the same bus.
pub open spec fn distinct_buses(monitors: Seq<MonitorView>) -> bool {
    forall|i: int, j: int|
        0 <= i < j < monitors.len() ==> (#[trigger] monitors[i]).bus != (#[trigger] monitors[j]).bus
}

/// Every monitor has a name.
pub open spec fn all_named(monitors: Seq<MonitorView>) -> bool {
    forall|i: int| 0 <= i < monitors.len() ==> (#[trigger] monitors[i]).name.len() > 0
}

impl MonitorView {
    /// The range of a level; `(0, 0)` for a feature that is no level.
    pub open spec fn range(self, feature: Feature) -> (u16, u16) {
        match feature {
            Feature::Brightness => (self.min_brightness, self.max_brightness),
            Feature::Contrast => (self.min_contrast, self.max_contrast),
            Feature::Volume => (self.min_volume, self.max_volume),
            _ => (0, 0),
        }
    }

    /// Whether the monitor has the feature: a level with a range that is
    /// not degenerate, or a selector that answered the probe.
    pub open spec fn supports(self, feature: Feature) -> bool {
        match feature {
            Feature::InputSource => self.supports_input_source,
            Feature::PowerMode => self.supports_power_mode,
            _ => !degenerate(self.range(feature).0, self.range(feature).1),
        }
    }

    /// What reading `feature` takes. A level with a degenerate range is 0
    /// without a request, but for contrast, which is then an error.
    pub open spec fn read_request(self, feature: Feature) -> Result<Reading, DdcErrorView> {
        let (min, max) = self.range(feature);
        if !feature.is_level() || !degenerate(min, max) {
            Ok(Reading::Ask(feature.spec_code()))
        } else if feature is Contrast {
            Err(DdcErrorView::CommError("Contrast not supported"@))
        } else {
            Ok(Reading::Known(0))
        }
    }

    /// The percentage of a level, given what the bus replied.
    pub open spec fn percentage(self, feature: Feature, reply: Result<VcpReply, Seq<char>>)
        -> Result<u8, DdcErrorView> {
        let (min, max) = self.range(feature);
        match self.read_request(feature) {
            Err(error) => Err(error),
            Ok(Reading::Known(p)) => Ok(p),
            Ok(Reading::Ask(_)) => match reply {
                Err(cause) => Err(read_failure(feature, cause)),
                Ok(v) => Ok(percentage_of(min, max, v.spec_value() as u16) as u8),
            },
        }
    }

    /// The write that sets a level to a percentage; none in a degenerate
    /// range.
    pub open spec fn level_write(self, feature: Feature, percentage: u8) -> Option<VcpWrite> {
        let (min, max) = self.range(feature);
        if degenerate(min, max) {
            None
        } else {
            Some(VcpWrite { code: feature.spec_code(), value: raw_of(min, max, percentage) as u16 })
        }
    }
}

/// The error of a request that the bus did not answer.
pub open spec fn read_failure(feature: Feature, cause: Seq<char>) -> DdcErrorView {
    DdcErrorView::CommError("Failed to get "@ + feature.spec_label() + ": "@ + cause)
}

/// The error of a write that the bus did not take.
pub open spec fn write_failure(feature: Feature, cause: Seq<char>) -> DdcErrorView {
    DdcErrorView::CommError("Failed to set "@ + feature.spec_label() + ": "@ + cause)
}

/// Puts a message together: `start`, the feature's label, a colon and the
/// cause.
fn failure_message(start: &str, feature: Feature, cause: &str) -> (message: String)
    ensures
        message@ == start@ + feature.spec_label() + ": "@ + cause@,
{
    let mut message = String::from_str(start);
    message.append(feature.label());
    message.append(": ");
    message.append(cause);
    message
}

impl Monitor {
    /// The range of a level; `(0, 0)` for a feature that is no level.
    pub fn range(&self, feature: Feature) -> (r: (u16, u16))
        ensures
            r == self@.range(feature),
    {
        match feature {
            Feature::Brightness => (self.min_brightness, self.max_brightness),
            Feature::Contrast => (self.min_contrast, self.max_contrast),
            Feature::Volume => (self.min_volume, self.max_volume),
            _ => (0, 0),
        }
    }

    /// Whether the monitor has the feature: a level with a range that is not
    /// degenerate, or a selector that answered the probe.
    pub fn supports(&self, feature: Feature) -> (r: bool)
        ensures
            r == self@.supports(feature),
    {
        match feature {
            Feature::InputSource => self.supports_input_source,
            Feature::PowerMode => self.supports_power_mode,
            _ => {
                let (min, max) = self.range(feature);
                max > min
            },
        }
    }

    /// What reading `feature` takes: an answer known without the bus, a
    /// request to make, or an error.
    pub fn read_request(&self, feature: Feature) -> (r: Result<Reading, DdcError>)
        ensures
            outcome(r) == self@.read_request(feature),
    {
        let (min, max) = self.range(feature);
        match feature {
            Feature::InputSource | Feature::PowerMode => Ok(Reading::Ask(feature.code())),
            Feature::Contrast => {
                if max <= min {
                    Err(DdcError::CommError(String::from_str("Contrast not supported")))
                } else {
                    Ok(Reading::Ask(feature.code()))
                }
            },
            _ => {
                if max <= min {
                    Ok(Reading::Known(0))
                } else {
                    Ok(Reading::Ask(feature.code()))
                }
            },
        }
    }

    /// The percentage of a level, given what the bus replied to the request
    /// for it. The reply is not looked at where no request was due.
    pub fn percentage(&self, feature: Feature, reply: Result<VcpReply, String>) -> (r: Result<
        u8,
        DdcError,
    >)
        ensures
            outcome(r) == self@.percentage(feature, reported(reply)),
            r matches Ok(p) ==> p <= 100,
    {
        let (min, max) = self.range(feature);
        match self.read_request(feature) {
            Err(error) => Err(error),
            Ok(Reading::Known(p)) => Ok(p),
            Ok(Reading::Ask(_)) => match reply {
                Err(cause) => Err(
                    DdcError::CommError(failure_message("Failed to get ", feature, cause.as_str())),
                ),
                Ok(v) => Ok(to_percentage(min, max, v.value())),
            },
        }
    }

    /// The write that sets a level to `percentage`, or `None` in a
    /// degenerate range. Percentages above 100 count as 100.
    pub fn level_write(&self, feature: Feature, percentage: u8) -> (r: Option<VcpWrite>)
        ensures
            r == self@.level_write(feature, percentage),
            r.is_none() == degenerate(self@.range(feature).0, self@.range(feature).1),
            r matches Some(write) ==> write.code == feature.spec_code() && self@.range(feature).0
                <= write.value <= self@.range(feature).1,
    {
        let (min, max) = self.range(feature);
        match to_raw(min, max, percentage) {
            Some(value) => Some(VcpWrite { code: feature.code(), value }),
            None => None,
        }
    }
}

/// The registry: the monitors that discovery claimed, in the order in which
/// they were claimed. Every control takes a position in that list.
#[derive(Debug)]
pub struct DdcManager {
    pub monitors: Vec<Monitor>,
}

impl DdcManager {
    /// There is a monitor at `index`, and its range of the level `feature`
    /// is degenerate.
    pub open spec fn lacks(&self, index: usize, feature: Feature) -> bool {
        index < self.monitors@.len() && degenerate(
            self.monitors@[index as int]@.range(feature).0,
            self.monitors@[index as int]@.range(feature).1,
        )
    }

    /// The write stays within the range of the level `feature` of the
    /// monitor at `index`.
    pub open spec fn within(&self, index: usize, feature: Feature, write: VcpWrite) -> bool {
        &&& index < self.monitors@.len()
        &&& write.code == feature.spec_code()
        &&& self.monitors@[index as int]@.range(feature).0 <= write.value
            <= self.monitors@[index as int]@.range(feature).1
    }

    /// What reading `feature` of the monitor at `index` takes.
    pub open spec fn spec_read_request(&self, index: usize, feature: Feature) -> Result<
        Reading,
        DdcErrorView,
    > {
        if index >= self.monitors@.len() {
            Err(DdcErrorView::NoMonitors)
        } else {
            self.monitors@[index as int]@.read_request(feature)
        }
    }

    /// The percentage of a level of the monitor at `index`, given the reply.
    pub open spec fn spec_percentage(
        &self,
        index: usize,
        feature: Feature,
        reply: Result<VcpReply, Seq<char>>,
    ) -> Result<u8, DdcErrorView> {
        if index >= self.monitors@.len() {
            Err(DdcErrorView::NoMonitors)
        } else {
            self.monitors@[index as int]@.percentage(feature, reply)
        }
    }

    /// The write that sets a level of the monitor at `index`.
    pub open spec fn spec_level_write(&self, index: usize, feature: Feature, percentage: u8)
        -> Result<Option<VcpWrite>, DdcErrorView> {
        if index >= self.monitors@.len() {
            Err(DdcErrorView::NoMonitors)
        } else {
            Ok(self.monitors@[index as int]@.level_write(feature, percentage))
        }
    }

    /// The value of a selector of the monitor at `index`, given the reply:
    /// the low byte of the reply's value.
    pub open spec fn spec_selection(
        &self,
        index: usize,
        feature: Feature,
        reply: Result<VcpReply, Seq<char>>,
    ) -> Result<u8, DdcErrorView> {
        if index >= self.monitors@.len() {
            Err(DdcErrorView::NoMonitors)
        } else {
            match reply {
                Err(cause) => Err(read_failure(feature, cause)),
                Ok(v) => Ok(v.value_low),
            }
        }
    }

    /// The write that sets a selector of the monitor at `index` to `code`.
    pub open spec fn spec_selector_write(&self, index: usize, feature: Feature, code: u8)
        -> Result<VcpWrite, DdcErrorView> {
        if index >= self.monitors@.len() {
            Err(DdcErrorView::NoMonitors)
        } else {
            Ok(VcpWrite { code: feature.spec_code(), value: code as u16 })
        }
    }

    /// Whether the monitor at `index` has the feature; `false` where there
    /// is no such monitor.
    pub open spec fn spec_supports(&self, index: usize, feature: Feature) -> bool {
        index < self.monitors@.len() && self.monitors@[index as int]@.supports(feature)
    }

    /// The registry of the monitors that a discovery bound.
    ///
    /// Fails as the discovery did: with `NoMonitors` where no monitor was
    /// bound.
    pub fn new(discovery: Discovery) -> (r: Result<DdcManager, DdcError>)
        requires
            discovery.wf(),
        ensures
            match result(discovery@) {
                Ok(monitors) => r is Ok && monitor_views(r->Ok_0.monitors@) == monitors,
                Err(error) => r is Err && r->Err_0@ == error,
            },
            r matches Ok(manager) ==> manager.monitors@.len() > 0 && distinct_buses(
                monitor_views(manager.monitors@),
            ) && all_named(monitor_views(manager.monitors@)),
            r matches Ok(manager) ==> manager.monitors@.len() <= discovery@.connectors.len()
                && bound_to_outputs(
                monitor_views(manager.monitors@),
                discovery@.connectors,
                discovery@.connectors.len() as int,
            ),
    {
        match discovery.discover_monitors() {
            Ok(monitors) => Ok(DdcManager { monitors }),
            Err(error) => Err(error),
        }
    }

    /// What reading `feature` of the monitor at `index` takes: an answer
    /// known without the bus, a request to make on the monitor's bus, or an
    /// error. Without a monitor at `index` the error is `NoMonitors`.
    pub fn read_request(&self, index: usize, feature: Feature) -> (r: Result<Reading, DdcError>)
        ensures
            outcome(r) == self.spec_read_request(index, feature),
    {
        if index >= self.monitors.len() {
            return Err(DdcError::NoMonitors);
        }
        self.monitors[index].read_request(feature)
    }

    /// The percentage of a level, given the reply to its request.
    fn level(&self, index: usize, feature: Feature, reply: Result<VcpReply, String>) -> (r: Result<
        u8,
        DdcError,
    >)
        ensures
            outcome(r) == self.spec_percentage(index, feature, reported(reply)),
            r matches Ok(p) ==> p <= 100,
    {
        if index >= self.monitors.len() {
            return Err(DdcError::NoMonitors);
        }
        self.monitors[index].percentage(feature, reply)
    }

    /// The write that sets a level to a percentage.
    fn level_write(&self, index: usize, feature: Feature, percentage: u8) -> (r: Result<
        Option<VcpWrite>,
        DdcError,
    >)
        ensures
            outcome(r) == self.spec_level_write(index, feature, percentage),
            self.lacks(index, feature) ==> r matches Ok(None),
            r matches Ok(Some(write)) ==> self.within(index, feature, write),
    {
        if index >= self.monitors.len() {
            return Err(DdcError::NoMonitors);
        }
        Ok(self.monitors[index].level_write(feature, percentage))
    }

    /// The value of a selector, given the reply to its request.
    fn selection(&self, index: usize, feature: Feature, reply: Result<VcpReply, String>) -> (r:
        Result<u8, DdcError>)
        ensures
            outcome(r) == self.spec_selection(index, feature, reported(reply)),
    {
        if index >= self.monitors.len() {
            return Err(DdcError::NoMonitors);
        }
        match reply {
            Err(cause) => Err(
                DdcError::CommError(failure_message("Failed to get ", feature, cause.as_str())),
            ),
            Ok(v) => Ok((v.value() % 256) as u8),
        }
    }

    /// The write that sets a selector to a code.
    fn selector_write(&self, index: usize, feature: Feature, code: u8) -> (r: Result<
        VcpWrite,
        DdcError,
    >)
        ensures
            outcome(r) == self.spec_selector_write(index, feature, code),
    {
        if index >= self.monitors.len() {
            return Err(DdcError::NoMonitors);
        }
        Ok(VcpWrite { code: feature.code(), value: code as u16 })
    }

    /// Whether the monitor at `index` has the feature.
    fn supports(&self, index: usize, feature: Feature) -> (r: bool)
        ensures
            r == self.spec_supports(index, feature),
    {
        if index >= self.monitors.len() {
            return false;
        }
        self.monitors[index].supports(feature)
    }

    /// The brightness of the monitor at `index` as a percentage.
    ///
    /// `reply` is what the bus answered to the request that `read_request`
    /// asked for. With a degenerate range the result is 0 whatever the
    /// reply.
    pub fn get_brightness_percentage(&self, index: usize, reply: Result<VcpReply, String>) -> (r:
        Result<u8, DdcError>)
        ensures
            outcome(r) == self.spec_percentage(index, Feature::Brightness, reported(reply)),
            r matches Ok(p) ==> p <= 100,
            self.lacks(index, Feature::Brightness) ==> r matches Ok(0),
    {
        self.level(index, Feature::Brightness, reply)
    }

    /// The write that sets the brightness of the monitor at `index` to
    /// `percentage`. With a degenerate range there is nothing to write.
    pub fn set_brightness_percentage(&self, index: usize, percentage: u8) -> (r: Result<
        Option<VcpWrite>,
        DdcError,
    >)
        ensures
            outcome(r) == self.spec_level_write(index, Feature::Brightness, percentage),
            self.lacks(index, Feature::Brightness) ==> r matches Ok(None),
            r matches Ok(Some(write)) ==> self.within(index, Feature::Brightness, write),
    {
        self.level_write(index, Feature::Brightness, percentage)
    }

    /// The contrast of the monitor at `index` as a percentage.
    ///
    /// `reply` is what the bus answered to the request that `read_request`
    /// asked for. With a degenerate range the result is an error whatever
    /// the reply.
    pub fn get_contrast_percentage(&self, index: usize, reply: Result<VcpReply, String>) -> (r:
        Result<u8, DdcError>)
        ensures
            outcome(r) == self.spec_percentage(index, Feature::Contrast, reported(reply)),
            r matches Ok(p) ==> p <= 100,
            self.lacks(index, Feature::Contrast) ==> r matches Err(DdcError::CommError(_)),
    {
        self.level(index, Feature::Contrast, reply)
    }

    /// The write that sets the contrast of the monitor at `index` to
    /// `percentage`. With a degenerate range there is nothing to write.
    pub fn set_contrast_percentage(&self, index: usize, percentage: u8) -> (r: Result<
        Option<VcpWrite>,
        DdcError,
    >)
        ensures
            outcome(r) == self.spec_level_write(index, Feature::Contrast, percentage),
            self.lacks(index, Feature::Contrast) ==> r matches Ok(None),
            r matches Ok(Some(write)) ==> self.within(index, Feature::Contrast, write),
    {
        self.level_write(index, Feature::Contrast, percentage)
    }

    /// Whether the monitor at `index` has a contrast control.
    pub fn supports_contrast(&self, index: usize) -> (r: bool)
        ensures
            r == self.spec_supports(index, Feature::Contrast),
    {
        self.supports(index, Feature::Contrast)
    }

    /// Whether the monitor at `index` has a volume control.
    pub fn supports_volume(&self, index: usize) -> (r: bool)
        ensures
            r == self.spec_supports(index, Feature::Volume),
    {
        self.supports(index, Feature::Volume)
    }

    /// Whether the monitor at `index` lets its input be selected.
    pub fn supports_input_source(&self, index: usize) -> (r: bool)
        ensures
            r == self.spec_supports(index, Feature::InputSource),
    {
        self.supports(index, Feature::InputSource)
    }

    /// Whether the monitor at `index` lets its power mode be selected.
    pub fn supports_power_mode(&self, index: usize) -> (r: bool)
        ensures
            r == self.spec_supports(index, Feature::PowerMode),
    {
        self.supports(index, Feature::PowerMode)
    }

    /// The volume of the monitor at `index` as a percentage.
    ///
    /// `reply` is what the bus answered to the request that `read_request`
    /// asked for. With a degenerate range the result is 0 whatever the
    /// reply.
    pub fn get_volume_percentage(&self, index: usize, reply: Result<VcpReply, String>) -> (r:
        Result<u8, DdcError>)
        ensures
            outcome(r) == self.spec_percentage(index, Feature::Volume, reported(reply)),
            r matches Ok(p) ==> p <= 100,
            self.lacks(index, Feature::Volume) ==> r matches Ok(0),
    {
        self.level(index, Feature::Volume, reply)
    }

    /// The write that sets the volume of the monitor at `index` to
    /// `percentage`. With a degenerate range there is nothing to write.
    pub fn set_volume_percentage(&self, index: usize, percentage: u8) -> (r: Result<
        Option<VcpWrite>,
        DdcError,
    >)
        ensures
            outcome(r) == self.spec_level_write(index, Feature::Volume, percentage),
            self.lacks(index, Feature::Volume) ==> r matches Ok(None),
            r matches Ok(Some(write)) ==> self.within(index, Feature::Volume, write),
    {
        self.level_write(index, Feature::Volume, percentage)
    }

    /// The input that the monitor at `index` shows, given the reply to the
    /// request for it: the low byte of the reply's value, decoded.
    pub fn get_input_source(&self, index: usize, reply: Result<VcpReply, String>) -> (r: Result<
        InputSource,
        DdcError,
    >)
        ensures
            match self.spec_selection(index, Feature::InputSource, reported(reply)) {
                Ok(code) => outcome(r) == Ok::<InputSource, DdcErrorView>(
                    InputSource::spec_from_code(code),
                ),
                Err(error) => outcome(r) == Err::<InputSource, DdcErrorView>(error),
            },
    {
        match self.selection(index, Feature::InputSource, reply) {
            Ok(code) => Ok(InputSource::from_code(code)),
            Err(error) => Err(error),
        }
    }

    /// The write that makes the monitor at `index` show `source`.
    pub fn set_input_source(&self, index: usize, source: InputSource) -> (r: Result<
        VcpWrite,
        DdcError,
    >)
        ensures
            outcome(r) == self.spec_selector_write(
                index,
                Feature::InputSource,
                source.spec_code(),
            ),
    {
        self.selector_write(index, Feature::InputSource, source.code())
    }

    /// The power mode of the monitor at `index`, given the reply to the
    /// request for it: the low byte of the reply's value, decoded.
    pub fn get_power_mode(&self, index: usize, reply: Result<VcpReply, String>) -> (r: Result<
        PowerMode,
        DdcError,
    >)
        ensures
            match self.spec_selection(index, Feature::PowerMode, reported(reply)) {
                Ok(code) => outcome(r) == Ok::<PowerMode, DdcErrorView>(
                    PowerMode::spec_from_code(code),
                ),
                Err(error) => outcome(r) == Err::<PowerMode, DdcErrorView>(error),
            },
    {
        match self.selection(index, Feature::PowerMode, reply) {
            Ok(code) => Ok(PowerMode::from_code(code)),
            Err(error) => Err(error),
        }
    }

    /// The write that puts the monitor at `index` into `mode`.
    pub fn set_power_mode(&self, index: usize, mode: PowerMode) -> (r: Result<VcpWrite, DdcError>)
        ensures
            outcome(r) == self.spec_selector_write(index, Feature::PowerMode, mode.spec_code()),
    {
        self.selector_write(index, Feature::PowerMode, mode.code())
    }

    /// The result of a write, given what the bus made of it: a failure
    /// becomes a `CommError` that names the feature and the cause.
    pub fn write_result(feature: Feature, written: Result<(), String>) -> (r: Result<(), DdcError>)
        ensures
            match written {
                Ok(_) => r is Ok,
                Err(cause) => outcome(r) == Err::<(), DdcErrorView>(
                    write_failure(feature, cause@),
                ),
            },
    {
        match written {
            Ok(_) => Ok(()),
            Err(cause) => Err(
                DdcError::CommError(failure_message("Failed to set ", feature, cause.as_str())),
            ),
        }
    }
}

} // verus!
