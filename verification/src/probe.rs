//! Probing a bus: what its replies say about the display behind it.
//!
//! A bus is probed with one request for brightness. Without a reply to it
//! the bus is not a display's. With a reply the bus is claimed, and four
//! more requests tell which other features the display has. Each of the four
//! counts for itself: one that fails leaves its feature unsupported and
//! changes nothing else.

use vstd::prelude::*;
use crate::vcp::VcpReply;

verus! {

/// Highest value that counts as an input source.
pub const INPUT_SOURCE_LAST: u16 = 27;

/// Highest value that counts as a power mode.
pub const POWER_MODE_LAST: u16 = 5;

/// What a probe learned about a display.
#[derive(Debug, Clone, Copy, PartialEq, Eq, Structural)]
pub struct Capabilities {
    pub min_brightness: u16,
    pub max_brightness: u16,
    pub min_contrast: u16,
    pub max_contrast: u16,
    pub min_volume: u16,
    pub max_volume: u16,
    pub supports_input_source: bool,
    pub supports_power_mode: bool,
}

/// The replies to the requests of one probe, `None` where a request failed
/// or was not made.
#[derive(Debug, Clone, Copy, PartialEq, Eq, Structural)]
pub struct ProbeReplies {
    pub brightness: Option<VcpReply>,
    pub contrast: Option<VcpReply>,
    pub volume: Option<VcpReply>,
    pub input_source: Option<VcpReply>,
    pub power_mode: Option<VcpReply>,
}

/// The range that a reply gives a level: from 0 to the reply's maximum.
pub open spec fn level_range(reply: Option<VcpReply>) -> Option<(u16, u16)> {
    match reply {
        Some(v) => Some((0u16, v.spec_maximum() as u16)),
        None => None,
    }
}

/// The range of a level that is optional: `(0, 0)` without a reply.
pub open spec fn optional_range(reply: Option<VcpReply>) -> (u16, u16) {
    match level_range(reply) {
        Some(range) => range,
        None => (0u16, 0u16),
    }
}

/// The reply holds a value from 1 to `last`.
pub open spec fn selects(reply: Option<VcpReply>, last: int) -> bool {
    match reply {
        Some(v) => 1 <= v.spec_value() <= last,
        None => false,
    }
}

/// What the replies of a probe say: nothing without a reply for brightness,
/// otherwise the ranges and the selectors that the display has.
pub open spec fn capabilities(replies: ProbeReplies) -> Option<Capabilities> {
    match level_range(replies.brightness) {
        None => None,
        Some(brightness) => Some(
            Capabilities {
                min_brightness: brightness.0,
                max_brightness: brightness.1,
                min_contrast: optional_range(replies.contrast).0,
                max_contrast: optional_range(replies.contrast).1,
                min_volume: optional_range(replies.volume).0,
                max_volume: optional_range(replies.volume).1,
                supports_input_source: selects(replies.input_source, 27),
                supports_power_mode: selects(replies.power_mode, 5),
            },
        ),
    }
}

/// The brightness range that a reply gives, if there is a reply.
pub fn get_brightness_range(reply: &Option<VcpReply>) -> (r: Option<(u16, u16)>)
    ensures
        r == level_range(*reply),
{
    match reply {
        Some(v) => Some((0, v.maximum())),
        None => None,
    }
}

/// The contrast range that a reply gives, if there is a reply.
pub fn get_contrast_range(reply: &Option<VcpReply>) -> (r: Option<(u16, u16)>)
    ensures
        r == level_range(*reply),
{
    match reply {
        Some(v) => Some((0, v.maximum())),
        None => None,
    }
}

/// The volume range that a reply gives, if there is a reply.
pub fn get_volume_range(reply: &Option<VcpReply>) -> (r: Option<(u16, u16)>)
    ensures
        r == level_range(*reply),
{
    match reply {
        Some(v) => Some((0, v.maximum())),
        None => None,
    }
}

/// Whether the display lets its input be selected: the reply holds a value
/// from 1 to 27.
pub fn check_input_source_support(reply: &Option<VcpReply>) -> (r: bool)
    ensures
        r == selects(*reply, 27),
{
    match reply {
        Some(v) => {
            let value = v.value();
            value >= 1 && value <= INPUT_SOURCE_LAST
        },
        None => false,
    }
}

/// Whether the display lets its power mode be selected: the reply holds a
/// value from 1 to 5.
pub fn check_power_mode_support(reply: &Option<VcpReply>) -> (r: bool)
    ensures
        r == selects(*reply, 5),
{
    match reply {
        Some(v) => {
            let value = v.value();
            value >= 1 && value <= POWER_MODE_LAST
        },
        None => false,
    }
}

/// What the replies of a probe say about the display.
///
/// `None` where the request for brightness got no reply: the bus is then
/// left unclaimed. Otherwise the bus is claimed whatever the other replies
/// are.
pub fn test_ddc_connection(replies: &ProbeReplies) -> (r: Option<Capabilities>)
    ensures
        r == capabilities(*replies),
        r.is_some() == replies.brightness.is_some(),
{
    match get_brightness_range(&replies.brightness) {
        None => None,
        Some((min_brightness, max_brightness)) => {
            let (min_contrast, max_contrast) = match get_contrast_range(&replies.contrast) {
                Some(range) => range,
                None => (0, 0),
            };
            let (min_volume, max_volume) = match get_volume_range(&replies.volume) {
                Some(range) => range,
                None => (0, 0),
            };
            let supports_input_source = check_input_source_support(&replies.input_source);
            let supports_power_mode = check_power_mode_support(&replies.power_mode);
            Some(
                Capabilities {
                    min_brightness,
                    max_brightness,
                    min_contrast,
                    max_contrast,
                    min_volume,
                    max_volume,
                    supports_input_source,
                    supports_power_mode,
                },
            )
        },
    }
}

} // verus!
