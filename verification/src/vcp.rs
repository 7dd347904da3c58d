//! Feature codes of the virtual control panel and the values they carry.

use vstd::prelude::*;

verus! {

/// Feature code of the luminance control.
pub const VCP_BRIGHTNESS: u8 = 0x10;

/// Feature code of the contrast control.
pub const VCP_CONTRAST: u8 = 0x12;

/// Feature code of the input source selector.
pub const VCP_INPUT_SOURCE: u8 = 0x60;

/// Feature code of the speaker volume control.
pub const VCP_VOLUME: u8 = 0x62;

/// Feature code of the power mode selector.
pub const VCP_POWER_MODE: u8 = 0xd6;

/// The video input a monitor shows.
#[derive(Debug, Clone, Copy, PartialEq, Eq, Structural)]
pub enum InputSource {
    Vga1,
    Dvi1,
    DisplayPort1,
    DisplayPort2,
    Hdmi1,
    Hdmi2,
    Hdmi3,
    Hdmi4,
    UsbC,
    Unknown(u8),
}

impl InputSource {
    /// The variant that a raw code stands for.
    pub open spec fn spec_from_code(code: u8) -> InputSource {
        if code == 0x01 {
            InputSource::Vga1
        } else if code == 0x03 {
            InputSource::Dvi1
        } else if code == 0x0f {
            InputSource::DisplayPort1
        } else if code == 0x10 {
            InputSource::DisplayPort2
        } else if code == 0x11 {
            InputSource::Hdmi1
        } else if code == 0x12 {
            InputSource::Hdmi2
        } else if code == 0x13 {
            InputSource::Hdmi3
        } else if code == 0x14 {
            InputSource::Hdmi4
        } else if code == 0x1b {
            InputSource::UsbC
        } else {
            InputSource::Unknown(code)
        }
    }

    /// The raw code of a variant.
    pub open spec fn spec_code(self) -> u8 {
        match self {
            InputSource::Vga1 => 0x01,
            InputSource::Dvi1 => 0x03,
            InputSource::DisplayPort1 => 0x0f,
            InputSource::DisplayPort2 => 0x10,
            InputSource::Hdmi1 => 0x11,
            InputSource::Hdmi2 => 0x12,
            InputSource::Hdmi3 => 0x13,
            InputSource::Hdmi4 => 0x14,
            InputSource::UsbC => 0x1b,
            InputSource::Unknown(code) => code,
        }
    }

    /// The label of a variant.
    pub open spec fn spec_name(self) -> Seq<char> {
        match self {
            InputSource::Vga1 => "VGA"@,
            InputSource::Dvi1 => "DVI"@,
            InputSource::DisplayPort1 => "DisplayPort 1"@,
            InputSource::DisplayPort2 => "DisplayPort 2"@,
            InputSource::Hdmi1 => "HDMI 1"@,
            InputSource::Hdmi2 => "HDMI 2"@,
            InputSource::Hdmi3 => "HDMI 3"@,
            InputSource::Hdmi4 => "HDMI 4"@,
            InputSource::UsbC => "USB-C"@,
            InputSource::Unknown(_) => "Unknown"@,
        }
    }

    /// Decodes a raw code. Codes outside the table are kept in `Unknown`.
    pub fn from_code(code: u8) -> (r: InputSource)
        ensures
            r == Self::spec_from_code(code),
            r.spec_code() == code,
    {
        match code {
            0x01 => InputSource::Vga1,
            0x03 => InputSource::Dvi1,
            0x0f => InputSource::DisplayPort1,
            0x10 => InputSource::DisplayPort2,
            0x11 => InputSource::Hdmi1,
            0x12 => InputSource::Hdmi2,
            0x13 => InputSource::Hdmi3,
            0x14 => InputSource::Hdmi4,
            0x1b => InputSource::UsbC,
            _ => InputSource::Unknown(code),
        }
    }

    /// The raw code that selects this input.
    pub fn code(&self) -> (r: u8)
        ensures
            r == self.spec_code(),
    {
        match self {
            InputSource::Vga1 => 0x01,
            InputSource::Dvi1 => 0x03,
            InputSource::DisplayPort1 => 0x0f,
            InputSource::DisplayPort2 => 0x10,
            InputSource::Hdmi1 => 0x11,
            InputSource::Hdmi2 => 0x12,
            InputSource::Hdmi3 => 0x13,
            InputSource::Hdmi4 => 0x14,
            InputSource::UsbC => 0x1b,
            InputSource::Unknown(code) => *code,
        }
    }

    /// A label for this input.
    pub fn name(&self) -> (r: &'static str)
        ensures
            r@ == self.spec_name(),
    {
        match self {
            InputSource::Vga1 => "VGA",
            InputSource::Dvi1 => "DVI",
            InputSource::DisplayPort1 => "DisplayPort 1",
            InputSource::DisplayPort2 => "DisplayPort 2",
            InputSource::Hdmi1 => "HDMI 1",
            InputSource::Hdmi2 => "HDMI 2",
            InputSource::Hdmi3 => "HDMI 3",
            InputSource::Hdmi4 => "HDMI 4",
            InputSource::UsbC => "USB-C",
            InputSource::Unknown(_) => "Unknown",
        }
    }
}

/// The power state of a monitor.
#[derive(Debug, Clone, Copy, PartialEq, Eq, Structural)]
pub enum PowerMode {
    On,
    Standby,
    Suspend,
    Off,
    Normal,
    Unknown(u8),
}

impl PowerMode {
    /// The variant that a raw code stands for.
    pub open spec fn spec_from_code(code: u8) -> PowerMode {
        if code == 0x01 {
            PowerMode::On
        } else if code == 0x02 {
            PowerMode::Standby
        } else if code == 0x03 {
            PowerMode::Suspend
        } else if code == 0x04 {
            PowerMode::Off
        } else if code == 0x05 {
            PowerMode::Normal
        } else {
            PowerMode::Unknown(code)
        }
    }

    /// The raw code of a variant.
    pub open spec fn spec_code(self) -> u8 {
        match self {
            PowerMode::On => 0x01,
            PowerMode::Standby => 0x02,
            PowerMode::Suspend => 0x03,
            PowerMode::Off => 0x04,
            PowerMode::Normal => 0x05,
            PowerMode::Unknown(code) => code,
        }
    }

    /// The label of a variant.
    pub open spec fn spec_name(self) -> Seq<char> {
        match self {
            PowerMode::On => "On"@,
            PowerMode::Standby => "Standby"@,
            PowerMode::Suspend => "Suspend"@,
            PowerMode::Off => "Off"@,
            PowerMode::Normal => "Normal"@,
            PowerMode::Unknown(_) => "Unknown"@,
        }
    }

    /// Decodes a raw code. Codes outside the table are kept in `Unknown`.
    pub fn from_code(code: u8) -> (r: PowerMode)
        ensures
            r == Self::spec_from_code(code),
            r.spec_code() == code,
    {
        match code {
            0x01 => PowerMode::On,
            0x02 => PowerMode::Standby,
            0x03 => PowerMode::Suspend,
            0x04 => PowerMode::Off,
            0x05 => PowerMode::Normal,
            _ => PowerMode::Unknown(code),
        }
    }

    /// The raw code that selects this mode.
    pub fn code(&self) -> (r: u8)
        ensures
            r == self.spec_code(),
    {
        match self {
            PowerMode::On => 0x01,
            PowerMode::Standby => 0x02,
            PowerMode::Suspend => 0x03,
            PowerMode::Off => 0x04,
            PowerMode::Normal => 0x05,
            PowerMode::Unknown(code) => *code,
        }
    }

    /// A label for this mode.
    pub fn name(&self) -> (r: &'static str)
        ensures
            r@ == self.spec_name(),
    {
        match self {
            PowerMode::On => "On",
            PowerMode::Standby => "Standby",
            PowerMode::Suspend => "Suspend",
            PowerMode::Off => "Off",
            PowerMode::Normal => "Normal",
            PowerMode::Unknown(_) => "Unknown",
        }
    }
}

/// The reply to a feature request, byte by byte as the display sent it.
#[derive(Debug, Clone, Copy, PartialEq, Eq, Structural)]
pub struct VcpReply {
    /// Type of the feature.
    pub kind: u8,
    /// High byte of the largest value the feature takes.
    pub max_high: u8,
    /// Low byte of the largest value the feature takes.
    pub max_low: u8,
    /// High byte of the present value.
    pub value_high: u8,
    /// Low byte of the present value.
    pub value_low: u8,
}

/// `ddc::VcpValue::value` joins the two value bytes into one number, the
/// high byte first.
#[verifier::external_body]
fn joined_value(reply: &VcpReply) -> (r: u16)
    ensures
        r == reply.value_high * 256 + reply.value_low,
{
    let outside = ddc::VcpValue {
        ty: reply.kind,
        mh: reply.max_high,
        ml: reply.max_low,
        sh: reply.value_high,
        sl: reply.value_low,
    };
    outside.value()
}

/// `ddc::VcpValue::maximum` joins the two maximum bytes into one number, the
/// high byte first.
#[verifier::external_body]
fn joined_maximum(reply: &VcpReply) -> (r: u16)
    ensures
        r == reply.max_high * 256 + reply.max_low,
{
    let outside = ddc::VcpValue {
        ty: reply.kind,
        mh: reply.max_high,
        ml: reply.max_low,
        sh: reply.value_high,
        sl: reply.value_low,
    };
    outside.maximum()
}

impl VcpReply {
    /// The present value of the feature.
    pub open spec fn spec_value(self) -> int {
        self.value_high * 256 + self.value_low
    }

    /// The largest value the feature takes.
    pub open spec fn spec_maximum(self) -> int {
        self.max_high * 256 + self.max_low
    }

    /// A reply that carries `value` and `maximum`, of feature type 0.
    pub fn new(value: u16, maximum: u16) -> (r: VcpReply)
        ensures
            r.kind == 0,
            r.spec_value() == value,
            r.spec_maximum() == maximum,
    {
        VcpReply {
            kind: 0,
            max_high: (maximum / 256) as u8,
            max_low: (maximum % 256) as u8,
            value_high: (value / 256) as u8,
            value_low: (value % 256) as u8,
        }
    }

    /// The present value of the feature.
    pub fn value(&self) -> (r: u16)
        ensures
            r == self.spec_value(),
    {
        joined_value(self)
    }

    /// The largest value the feature takes.
    pub fn maximum(&self) -> (r: u16)
        ensures
            r == self.spec_maximum(),
    {
        joined_maximum(self)
    }
}

/// A value to be written to a feature.
#[derive(Debug, Clone, Copy, PartialEq, Eq, Structural)]
pub struct VcpWrite {
    /// The feature code.
    pub code: u8,
    /// The native value to set.
    pub value: u16,
}

/// Decoding a raw code and encoding the result gives the code back.
pub proof fn lemma_input_source_code_round_trip(code: u8)
    ensures
        InputSource::spec_from_code(code).spec_code() == code,
{
}

/// A code outside the table of inputs is kept as it is in `Unknown`.
pub proof fn lemma_input_source_unknown(code: u8)
    requires
        code != 0x01,
        code != 0x03,
        code < 0x0f || code > 0x14,
        code != 0x1b,
    ensures
        InputSource::spec_from_code(code) == InputSource::Unknown(code),
{
}

/// Encoding an input and decoding the code gives the input back, unless it
/// is an `Unknown` that holds a code of the table.
pub proof fn lemma_input_source_round_trip(source: InputSource)
    requires
        source matches InputSource::Unknown(code) ==> InputSource::spec_from_code(code)
            == InputSource::Unknown(code),
    ensures
        InputSource::spec_from_code(source.spec_code()) == source,
{
}

/// Decoding a raw code and encoding the result gives the code back.
pub proof fn lemma_power_mode_code_round_trip(code: u8)
    ensures
        PowerMode::spec_from_code(code).spec_code() == code,
{
}

/// A code outside the table of power modes is kept as it is in `Unknown`.
pub proof fn lemma_power_mode_unknown(code: u8)
    requires
        code < 0x01 || code > 0x05,
    ensures
        PowerMode::spec_from_code(code) == PowerMode::Unknown(code),
{
}

/// Encoding a power mode and decoding the code gives the mode back, unless
/// it is an `Unknown` that holds a code of the table.
pub proof fn lemma_power_mode_round_trip(mode: PowerMode)
    requires
        mode matches PowerMode::Unknown(code) ==> PowerMode::spec_from_code(code)
            == PowerMode::Unknown(code),
    ensures
        PowerMode::spec_from_code(mode.spec_code()) == mode,
{
}

} // verus!
