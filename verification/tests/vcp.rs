use brightless::vcp::{InputSource, PowerMode, VcpReply};

#[test]
fn input_source_table() {
    let table = [
        (0x01u8, InputSource::Vga1, "VGA"),
        (0x03, InputSource::Dvi1, "DVI"),
        (0x0f, InputSource::DisplayPort1, "DisplayPort 1"),
        (0x10, InputSource::DisplayPort2, "DisplayPort 2"),
        (0x11, InputSource::Hdmi1, "HDMI 1"),
        (0x12, InputSource::Hdmi2, "HDMI 2"),
        (0x13, InputSource::Hdmi3, "HDMI 3"),
        (0x14, InputSource::Hdmi4, "HDMI 4"),
        (0x1b, InputSource::UsbC, "USB-C"),
    ];
    for (code, source, name) in table {
        assert_eq!(InputSource::from_code(code), source);
        assert_eq!(source.code(), code);
        assert_eq!(source.name(), name);
    }
}

#[test]
fn input_source_unknown_keeps_the_code() {
    let source = InputSource::from_code(99);
    assert_eq!(source, InputSource::Unknown(99));
    assert_eq!(source.code(), 99);
    assert_eq!(source.name(), "Unknown");
    assert_eq!(InputSource::from_code(0), InputSource::Unknown(0));
    assert_eq!(InputSource::from_code(2), InputSource::Unknown(2));
    assert_eq!(InputSource::from_code(0x15), InputSource::Unknown(0x15));
    assert_eq!(InputSource::from_code(255), InputSource::Unknown(255));
}

#[test]
fn input_source_round_trip_of_every_code() {
    for code in 0..=255u8 {
        let source = InputSource::from_code(code);
        assert_eq!(source.code(), code);
        assert_eq!(InputSource::from_code(source.code()), source);
    }
}

#[test]
fn power_mode_table() {
    let table = [
        (0x01u8, PowerMode::On, "On"),
        (0x02, PowerMode::Standby, "Standby"),
        (0x03, PowerMode::Suspend, "Suspend"),
        (0x04, PowerMode::Off, "Off"),
        (0x05, PowerMode::Normal, "Normal"),
    ];
    for (code, mode, name) in table {
        assert_eq!(PowerMode::from_code(code), mode);
        assert_eq!(mode.code(), code);
        assert_eq!(mode.name(), name);
    }
}

#[test]
fn power_mode_unknown_keeps_the_code() {
    let mode = PowerMode::from_code(99);
    assert_eq!(mode, PowerMode::Unknown(99));
    assert_eq!(mode.code(), 99);
    assert_eq!(mode.name(), "Unknown");
    assert_eq!(PowerMode::from_code(0), PowerMode::Unknown(0));
    assert_eq!(PowerMode::from_code(6), PowerMode::Unknown(6));
}

#[test]
fn power_mode_round_trip_of_every_code() {
    for code in 0..=255u8 {
        let mode = PowerMode::from_code(code);
        assert_eq!(mode.code(), code);
        assert_eq!(PowerMode::from_code(mode.code()), mode);
    }
}

#[test]
fn reply_joins_its_bytes() {
    let reply = VcpReply { kind: 0, max_high: 0x01, max_low: 0x02, value_high: 0x03, value_low: 0x04 };
    assert_eq!(reply.maximum(), 0x0102);
    assert_eq!(reply.value(), 0x0304);
    let reply = VcpReply { kind: 1, max_high: 0xff, max_low: 0xff, value_high: 0, value_low: 0 };
    assert_eq!(reply.maximum(), 65535);
    assert_eq!(reply.value(), 0);
    let reply = VcpReply { kind: 0, max_high: 0, max_low: 100, value_high: 0, value_low: 50 };
    assert_eq!(reply.maximum(), 100);
    assert_eq!(reply.value(), 50);
}

#[test]
fn reply_new_splits_into_bytes() {
    let reply = VcpReply::new(0x1234, 0xabcd);
    assert_eq!(
        reply,
        VcpReply { kind: 0, max_high: 0xab, max_low: 0xcd, value_high: 0x12, value_low: 0x34 }
    );
    assert_eq!(reply.value(), 0x1234);
    assert_eq!(reply.maximum(), 0xabcd);
    for (value, maximum) in [(0u16, 0u16), (255, 256), (65535, 1), (50, 100)] {
        let reply = VcpReply::new(value, maximum);
        assert_eq!(reply.value(), value);
        assert_eq!(reply.maximum(), maximum);
    }
}
