use automap::template::{
    cnports, ChannelSpec, ControlType, DisplayType, PortBits, PortRoute, PortType,
};

#[test]
fn channel_spec_bytes() {
    assert_eq!(ChannelSpec::Common.to_byte(), 0x00);
    assert_eq!(ChannelSpec::Keyboard.to_byte(), 0x20);
    assert_eq!(ChannelSpec::Channel(1).to_byte(), 0x40);
    assert_eq!(ChannelSpec::Channel(16).to_byte(), 0x4F);
}

#[test]
fn channel_spec_from_byte() {
    assert_eq!(ChannelSpec::from_byte(0x00), Some(ChannelSpec::Common));
    assert_eq!(ChannelSpec::from_byte(0x20), Some(ChannelSpec::Keyboard));
    assert_eq!(ChannelSpec::from_byte(0x40), Some(ChannelSpec::Channel(1)));
    assert_eq!(ChannelSpec::from_byte(0x4F), Some(ChannelSpec::Channel(16)));
    assert_eq!(ChannelSpec::from_byte(0x50), None);
    assert_eq!(ChannelSpec::from_byte(0x60), None);
    assert_eq!(ChannelSpec::from_byte(0x1F), None);
}

#[test]
fn channel_spec_roundtrip() {
    for n in 1..=16u8 {
        let c = ChannelSpec::Channel(n);
        assert_eq!(ChannelSpec::from_byte(c.to_byte()), Some(c));
    }
}

#[test]
fn cnports_masks_low_bits() {
    // M1 out + USB1 under the Specific selector.
    let bits = PortBits::m1_out().union(PortBits::usb1());
    assert_eq!(cnports(PortType::Specific, bits), 0x45);
    assert_eq!(PortBits::m2_out().bits(), 0x02);
    assert_eq!(PortBits::usb2().bits(), 0x08);
    assert_eq!(PortBits::usb3_hidden().bits(), 0x10);
    assert_eq!(cnports(PortType::Keyboard, PortBits::from_bits(0)), 0x20);
    // Bits above the five-port field are masked away.
    assert_eq!(cnports(PortType::Common, PortBits::from_bits(0xFF)), 0x1F);
    assert_eq!(PortBits::from_bits(0x05).intersection(PortBits::from_bits(0x04)).bits(), 0x04);
}

#[test]
fn template_table_codes() {
    assert_eq!(ControlType::Spare.code(), 0);
    assert_eq!(ControlType::CC.code(), 1);
    assert_eq!(ControlType::TempGroup.code(), 14);
    assert_eq!(DisplayType::Ft127.code(), 0);
    assert_eq!(DisplayType::FtOffOn.code(), 3);
    assert_eq!(DisplayType::FtLabel2.code(), 15);
    assert_eq!(DisplayType::FtVpot.code(), 17);
    assert_eq!(PortRoute::NoTransmit.code(), 0x40);
    assert_eq!(PortRoute::Usb1AndUsb3.code(), 0x54);
}
