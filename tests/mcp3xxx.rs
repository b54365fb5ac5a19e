use juicelib::mcp3xxx::{analog_pin_setting, analog_value, SPIDevice, MCP3002};

#[test]
fn device_keeps_its_bus_and_select_line() {
    let device = SPIDevice::new(3u8, 'c');
    assert_eq!(device.spi, 3);
    assert_eq!(device.cs, 'c');
    let adc = MCP3002::new(4u8, 'd');
    assert_eq!(adc.spi.spi, 4);
}

#[test]
fn request_bytes() {
    assert_eq!(SPIDevice::<(), ()>::request(0, false), [0x60, 0x00]);
    assert_eq!(SPIDevice::<(), ()>::request(1, false), [0x70, 0x00]);
    assert_eq!(SPIDevice::<(), ()>::request(0, true), [0x40, 0x00]);
    assert_eq!(SPIDevice::<(), ()>::request(1, true), [0x50, 0x00]);
}

#[test]
fn reply_decodes_full_scale() {
    assert_eq!(SPIDevice::<(), ()>::value([0x03, 0xFF]), 1023);
    assert_eq!(SPIDevice::<(), ()>::value([0xFE, 0x01]), 0x201);
    assert_eq!(analog_value(1023), 65472);
}

#[test]
fn pin_settings() {
    assert_eq!(analog_pin_setting(0, None), Some(0));
    assert_eq!(analog_pin_setting(1, None), Some(1));
    assert_eq!(analog_pin_setting(0, Some(1)), Some(0));
    assert_eq!(analog_pin_setting(1, Some(0)), Some(1));
    assert_eq!(analog_pin_setting(1, Some(1)), None);
    assert_eq!(MCP3002::<(), ()>::diff_pin_setting(0, 0), None);
}
