use vstd::prelude::*;

verus! {

/// Reference voltage of the MCP3002 board, in millivolts.
pub const MCP3002_REFERENCE_MILLIVOLTS: u32 = 3300;

/// First byte of a conversion request to an MCP3002: start bit, the
/// single-ended flag (set unless `is_differential`), then the channel bit.
pub open spec fn request_byte(pin: u8, is_differential: bool) -> int {
    64 + (if is_differential { 0int } else { 32int }) + pin * 16
}

/// The ten-bit result in a two-byte reply: the two low bits of the first
/// byte, then the second byte.
pub open spec fn reply_value(b0: u8, b1: u8) -> int {
    (b0 % 4) * 256 + b1
}

/// An SPI bus and the chip-select line of one converter on it.
#[derive(Debug)]
pub struct SPIDevice<SPI, CS> {
    pub spi: SPI,
    pub cs: CS,
}

impl<SPI, CS> SPIDevice<SPI, CS> {
    /// A device on `spi`, selected by `cs`.
    pub fn new(spi: SPI, cs: CS) -> (r: Self)
        ensures
            r.spi == spi,
            r.cs == cs,
    {
        SPIDevice { spi, cs }
    }

    /// The two bytes that request a conversion on `pin`.
    pub fn request(pin: u8, is_differential: bool) -> (r: [u8; 2])
        requires
            pin < 2,
        ensures
            r@[0] == request_byte(pin, is_differential),
            r@[1] == 0,
            r@.len() == 2,
    {
        let single: u8 = if is_differential { 0 } else { 1 };
        let first: u8 = 0x40 | (single << 5) | (pin << 4);
        assert(first == 64 + single * 32 + pin * 16) by (bit_vector)
            requires
                pin < 2,
                single < 2,
                first == 0x40u8 | (single << 5u8) | (pin << 4u8),
        ;
        [first, 0x00]
    }

    /// The conversion result in a reply.
    pub fn value(reply: [u8; 2]) -> (r: u16)
        ensures
            r == reply_value(reply@[0], reply@[1]),
            r < 1024,
    {
        let b0: u8 = reply[0];
        let b1: u8 = reply[1];
        let v: u16 = ((b0 & 0x03) as u16) << 8 | b1 as u16;
        assert(v == (b0 % 4) * 256 + b1 && v < 1024) by (bit_vector)
            requires
                v == ((b0 & 0x03u8) as u16) << 8u16 | b1 as u16,
        ;
        v
    }
}

/// A two-channel, ten-bit MCP3002 converter.
#[derive(Debug)]
pub struct MCP3002<SPI, CS> {
    pub spi: SPIDevice<SPI, CS>,
}

impl<SPI, CS> MCP3002<SPI, CS> {
    /// A converter on `spi`, selected by `cs`.
    pub fn new(spi: SPI, cs: CS) -> (r: Self)
        ensures
            r.spi.spi == spi,
            r.spi.cs == cs,
    {
        MCP3002 { spi: SPIDevice::new(spi, cs) }
    }

    /// The channel setting of a differential pair: `(0, 1)` is setting 0,
    /// `(1, 0)` is setting 1, and no other pair is wired.
    pub fn diff_pin_setting(positive: u8, negative: u8) -> (r: Option<u8>)
        ensures
            r == if positive == 0 && negative == 1 {
                Some(0u8)
            } else if positive == 1 && negative == 0 {
                Some(1u8)
            } else {
                None::<u8>
            },
    {
        if positive == 0 && negative == 1 {
            Some(0)
        } else if positive == 1 && negative == 0 {
            Some(1)
        } else {
            None
        }
    }
}

/// The channel setting of an analog input: the positive pin when it is
/// single-ended, else the setting of the differential pair, `None` for a
/// pair that is not wired.
pub fn analog_pin_setting(positive_pin: u8, negative_pin: Option<u8>) -> (r: Option<u8>)
    ensures
        negative_pin is None ==> r == Some(positive_pin),
        negative_pin matches Some(n) ==> r == if positive_pin == 0 && n == 1 {
            Some(0u8)
        } else if positive_pin == 1 && n == 0 {
            Some(1u8)
        } else {
            None::<u8>
        },
{
    match negative_pin {
        None => Some(positive_pin),
        Some(n) => MCP3002::<(), ()>::diff_pin_setting(positive_pin, n),
    }
}

/// A ten-bit result scaled to sixteen bits.
pub fn analog_value(raw: u16) -> (r: u16)
    requires
        raw < 1024,
    ensures
        r == raw * 64,
{
    let r: u16 = raw << 6;
    assert(r == raw * 64) by (bit_vector)
        requires
            raw < 1024,
            r == raw << 6u16,
    ;
    r
}

} // verus!
