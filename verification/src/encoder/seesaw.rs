//! Low-level Seesaw protocol: what a write carries and what a read returns.
//!
//! Multi-byte values travel most significant byte first.

use vstd::prelude::*;

verus! {

/// The bus and the address that the board answers on.
pub struct SeesawDriver<I2C> {
    i2c: I2C,
    address: u8,
}

/// The number that four bytes spell, most significant byte first.
pub open spec fn be_value(bytes: Seq<u8>) -> int {
    bytes[0] * 0x100_0000 + bytes[1] * 0x1_0000 + bytes[2] * 0x100 + bytes[3]
}

/// The unsigned 32-bit number that stands for `v` in two's complement.
pub open spec fn twos_complement(v: int) -> int {
    if v < 0 {
        v + 0x1_0000_0000
    } else {
        v
    }
}

/// Four bytes are determined by the number they spell, and a 32-bit value by
/// its two's complement: a frame has one reading, and a value one frame.
pub proof fn lemma_encoding_is_exact(a: Seq<u8>, b: Seq<u8>, v: i32, w: i32)
    requires
        a.len() == 4,
        b.len() == 4,
    ensures
        0 <= be_value(a) < 0x1_0000_0000,
        be_value(a) == be_value(b) ==> a == b,
        0 <= twos_complement(v as int) < 0x1_0000_0000,
        twos_complement(v as int) == twos_complement(w as int) ==> v == w,
{
    if be_value(a) == be_value(b) {
        assert(a =~= b);
    }
}

impl<I2C> SeesawDriver<I2C> {
    /// Create a driver that owns the bus `i2c` and talks to the 7-bit
    /// address `address`.
    pub fn new(i2c: I2C, address: u8) -> (driver: Self)
        ensures
            driver.spec_address() == address,
            driver.spec_i2c() == i2c,
    {
        Self { i2c, address }
    }

    /// The address that the driver talks to.
    pub closed spec fn spec_address(&self) -> u8 {
        self.address
    }

    /// The bus that the driver owns.
    pub closed spec fn spec_i2c(&self) -> I2C {
        self.i2c
    }

    /// The address that the driver talks to.
    pub fn address(&self) -> (address: u8)
        ensures
            address == self.spec_address(),
    {
        self.address
    }

    /// The bus, for the transfers that the caller makes. The address stays
    /// as it is.
    pub fn i2c_mut(&mut self) -> (i2c: &mut I2C)
        ensures
            *i2c == old(self).spec_i2c(),
            final(self).spec_i2c() == *final(i2c),
            final(self).spec_address() == old(self).spec_address(),
    {
        &mut self.i2c
    }
}

/// The value that four bytes read from a 32-bit register stand for.
pub fn decode_i32(buf: [u8; 4]) -> (value: i32)
    ensures
        twos_complement(value as int) == be_value(buf@),
{
    let unsigned: u32 = buf[0] as u32 * 0x100_0000 + buf[1] as u32 * 0x1_0000 + buf[2] as u32
        * 0x100 + buf[3] as u32;
    if unsigned >= 0x8000_0000 {
        (unsigned as i64 - 0x1_0000_0000) as i32
    } else {
        unsigned as i32
    }
}

/// The bytes of a write that sets a 32-bit register: the register address,
/// then the value.
pub fn encode_write_i32(register: [u8; 2], value: i32) -> (frame: [u8; 6])
    ensures
        frame@.subrange(0, 2) == register@,
        be_value(frame@.subrange(2, 6)) == twos_complement(value as int),
{
    let unsigned: u32 = if value < 0 {
        (value as i64 + 0x1_0000_0000) as u32
    } else {
        value as u32
    };
    let frame = [
        register[0],
        register[1],
        (unsigned / 0x100_0000) as u8,
        ((unsigned / 0x1_0000) % 0x100) as u8,
        ((unsigned / 0x100) % 0x100) as u8,
        (unsigned % 0x100) as u8,
    ];
    assert(frame@.subrange(0, 2) =~= register@);
    frame
}

/// The bytes of a write that sets an 8-bit register: the register address,
/// then the value.
pub fn encode_write_u8(register: [u8; 2], value: u8) -> (frame: [u8; 3])
    ensures
        frame@ == seq![register[0], register[1], value],
{
    let frame = [register[0], register[1], value];
    frame
}

} // verus!
