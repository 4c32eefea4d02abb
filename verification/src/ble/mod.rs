//! What the pipeline shares with the wireless link: the device address, the
//! report that goes to the host, and the messages that one half of the
//! keyboard sends to the other.

use vstd::prelude::*;

pub mod peripheral;
pub mod services;

verus! {

/// The 48-bit device address in a 64-bit word: the first identifier word above
/// the second, with the two top bits of the address set, which mark a static
/// random address.
pub open spec fn device_address_word(addr_0: u32, addr_1: u32) -> u64 {
    ((addr_0 as u64) << 32) | (addr_1 as u64) | 0x0000_c000_0000_0000u64
}

/// Byte `i` of a 64-bit word, the lowest byte first.
pub open spec fn word_byte(word: u64, i: int) -> u8 {
    ((word >> ((8 * i) as u64)) & 0xff) as u8
}

/// Makes the device address from the two identifier words of the chip: the
/// six low bytes of the address word, the lowest first.
pub fn get_device_address(addr_0: u32, addr_1: u32) -> (address: [u8; 6])
    ensures
        forall|i: int|
            0 <= i < 6 ==> address@[i] == word_byte(device_address_word(addr_0, addr_1), i),
{
    let high: u64 = addr_0 as u64;
    let addr: u64 = (high << 32) | (addr_1 as u64);
    let addr: u64 = addr | 0x0000_c000_0000_0000u64;
    let address = [
        (addr & 0xff) as u8,
        ((addr >> 8) & 0xff) as u8,
        ((addr >> 16) & 0xff) as u8,
        ((addr >> 24) & 0xff) as u8,
        ((addr >> 32) & 0xff) as u8,
        ((addr >> 40) & 0xff) as u8,
    ];
    assert(addr >> 0 == addr) by (bit_vector);
    address
}

/// The address is a static random one: the two top bits of its last byte are
/// set. Its first four bytes are those of the second identifier word.
pub proof fn lemma_device_address(addr_0: u32, addr_1: u32)
    ensures
        word_byte(device_address_word(addr_0, addr_1), 5) & 0xc0 == 0xc0,
        word_byte(device_address_word(addr_0, addr_1), 0) == (addr_1 & 0xff) as u8,
        word_byte(device_address_word(addr_0, addr_1), 1) == ((addr_1 >> 8) & 0xff) as u8,
        word_byte(device_address_word(addr_0, addr_1), 2) == ((addr_1 >> 16) & 0xff) as u8,
        word_byte(device_address_word(addr_0, addr_1), 3) == ((addr_1 >> 24) & 0xff) as u8,
        word_byte(device_address_word(addr_0, addr_1), 4) == (addr_0 & 0xff) as u8,
{
    assert(((((((addr_0 as u64) << 32) | (addr_1 as u64) | 0x0000_c000_0000_0000u64) >> 40u64)
        & 0xff) as u8) & 0xc0 == 0xc0) by (bit_vector);
    assert((((((addr_0 as u64) << 32) | (addr_1 as u64) | 0x0000_c000_0000_0000u64) >> 0u64)
        & 0xff) as u8 == (addr_1 & 0xff) as u8) by (bit_vector);
    assert((((((addr_0 as u64) << 32) | (addr_1 as u64) | 0x0000_c000_0000_0000u64) >> 8u64)
        & 0xff) as u8 == ((addr_1 >> 8) & 0xff) as u8) by (bit_vector);
    assert((((((addr_0 as u64) << 32) | (addr_1 as u64) | 0x0000_c000_0000_0000u64) >> 16u64)
        & 0xff) as u8 == ((addr_1 >> 16) & 0xff) as u8) by (bit_vector);
    assert((((((addr_0 as u64) << 32) | (addr_1 as u64) | 0x0000_c000_0000_0000u64) >> 24u64)
        & 0xff) as u8 == ((addr_1 >> 24) & 0xff) as u8) by (bit_vector);
    assert((((((addr_0 as u64) << 32) | (addr_1 as u64) | 0x0000_c000_0000_0000u64) >> 32u64)
        & 0xff) as u8 == (addr_0 & 0xff) as u8) by (bit_vector);
}

} // verus!
