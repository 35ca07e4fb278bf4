use vstd::prelude::*;

verus! {

/// Bit 7 of a byte: the sign bit when the byte is read as signed.
pub const SIGN_BITMASK: u8 = 0x80;

/// The byte, read as a signed two's-complement number, is negative.
pub open spec fn spec_is_negative(byte: u8) -> bool {
    byte >= 0x80
}

/// The 16-bit word whose high byte is `high` and low byte is `low`.
pub open spec fn spec_concat_bytes(high: u8, low: u8) -> u16 {
    (high as int * 256 + low as int) as u16
}

/// `base_address` moved by the signed `displacement`, modulo 2^16.
pub open spec fn spec_add_relative(base_address: u16, displacement: i8) -> u16 {
    ((base_address as int + displacement as int + 0x10000) % 0x10000) as u16
}

/// Checks if an unsigned number would be negative if it was signed, by
/// testing bit 7.
pub fn is_negative(byte: u8) -> (r: bool)
    ensures
        r == spec_is_negative(byte),
{
    let r = byte & SIGN_BITMASK == SIGN_BITMASK;
    assert(r == (byte >= 0x80)) by (bit_vector)
        requires
            r == (byte & 0x80u8 == 0x80u8),
    ;
    r
}

/// Combines high and low bytes into a u16.
pub fn concat_bytes(high: u8, low: u8) -> (r: u16)
    ensures
        r == spec_concat_bytes(high, low),
        r as int == high as int * 256 + low as int,
{
    let r = ((high as u16) << 8u16) | (low as u16);
    assert(r == high as int * 256 + low as int) by (bit_vector)
        requires
            r == ((high as u16) << 8u16) | (low as u16),
    ;
    r
}

/// Adds a signed displacement to an address, wrapping around the 16-bit
/// address space. Used by relative addressing, which branches forwards or
/// backwards.
pub fn add_relative(base_address: u16, displacement: i8) -> (r: u16)
    ensures
        r == spec_add_relative(base_address, displacement),
{
    if displacement < 0 {
        let magnitude: u16 = (0i16 - displacement as i16) as u16;
        base_address.wrapping_sub(magnitude)
    } else {
        base_address.wrapping_add(displacement as u16)
    }
}

/// Adding a displacement and then its negation gives back the address (the
/// displacement -128 has no negation in i8 and is left out).
pub proof fn lemma_add_relative_inverse(base_address: u16, displacement: i8)
    requires
        displacement != -128,
    ensures
        spec_add_relative(spec_add_relative(base_address, displacement), (-displacement) as i8)
            == base_address,
{
}

/// The high byte of a concatenated word is its page and the low byte is
/// what remains modulo 256.
pub proof fn lemma_concat_bytes_split(high: u8, low: u8)
    ensures
        spec_concat_bytes(high, low) as int / 256 == high,
        spec_concat_bytes(high, low) as int % 256 == low,
{
}

} // verus!
