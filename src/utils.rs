use vstd::prelude::*;

verus! {

/// Fewest characters in an identifier name.
pub const NAME_MIN: usize = 1;

/// Most characters in an identifier name.
pub const NAME_MAX: usize = 4;

/// The format marker `1000` at bits 76-79 and the variant marker at bit 63.
pub const UUID_V8_MASK: u128 = 0x0000_0000_0000_8000_8000_0000_0000_0000;

/// The structural bits of an identifier: both markers, and the two-bit
/// variant selector at bits 60-61.
pub open spec fn metadata_mask_spec(variant: u8) -> u128 {
    UUID_V8_MASK | (variant as u128) << 60
}

pub fn metadata_mask(variant: u8) -> (r: u128)
    requires
        variant < 4,
    ensures
        r == metadata_mask_spec(variant),
{
    let variant = variant as u128;
    UUID_V8_MASK | variant << 60
}

} // verus!
