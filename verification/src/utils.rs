use vstd::prelude::*;

verus! {

/// Sets the bits of `mask` in `byte` when `value` holds and clears them
/// otherwise; every other bit of `byte` is kept.
#[verifier::allow_in_spec]
pub fn set_bit(byte: u8, mask: u8, value: bool) -> u8
    returns
        (if value {
            byte | mask
        } else {
            byte & !mask
        }),
{
    if value {
        byte | mask
    } else {
        byte & !mask
    }
}

/// The bits of `mask` read back as `value` after `set_bit`, no bit outside
/// `mask` moves, and a second `set_bit` on the same mask replaces the first.
pub proof fn lemma_set_bit(byte: u8, mask: u8, value: bool)
    ensures
        value ==> set_bit(byte, mask, value) & mask == mask,
        !value ==> set_bit(byte, mask, value) & mask == 0,
        set_bit(byte, mask, value) & !mask == byte & !mask,
        forall|other: u8| other & mask == 0 ==> #[trigger] (set_bit(byte, mask, value) & other) == byte & other,
        forall|next: bool| #[trigger] set_bit(set_bit(byte, mask, value), mask, next) == set_bit(byte, mask, next),
{
    lemma_mask_bits(byte, mask);
}

proof fn lemma_mask_bits(byte: u8, mask: u8)
    by (bit_vector)
    ensures
        (byte | mask) & mask == mask,
        (byte & !mask) & mask == 0,
        (byte | mask) & !mask == byte & !mask,
        (byte & !mask) & !mask == byte & !mask,
        forall|other: u8| other & mask == 0 ==> #[trigger] ((byte | mask) & other) == byte & other,
        forall|other: u8| other & mask == 0 ==> #[trigger] ((byte & !mask) & other) == byte & other,
        (byte | mask) | mask == byte | mask,
        (byte | mask) & !mask == byte & !mask,
        (byte & !mask) | mask == byte | mask,
{
}

} // verus!
