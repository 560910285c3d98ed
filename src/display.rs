use vstd::prelude::*;

verus! {

/// A function-row panel is at least this many times taller than wide in
/// its native (portrait) mode; anything squarer is another display.
pub const MIN_TOUCHBAR_ASPECT: u16 = 30;

/// Whether a display mode of `width` by `height` pixels looks like a
/// function-row panel.
pub fn looks_like_touchbar(width: u16, height: u16) -> (r: bool)
    ensures
        r == (width > 0 && height / width >= MIN_TOUCHBAR_ASPECT),
{
    width > 0 && height / width >= MIN_TOUCHBAR_ASPECT
}

/// Whether bit `i` of `b` is clear: such a bit is painted white in the
/// fallback image.
pub open spec fn bit_clear(b: u8, i: int) -> bool {
    (b as int / vstd::arithmetic::power2::pow2(i as nat) as int) % 2 == 0
}

/// Expands a one-bit-per-pixel fallback image, least significant bit
/// first, into 32-bit pixels: white for a clear bit, black for a set one.
pub fn fallback_pixels(bitmap: &Vec<u8>) -> (r: Vec<u8>)
    requires
        bitmap@.len() * 32 <= usize::MAX,
    ensures
        r@.len() == bitmap@.len() * 32,
        forall|k: int|
            0 <= k < r@.len() ==> #[trigger] r@[k] == if bit_clear(bitmap@[k / 32], (k % 32) / 4) {
                0xffu8
            } else {
                0u8
            },
{
    let mut out: Vec<u8> = Vec::new();
    let mut j: usize = 0;
    while j < bitmap.len()
        invariant
            j <= bitmap@.len(),
            bitmap@.len() * 32 <= usize::MAX,
            out@.len() == j * 32,
            forall|k: int|
                0 <= k < out@.len() ==> #[trigger] out@[k] == if bit_clear(
                    bitmap@[k / 32],
                    (k % 32) / 4,
                ) {
                    0xffu8
                } else {
                    0u8
                },
        decreases bitmap@.len() - j,
    {
        let byte = bitmap[j];
        proof {
            vstd::arithmetic::power2::lemma2_to64();
        }
        let mut i: u32 = 0;
        let mut rest: u8 = byte;
        while i < 8
            invariant
                j < bitmap@.len(),
                byte == bitmap@[j as int],
                i <= 8,
                bitmap@.len() * 32 <= usize::MAX,
                out@.len() == j * 32 + i * 4,
                rest as int == byte as int / vstd::arithmetic::power2::pow2(i as nat) as int,
                forall|k: int|
                    0 <= k < out@.len() ==> #[trigger] out@[k] == if bit_clear(
                        bitmap@[k / 32],
                        (k % 32) / 4,
                    ) {
                        0xffu8
                    } else {
                        0u8
                    },
            decreases 8 - i,
        {
            let color: u8 = if rest % 2 == 0 {
                0xff
            } else {
                0
            };
            let ghost base = out@.len() as int;
            out.push(color);
            out.push(color);
            out.push(color);
            out.push(color);
            proof {
                assert forall|k: int| base <= k < base + 4 implies #[trigger] (k / 32) == j as int
                    && (k % 32) / 4 == i as int by {
                    assert(base == j * 32 + i * 4);
                }
                vstd::arithmetic::power2::lemma_pow2_unfold((i + 1) as nat);
                vstd::arithmetic::power2::lemma_pow2_pos(i as nat);
                vstd::arithmetic::div_mod::lemma_div_denominator(
                    byte as int,
                    vstd::arithmetic::power2::pow2(i as nat) as int,
                    2,
                );
                vstd::arithmetic::power2::lemma_pow2_pos(i as nat);
            }
            rest = rest / 2;
            i = i + 1;
        }
        j = j + 1;
    }
    out
}

} // verus!
