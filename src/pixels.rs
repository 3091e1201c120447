use vstd::prelude::*;
use vstd::arithmetic::mul::lemma_mul_inequality;

verus! {

/// Bytes per pixel in the display buffer: red, green, blue, alpha.
pub const BYTES_PER_PIXEL: usize = 4;

/// Alpha written for every pixel of the display buffer.
pub const OPAQUE: u8 = 255;

/// Slot of the sample at column `i` and row `j`, rows counted upward from the
/// bottom of the image, in a row-major buffer whose first row is the top row.
pub open spec fn slot_spec(width: nat, height: nat, i: nat, j: nat) -> nat {
    ((height - 1 - j) as nat) * width + i
}

/// Whether `width * height` pixels of four bytes each fit in memory.
pub open spec fn dims_fit(width: nat, height: nat) -> bool {
    width * height * BYTES_PER_PIXEL <= usize::MAX
}

/// The buffer slot that receives the sample at column `i`, row `j` (bottom-up).
pub fn slot_of(width: usize, height: usize, i: usize, j: usize) -> (r: usize)
    requires
        i < width,
        j < height,
        dims_fit(width as nat, height as nat),
    ensures
        r == slot_spec(width as nat, height as nat, i as nat, j as nat),
        r < width * height,
{
    let row = height - 1 - j;
    proof {
        assert(row * width + i < width * height) by (nonlinear_arith)
            requires
                row < height,
                i < width,
        ;
        assert(width * height <= width * height * BYTES_PER_PIXEL) by (nonlinear_arith);
    }
    row * width + i
}

/// Distinct samples land in distinct slots: no pixel of the image receives
/// another pixel's contribution.
pub proof fn lemma_slot_injective(width: nat, height: nat, i1: nat, j1: nat, i2: nat, j2: nat)
    requires
        i1 < width,
        i2 < width,
        j1 < height,
        j2 < height,
        slot_spec(width, height, i1, j1) == slot_spec(width, height, i2, j2),
    ensures
        i1 == i2,
        j1 == j2,
{
    let r1 = (height - 1 - j1) as nat;
    let r2 = (height - 1 - j2) as nat;
    if r1 < r2 {
        lemma_mul_inequality((r1 + 1) as int, r2 as int, width as int);
        assert((r1 + 1) * width == r1 * width + width) by (nonlinear_arith);
    } else if r2 < r1 {
        lemma_mul_inequality((r2 + 1) as int, r1 as int, width as int);
        assert((r2 + 1) * width == r2 * width + width) by (nonlinear_arith);
    }
}

/// A display buffer of `width * height` black, transparent pixels.
pub fn new_display(width: usize, height: usize) -> (bytes: Vec<u8>)
    requires
        dims_fit(width as nat, height as nat),
    ensures
        bytes@.len() == width * height * BYTES_PER_PIXEL,
        forall|k: int| 0 <= k < bytes@.len() ==> bytes@[k] == 0,
{
    let len = width * height * BYTES_PER_PIXEL;
    let mut bytes: Vec<u8> = Vec::with_capacity(len);
    let mut n: usize = 0;
    while n < len
        invariant
            n <= len,
            bytes@.len() == n,
            forall|k: int| 0 <= k < n ==> bytes@[k] == 0,
        decreases len - n,
    {
        bytes.push(0);
        n = n + 1;
    }
    bytes
}

/// Writes the color `(r, g, b)` with full alpha into the four bytes of `slot`,
/// leaving every other byte as it was.
pub fn write_pixel(bytes: &mut Vec<u8>, slot: usize, r: u8, g: u8, b: u8)
    requires
        slot * 4 + 4 <= old(bytes)@.len(),
    ensures
        final(bytes)@ == old(bytes)@.update(slot * 4, r).update(slot * 4 + 1, g).update(
            slot * 4 + 2,
            b,
        ).update(slot * 4 + 3, OPAQUE),
{
    let len = bytes.len();
    let base = slot * 4;
    bytes.set(base, r);
    bytes.set(base + 1, g);
    bytes.set(base + 2, b);
    bytes.set(base + 3, OPAQUE);
}

} // verus!
