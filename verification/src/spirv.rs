//! SPIR-V binary plumbing: turning a byte stream into the 32-bit words a
//! graphics API consumes, little-endian as the format prescribes.
use vstd::prelude::*;

verus! {

/// The little-endian 32-bit word at byte offset `4k` of `b`.
pub open spec fn le_word(b: Seq<u8>, k: int) -> int {
    b[4 * k] + 256 * (b[4 * k + 1] + 256 * (b[4 * k + 2] + 256 * b[4 * k + 3]))
}

/// Reinterprets a SPIR-V byte stream as its little-endian 32-bit words.
pub fn spirv_to_u32_array(bytes: &[u8]) -> (r: Vec<u32>)
    requires
        bytes@.len() % 4 == 0,
    ensures
        r@.len() == bytes@.len() / 4,
        forall|k: int| 0 <= k < r@.len() ==> (#[trigger] r@[k]) as int == le_word(bytes@, k),
{
    let total = bytes.len();
    let n = total / 4;
    let mut out: Vec<u32> = Vec::new();
    let mut k: usize = 0;
    while k < n
        invariant
            total == bytes@.len(),
            n == bytes@.len() / 4,
            bytes@.len() % 4 == 0,
            k <= n,
            out@.len() == k,
            forall|q: int| 0 <= q < k ==> (#[trigger] out@[q]) as int == le_word(bytes@, q),
        decreases n - k,
    {
        proof {
            assert(bytes@.len() == 4 * (bytes@.len() / 4) + (bytes@.len() % 4));
            assert(4 * (k as int) + 3 < bytes@.len());
        }
        let b0 = bytes[4 * k] as u32;
        let b1 = bytes[4 * k + 1] as u32;
        let b2 = bytes[4 * k + 2] as u32;
        let b3 = bytes[4 * k + 3] as u32;
        let w = b0 + 256 * (b1 + 256 * (b2 + 256 * b3));
        out.push(w);
        k = k + 1;
    }
    out
}

} // verus!
