//! The processor description record and the bounded copy that fills its
//! brand field.  Probing the machine happens outside; this owns the record
//! and the copy rule: at most 127 bytes are taken and the result is always
//! NUL-terminated.

use vstd::prelude::*;

verus! {

/// A processor description: core counts, frequency, and a NUL-terminated
/// brand string.
pub struct CpuInfo {
    pub cores: u32,
    pub logical: u32,
    pub freq_mhz: u64,
    pub brand: [u8; 128],
}

/// Number of brand bytes that fit: the buffer less the NUL terminator.
pub open spec fn brand_copy_len(src: Seq<u8>) -> int {
    if src.len() < 127 {
        src.len() as int
    } else {
        127
    }
}

/// Copies a brand string into the fixed buffer: at most 127 bytes, then a
/// NUL terminator; bytes beyond the terminator keep their old values.
pub fn write_brand(dest: &mut [u8; 128], src: &[u8])
    ensures
        forall|i: int| 0 <= i < brand_copy_len(src@) ==> final(dest)@[i] == src@[i],
        final(dest)@[brand_copy_len(src@)] == 0,
        forall|i: int| brand_copy_len(src@) < i < 128 ==> final(dest)@[i] == old(dest)@[i],
{
    let src_len = src.len();
    let n: usize = if src_len < 127 {
        src_len
    } else {
        127
    };
    let mut i: usize = 0;
    while i < n
        invariant
            n == brand_copy_len(src@),
            n <= 127,
            n <= src@.len(),
            i <= n,
            dest@.len() == 128,
            forall|k: int| 0 <= k < i ==> dest@[k] == src@[k],
            forall|k: int| i <= k < 128 ==> dest@[k] == old(dest)@[k],
        decreases n - i,
    {
        dest[i] = src[i];
        i += 1;
    }
    dest[n] = 0;
}


/// Length of the brand string held in the buffer: the bytes before the
/// first NUL, or the whole buffer when no NUL is present.
pub fn brand_len(brand: &[u8; 128]) -> (n: usize)
    ensures
        n <= 128,
        forall|i: int| 0 <= i < n ==> brand@[i] != 0,
        n < 128 ==> brand@[n as int] == 0,
{
    let mut i: usize = 0;
    while i < 128
        invariant
            i <= 128,
            brand@.len() == 128,
            forall|k: int| 0 <= k < i ==> brand@[k] != 0,
        decreases 128 - i,
    {
        if brand[i] == 0 {
            return i;
        }
        i += 1;
    }
    128
}

} // verus!
