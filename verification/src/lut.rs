//! Synthetic lookup-table data.

use vstd::prelude::*;

verus! {

/// The number of samples of a lookup table: 256 rows of 256.
pub const LUT_LEN: usize = 65536;

/// The sample at position `i` of the generated table: `i` reduced modulo the
/// largest 16-bit value, so the table rises from 0 to 65534 and ends in 0.
pub open spec fn lut_sample(i: int) -> u16 {
    (i % 65535) as u16
}

/// Generates the lookup table that maps every sample to itself (and the
/// largest to 0).
pub fn generate_lut_data() -> (data: Vec<u16>)
    ensures
        data@.len() == LUT_LEN,
        forall|i: int| 0 <= i < LUT_LEN ==> data@[i] == lut_sample(i),
{
    let mut data: Vec<u16> = Vec::with_capacity(LUT_LEN);
    let mut i: usize = 0;
    while i < LUT_LEN
        invariant
            i <= LUT_LEN,
            data@.len() == i,
            forall|j: int| 0 <= j < i ==> data@[j] == lut_sample(j),
        decreases LUT_LEN - i,
    {
        let sample: usize = i % 65535;
        data.push(sample as u16);
        i += 1;
    }
    data
}

} // verus!
