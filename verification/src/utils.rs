//! Small byte-buffer utilities.

use vstd::prelude::*;

verus! {

/// Copy the first eight bytes (or fewer) of a slice into a fixed array,
/// returning the array and how many bytes were copied.
pub fn slice_to_array_8(slice: &[u8]) -> (r: ([u8; 8], u8))
    ensures
        r.1 == if slice@.len() < 8 {
            slice@.len() as int
        } else {
            8
        },
        forall|i: int| 0 <= i < r.1 ==> r.0@[i] == slice@[i],
        forall|i: int| r.1 <= i < 8 ==> r.0@[i] == 0,
{
    let mut array: [u8; 8] = [0; 8];
    let n: usize = if slice.len() < 8 {
        slice.len()
    } else {
        8
    };
    let mut k: usize = 0;
    while k < n
        invariant
            0 <= k <= n <= 8,
            n <= slice@.len(),
            n == if slice@.len() < 8 {
                slice@.len() as int
            } else {
                8
            },
            forall|i: int| 0 <= i < k ==> array@[i] == slice@[i],
            forall|i: int| k <= i < 8 ==> array@[i] == 0,
        decreases n - k,
    {
        array[k] = slice[k];
        k = k + 1;
    }
    (array, n as u8)
}

} // verus!
