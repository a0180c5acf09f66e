use vstd::prelude::*;

use crate::fault::LoadError;

verus! {

/// The `j`-th word of a raw image: bytes `4j .. 4j+4` read in big-endian
/// order.
pub open spec fn word_at(bs: Seq<u8>, j: int) -> u32 {
    ((bs[4 * j] as u32) << 24) | ((bs[4 * j + 1] as u32) << 16) | ((bs[4 * j + 2] as u32) << 8)
        | (bs[4 * j + 3] as u32)
}

/// Group a raw image into 32-bit big-endian words. Succeeds exactly when
/// the byte count is a multiple of 4; an empty image yields an empty
/// program.
pub fn load_image(bytes: &Vec<u8>) -> (r: Result<Vec<u32>, LoadError>)
    ensures
        match r {
            Ok(words) => {
                &&& bytes@.len() % 4 == 0
                &&& words@.len() == bytes@.len() / 4
                &&& forall|j: int| 0 <= j < words@.len() ==> words@[j] == word_at(bytes@, j)
            },
            Err(e) => e == LoadError::BadImage && bytes@.len() % 4 != 0,
        },
{
    if bytes.len() % 4 != 0 {
        return Err(LoadError::BadImage);
    }
    let len: usize = bytes.len();
    let n: usize = len / 4;
    let mut words: Vec<u32> = Vec::new();
    let mut i: usize = 0;
    let mut base: usize = 0;
    while i < n
        invariant
            len == bytes@.len(),
            len % 4 == 0,
            n == len / 4,
            i <= n,
            base == 4 * i,
            words@.len() == i,
            forall|j: int| 0 <= j < i ==> words@[j] == word_at(bytes@, j),
        decreases n - i,
    {
        proof {
            assert(4 * (n as int) <= len);
            assert(base + 3 < len);
        }
        let w: u32 = ((bytes[base] as u32) << 24) | ((bytes[base + 1] as u32) << 16) | ((bytes[
            base + 2] as u32) << 8) | (bytes[base + 3] as u32);
        words.push(w);
        i = i + 1;
        base = base + 4;
    }
    Ok(words)
}

} // verus!
