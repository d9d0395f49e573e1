//! Bounds-checked extraction of a pipe name from the fixed wide-character
//! buffer that the operating system's name-by-handle query fills in.

use vstd::prelude::*;

verus! {

/// Capacity, in wide characters, of the fixed name buffer. Known emulator
/// pipe names are always far shorter than this.
pub const NAME_WIDE_CAPACITY: usize = 2040;

/// How many wide characters of the buffer the reported byte length covers:
/// the byte length divided by the two-byte width of a wide character, never
/// more than the buffer itself holds.
pub open spec fn spec_reported_wide_len(reported_bytes: nat, buf_len: nat) -> nat {
    if reported_bytes / 2 <= buf_len {
        reported_bytes / 2
    } else {
        buf_len
    }
}

/// Slices the reported name out of the fixed buffer. The query reports the
/// name's length in bytes; wide characters are two bytes each, so the name is
/// the first half-that-many entries of the buffer. A report at or past the
/// buffer's capacity is clamped to the buffer, so no length the query could
/// report reads outside it.
pub fn extract_reported_name(buf: &Vec<u16>, reported_bytes: u32) -> (name: Vec<u16>)
    ensures
        name@ == buf@.take(spec_reported_wide_len(reported_bytes as nat, buf@.len()) as int),
        name@.len() <= buf@.len(),
{
    let wide_len: usize = (reported_bytes / 2) as usize;
    let n: usize = if wide_len <= buf.len() {
        wide_len
    } else {
        buf.len()
    };
    let mut name: Vec<u16> = Vec::new();
    let mut i: usize = 0;
    while i < n
        invariant
            i <= n,
            n <= buf@.len(),
            n == spec_reported_wide_len(reported_bytes as nat, buf@.len()),
            name@ == buf@.take(i as int),
        decreases n - i,
    {
        name.push(buf[i]);
        proof {
            assert(name@ == buf@.take(i + 1));
        }
        i = i + 1;
    }
    name
}

} // verus!
