use vstd::prelude::*;

use crate::sysex::{
    name_bytes, name_field_bytes, restore_sysex_byte, restored_byte, NAME_SCAN_LEN,
};
use crate::text::{utf8_lossy, utf8_lossy_text};

verus! {

/// The byte at `pos` with its high bit restored from its carrier byte (see
/// `restored_byte`).
pub fn restore_msb_byte(data: &[u8], pos: usize) -> (r: Option<u8>)
    requires
        pos < data.len(),
    ensures
        r == restored_byte(data@, pos as int),
{
    restore_sysex_byte(data, pos)
}

/// A channel name decoded the 7-bit way: the name (UTF-8, lossily) and its bytes.
pub fn decode_name_msb7(data: &[u8], start: usize) -> (r: (String, Vec<u8>))
    requires
        start < usize::MAX - NAME_SCAN_LEN,
        data.len() < usize::MAX - 2,
    ensures
        r.1@ == name_bytes(data@, start as int),
        r.0@ == utf8_lossy_text(name_bytes(data@, start as int)),
{
    let bytes = name_field_bytes(data, start);
    let name = utf8_lossy(bytes.as_slice());
    (name, bytes)
}

pub open spec fn printable(b: u8) -> bool {
    0x20 <= b <= 0x7E
}

/// The name a naive reading finds from `i` up to `end`: printable bytes are kept, other
/// bytes are skipped while a printable byte follows within two places, else reading stops.
pub open spec fn ascii_skip(d: Seq<u8>, i: int, end: int) -> Seq<char>
    decreases end - i,
{
    if i >= end || i < 0 || i >= d.len() {
        seq![]
    } else if printable(d[i]) {
        seq![d[i] as char] + ascii_skip(d, i + 1, end)
    } else if (i + 1 < d.len() && printable(d[i + 1])) || (i + 2 < d.len() && printable(d[i + 2])) {
        ascii_skip(d, i + 1, end)
    } else {
        seq![]
    }
}

/// A channel name read the naive way, from the 14 bytes at `start`.
pub fn decode_name_ascii_skip(data: &[u8], start: usize) -> (name: String)
    requires
        start < usize::MAX - NAME_SCAN_LEN,
        data.len() < usize::MAX - 2,
    ensures
        name@ == ascii_skip(data@, start as int, if start + NAME_SCAN_LEN < data@.len() { start + NAME_SCAN_LEN } else { data@.len() as int }),
{
    let end = if start + NAME_SCAN_LEN < data.len() { start + NAME_SCAN_LEN } else { data.len() };
    let ghost all = ascii_skip(data@, start as int, end as int);
    let mut chars: Vec<char> = Vec::new();
    let mut i = start;
    while i < end
        invariant
            end <= data@.len(),
            data@.len() < usize::MAX - 2,
            start <= i || end <= start,
            all == chars@ + ascii_skip(data@, i as int, end as int),
        ensures
            all == chars@,
        decreases end - i,
    {
        let b = data[i];
        if 0x20 <= b && b <= 0x7E {
            chars.push(b as char);
            assert(all == chars@ + ascii_skip(data@, i + 1, end as int));
        } else {
            let has_more = (i + 1 < data.len() && 0x20 <= data[i + 1] && data[i + 1] <= 0x7E) || (
            i + 2 < data.len() && 0x20 <= data[i + 2] && data[i + 2] <= 0x7E);
            if !has_more {
                assert(ascii_skip(data@, i as int, end as int) == Seq::<char>::empty());
                assert(all =~= chars@);
                break;
            }
        }
        i = i + 1;
        if i >= end {
            assert(ascii_skip(data@, i as int, end as int) == Seq::<char>::empty());
            assert(all =~= chars@);
        }
    }
    crate::digest::chars_to_string(&chars)
}

} // verus!
