use vstd::prelude::*;

use crate::text::{
    all_ascii, ascii_text, hex_padded, pad_right, utf8_lossy, utf8_lossy_text,
};

verus! {

pub const SYSEX_START: u8 = 0xF0;

pub const SYSEX_END: u8 = 0xF7;

pub const FLOW8_MODEL: u8 = 0x21;

pub const MIN_DUMP_SIZE: usize = 100;

pub const NAMES_START: usize = 0x0554;

pub const NAMES_STRIDE: usize = 0x1E;

pub const NAME_SCAN_LEN: usize = 14;

pub const LOWCUT_MIN_HZ: u16 = 20;

pub const LOWCUT_MAX_HZ: u16 = 600;

/// A state dump received from the mixer, checked to be a FLOW 8 SysEx message.
#[derive(Debug, Clone)]
pub struct SysExDump {
    pub raw: Vec<u8>,
}

/// A FLOW 8 dump: at least 100 bytes, framed by F0 .. F7, with the Behringer manufacturer
/// id 00 20 32 and the FLOW 8 model byte 21.
pub open spec fn is_flow8_dump(d: Seq<u8>) -> bool {
    &&& d.len() >= MIN_DUMP_SIZE
    &&& d[0] == SYSEX_START
    &&& d[d.len() - 1] == SYSEX_END
    &&& d[1] == 0x00u8
    &&& d[2] == 0x20u8
    &&& d[3] == 0x32u8
    &&& d[4] == FLOW8_MODEL
}

/// Accepts `data` as a dump when it is a FLOW 8 SysEx dump, and copies it.
pub fn validate_sysex_dump(data: &[u8]) -> (r: Option<SysExDump>)
    ensures
        r.is_some() <==> is_flow8_dump(data@),
        r matches Some(d) ==> d.raw@ == data@,
{
    if data.len() < MIN_DUMP_SIZE {
        return None;
    }
    if data[0] != SYSEX_START {
        return None;
    }
    if data[data.len() - 1] != SYSEX_END {
        return None;
    }
    if data[1] != 0x00 || data[2] != 0x20 || data[3] != 0x32 {
        return None;
    }
    if data[4] != FLOW8_MODEL {
        return None;
    }
    Some(SysExDump { raw: vstd::slice::slice_to_vec(data) })
}

/// `b` with its bit 7 set when bit `bit` of `msb` is set.
pub open spec fn with_high_bit(b: u8, msb: u8, bit: u8) -> u8 {
    if msb & (1u8 << bit) != 0 {
        b | 0x80
    } else {
        b
    }
}

fn restore_high_bit(b: u8, msb: u8, bit: u8) -> (r: u8)
    requires
        bit < 8,
    ensures
        r == with_high_bit(b, msb, bit),
{
    if msb & (1u8 << bit) != 0 {
        b | 0x80
    } else {
        b
    }
}

/// The byte at `pos` of a dump with its high bit restored. Every seventh byte (position
/// 5, 12, 19, ...) carries the high bits of the six bytes after it and has no value of
/// its own; bytes whose carrier lies before the dump come back as they are.
pub open spec fn restored_byte(d: Seq<u8>, pos: int) -> Option<u8> {
    let g = (pos + 2) % 7;
    if g == 0 {
        None
    } else if pos < g {
        Some(d[pos])
    } else {
        Some(with_high_bit(d[pos], d[pos - g], (g - 1) as u8))
    }
}

pub fn restore_sysex_byte(data: &[u8], pos: usize) -> (r: Option<u8>)
    requires
        pos < data.len(),
    ensures
        r == restored_byte(data@, pos as int),
{
    let group_pos = (pos % 7 + 2) % 7;
    assert(group_pos == (pos + 2) % 7);
    if group_pos == 0 {
        return None;
    }
    if pos < group_pos {
        return Some(data[pos]);
    }
    let msb_off = pos - group_pos;
    let msb = data[msb_off];
    Some(restore_high_bit(data[pos], msb, (group_pos - 1) as u8))
}

/// The restored bytes of `d` from `start` up to `end`, carriers left out.
pub open spec fn restored_run(d: Seq<u8>, start: int, end: int) -> Seq<u8>
    decreases end - start,
{
    if end <= start {
        seq![]
    } else {
        let prev = restored_run(d, start, end - 1);
        match restored_byte(d, end - 1) {
            Some(b) => prev.push(b),
            None => prev,
        }
    }
}

/// The first position at or after `from` that holds a printable byte (0x20 or above),
/// or the length.
pub open spec fn first_printable(s: Seq<u8>, from: int) -> int
    decreases s.len() - from,
{
    if from >= s.len() {
        s.len() as int
    } else if s[from] >= 0x20 {
        from
    } else {
        first_printable(s, from + 1)
    }
}

/// The first position at or after `from` that holds a zero byte, or the length.
pub open spec fn first_nul(s: Seq<u8>, from: int) -> int
    decreases s.len() - from,
{
    if from >= s.len() {
        s.len() as int
    } else if s[from] == 0 {
        from
    } else {
        first_nul(s, from + 1)
    }
}

proof fn lemma_first_printable_bounds(s: Seq<u8>, from: int)
    requires
        0 <= from <= s.len(),
    ensures
        from <= first_printable(s, from) <= s.len(),
    decreases s.len() - from,
{
    if from < s.len() && s[from] < 0x20 {
        lemma_first_printable_bounds(s, from + 1);
    }
}

proof fn lemma_first_nul_bounds(s: Seq<u8>, from: int)
    requires
        0 <= from <= s.len(),
    ensures
        from <= first_nul(s, from) <= s.len(),
    decreases s.len() - from,
{
    if from < s.len() && s[from] != 0 {
        lemma_first_nul_bounds(s, from + 1);
    }
}

/// The bytes of the channel name stored at `start`: the restored bytes of the
/// 14-byte field, from the first printable byte up to the first zero byte.
pub open spec fn name_bytes(d: Seq<u8>, start: int) -> Seq<u8> {
    let end = if start + NAME_SCAN_LEN < d.len() { start + NAME_SCAN_LEN } else { d.len() as int };
    let run = restored_run(d, start, end);
    let a = first_printable(run, 0);
    run.subrange(a, first_nul(run, a))
}

/// The bytes of the channel name field at `start` (see `name_bytes`).
pub fn name_field_bytes(data: &[u8], start: usize) -> (bytes: Vec<u8>)
    requires
        start < usize::MAX - NAME_SCAN_LEN,
        data.len() < usize::MAX - 2,
    ensures
        bytes@ == name_bytes(data@, start as int),
{
    let end = if start + NAME_SCAN_LEN < data.len() { start + NAME_SCAN_LEN } else { data.len() };
    let mut restored: Vec<u8> = Vec::new();
    let mut i = start;
    while i < end
        invariant
            start <= i <= end || (end < start && i == start),
            end <= data.len(),
            data.len() < usize::MAX - 2,
            restored@ == restored_run(data@, start as int, i as int),
        decreases end - i,
    {
        match restore_sysex_byte(data, i) {
            Some(b) => restored.push(b),
            None => {},
        }
        i = i + 1;
    }
    let ghost run = restored@;
    assert(run == restored_run(data@, start as int, end as int));
    let mut a: usize = 0;
    while a < restored.len() && restored[a] < 0x20
        invariant
            a <= restored.len(),
            first_printable(run, 0) == first_printable(run, a as int),
            restored@ == run,
        decreases restored.len() - a,
    {
        a = a + 1;
    }
    proof { lemma_first_printable_bounds(run, a as int); }
    let mut b: usize = a;
    while b < restored.len() && restored[b] != 0
        invariant
            a <= b <= restored.len(),
            first_nul(run, a as int) == first_nul(run, b as int),
            restored@ == run,
        decreases restored.len() - b,
    {
        b = b + 1;
    }
    proof { lemma_first_nul_bounds(run, b as int); }
    let slice = &restored.as_slice()[a..b];
    assert(slice@ == run.subrange(a as int, b as int));
    vstd::slice::slice_to_vec(slice)
}

/// The channel name stored at `start`, decoded as UTF-8 (lossily).
pub fn decode_sysex_name(data: &[u8], start: usize) -> (name: String)
    requires
        start < usize::MAX - NAME_SCAN_LEN,
        data.len() < usize::MAX - 2,
    ensures
        name@ == utf8_lossy_text(name_bytes(data@, start as int)),
{
    let bytes = name_field_bytes(data, start);
    utf8_lossy(bytes.as_slice())
}

/// The low-cut frequency in Hz stored in two 7-bit bytes at `lo_off` (low) and
/// `hi_off` (high), when both lie inside the dump.
pub open spec fn lowcut_hz(d: Seq<u8>, lo_off: int, hi_off: int) -> Option<u16> {
    if lo_off >= d.len() || hi_off >= d.len() {
        None
    } else {
        Some((d[lo_off] + d[hi_off] * 128) as u16)
    }
}

pub fn decode_lowcut(data: &[u8], param: &LowCutParam) -> (r: Option<u16>)
    ensures
        r == lowcut_hz(data@, param.lo_off as int, param.hi_off as int),
{
    if param.lo_off >= data.len() || param.hi_off >= data.len() {
        return None;
    }
    Some(data[param.lo_off] as u16 + data[param.hi_off] as u16 * 128)
}

/// The MIDI value (0..=127) of a low-cut frequency: 20..=600 Hz mapped linearly onto
/// 0..=127, rounded half up; frequencies outside the range are clamped to it.
pub open spec fn lowcut_cc(hz: u16) -> u8 {
    let c: int = if hz < LOWCUT_MIN_HZ {
        0
    } else if hz > LOWCUT_MAX_HZ {
        580
    } else {
        hz - 20
    };
    ((c * 254 + 580) / 1160) as u8
}

pub fn lowcut_hz_to_cc(hz: u16) -> (cc: u8)
    ensures
        cc == lowcut_cc(hz),
        cc <= 127,
{
    let clamped: u32 = if hz < LOWCUT_MIN_HZ {
        LOWCUT_MIN_HZ as u32
    } else if hz > LOWCUT_MAX_HZ {
        LOWCUT_MAX_HZ as u32
    } else {
        hz as u32
    };
    let c = clamped - 20;
    let cc = (c * 254 + 580) / 1160;
    assert(cc <= 127) by (nonlinear_arith)
        requires
            c <= 580,
            cc == (c * 254 + 580) / 1160,
    ;
    cc as u8
}

/// Where a float parameter sits in the dump: the byte that carries the high bits, the
/// four data bytes (little-endian) and which bit of the carrier belongs to each.
#[derive(Copy, Clone, Debug)]
pub struct FloatParam {
    pub msb_off: usize,
    pub data_offs: [usize; 4],
    pub bit_indices: [u8; 4],
}

/// Where a low-cut frequency sits in the dump.
#[derive(Copy, Clone, Debug)]
pub struct LowCutParam {
    pub lo_off: usize,
    pub hi_off: usize,
}

/// A switch stored as one byte (zero is off, unless inverted).
#[derive(Copy, Clone, Debug)]
pub struct BoolParam {
    pub offset: usize,
    pub inverted: bool,
}

/// Where the parameters of one FX processor sit in the dump.
#[derive(Copy, Clone, Debug)]
pub struct FxSysExLayout {
    pub param1_off: usize,
    pub param2_off: usize,
    pub preset_off: usize,
}

pub open spec fn le_u32(b0: u8, b1: u8, b2: u8, b3: u8) -> u32 {
    (b0 as u32) | ((b1 as u32) << 8u32) | ((b2 as u32) << 16u32) | ((b3 as u32) << 24u32)
}

/// Whether an IEEE 754 single-precision bit pattern is a NaN or an infinity: its
/// exponent bits are all ones.
pub open spec fn is_nan_or_infinite(bits: u32) -> bool {
    (bits >> 23u32) & 0xFFu32 == 0xFFu32
}

pub open spec fn max4(a: [usize; 4]) -> usize {
    let m01 = if a@[0] >= a@[1] { a@[0] } else { a@[1] };
    let m23 = if a@[2] >= a@[3] { a@[2] } else { a@[3] };
    if m01 >= m23 { m01 } else { m23 }
}

pub open spec fn param_bits_ok(p: FloatParam) -> bool {
    forall|i: int| 0 <= i < 4 ==> #[trigger] p.bit_indices@[i] < 8
}

/// The bit pattern of the single-precision float that `p` locates in `d`: each data
/// byte with its high bit restored from the carrier, read little-endian. `None` when a
/// byte lies outside the dump or the pattern is a NaN or an infinity.
pub open spec fn float_bits(d: Seq<u8>, p: FloatParam) -> Option<u32> {
    if p.msb_off >= d.len() || max4(p.data_offs) >= d.len() {
        None
    } else {
        let msb = d[p.msb_off as int];
        let bits = le_u32(
            with_high_bit(d[p.data_offs@[0] as int], msb, p.bit_indices@[0]),
            with_high_bit(d[p.data_offs@[1] as int], msb, p.bit_indices@[1]),
            with_high_bit(d[p.data_offs@[2] as int], msb, p.bit_indices@[2]),
            with_high_bit(d[p.data_offs@[3] as int], msb, p.bit_indices@[3]),
        );
        if is_nan_or_infinite(bits) {
            None
        } else {
            Some(bits)
        }
    }
}

/// Reads the float parameter `param` of a dump as its IEEE 754 bit pattern.
pub fn decode_float_bits(data: &[u8], param: &FloatParam) -> (r: Option<u32>)
    requires
        param_bits_ok(*param),
    ensures
        r == float_bits(data@, *param),
{
    let o = param.data_offs;
    let m01 = if o[0] >= o[1] { o[0] } else { o[1] };
    let m23 = if o[2] >= o[3] { o[2] } else { o[3] };
    let max_off = if m01 >= m23 { m01 } else { m23 };
    if param.msb_off >= data.len() || max_off >= data.len() {
        return None;
    }
    let msb = data[param.msb_off];
    let bi = param.bit_indices;
    assert(bi@[0] < 8 && bi@[1] < 8 && bi@[2] < 8 && bi@[3] < 8);
    let b0 = restore_high_bit(data[o[0]], msb, bi[0]);
    let b1 = restore_high_bit(data[o[1]], msb, bi[1]);
    let b2 = restore_high_bit(data[o[2]], msb, bi[2]);
    let b3 = restore_high_bit(data[o[3]], msb, bi[3]);
    let bits: u32 = (b0 as u32) | ((b1 as u32) << 8u32) | ((b2 as u32) << 16u32) | ((b3 as u32)
        << 24u32);
    if (bits >> 23u32) & 0xFFu32 == 0xFFu32 {
        return None;
    }
    Some(bits)
}

// ── Hex dump text ──────────────────────────────────────────────────────

/// The bytes of `chunk` as two-digit upper-case hex numbers separated by single spaces.
pub open spec fn hex_column(chunk: Seq<u8>) -> Seq<char>
    decreases chunk.len(),
{
    if chunk.len() == 0 {
        seq![]
    } else if chunk.len() == 1 {
        hex_padded(chunk[0] as nat, 2)
    } else {
        hex_column(chunk.drop_last()) + seq![' '] + hex_padded(chunk.last() as nat, 2)
    }
}

/// Printable ASCII bytes as they are, any other byte as '.'.
pub open spec fn ascii_column(chunk: Seq<u8>) -> Seq<u8> {
    chunk.map_values(|b: u8| if 0x20 <= b <= 0x7E { b } else { 0x2Eu8 })
}

/// One line of the hex dump: "OOOO: hh hh .. hh (padded to 48 columns) | ascii".
pub open spec fn hex_line(offset: nat, chunk: Seq<u8>) -> Seq<char> {
    hex_padded(offset, 4) + ": "@ + pad_right(hex_column(chunk), 48) + " | "@ + ascii_text(
        ascii_column(chunk),
    ) + "\n"@
}

/// The `k`-th run of sixteen bytes of `d` (the last may be shorter).
pub open spec fn chunk_of(d: Seq<u8>, k: nat) -> Seq<u8> {
    let start = (k * 16) as int;
    let end = if start + 16 <= d.len() { start + 16 } else { d.len() as int };
    d.subrange(start, end)
}

pub open spec fn line_count(d: Seq<u8>) -> nat {
    ((d.len() + 15) / 16) as nat
}

/// The first `n` lines of the hex dump of `d`.
pub open spec fn hex_lines(d: Seq<u8>, n: nat) -> Seq<char>
    decreases n,
{
    if n == 0 {
        seq![]
    } else {
        hex_lines(d, (n - 1) as nat) + hex_line(((n - 1) * 16) as nat, chunk_of(d, (n - 1) as nat))
    }
}

/// The hex dump of `d`: one line per sixteen bytes, as `hex_line` writes it.
pub open spec fn hex_dump_text(d: Seq<u8>) -> Seq<char> {
    hex_lines(d, line_count(d))
}

proof fn lemma_hex_column_len(chunk: Seq<u8>)
    requires
        chunk.len() >= 1,
    ensures
        hex_column(chunk).len() == 3 * chunk.len() - 1,
    decreases chunk.len(),
{
    assert(crate::text::pow16(2) == 256) by {
        reveal_with_fuel(crate::text::pow16, 3);
    }
    crate::text::lemma_hex_len_bound(chunk.last() as nat, 2);
    if chunk.len() > 1 {
        lemma_hex_column_len(chunk.drop_last());
    }
}

fn push_hex_column(out: &mut String, data: &[u8], start: usize, end: usize)
    requires
        start < end <= data.len(),
    ensures
        final(out)@ == old(out)@ + hex_column(data@.subrange(start as int, end as int)),
{
    let ghost base = old(out)@;
    crate::text::push_hex_padded(out, data[start] as u64, 2);
    assert(data@.subrange(start as int, start + 1).len() == 1);
    assert(hex_column(data@.subrange(start as int, start + 1)) == hex_padded(data@[start as int] as nat, 2));
    let mut j = start + 1;
    while j < end
        invariant
            start < j <= end,
            end <= data.len(),
            out@ == base + hex_column(data@.subrange(start as int, j as int)),
        decreases end - j,
    {
        crate::text::push_spaces(out, 1);
        crate::text::push_hex_padded(out, data[j] as u64, 2);
        let ghost c = data@.subrange(start as int, j + 1);
        assert(c.drop_last() =~= data@.subrange(start as int, j as int));
        assert(c.last() == data@[j as int]);
        assert(crate::text::repeat_char(' ', 1) =~= seq![' ']);
        j = j + 1;
    }
}

fn ascii_column_of(data: &[u8], start: usize, end: usize) -> (s: String)
    requires
        start <= end <= data.len(),
    ensures
        s@ == ascii_text(ascii_column(data@.subrange(start as int, end as int))),
{
    let mut bytes: Vec<u8> = Vec::new();
    let mut j = start;
    while j < end
        invariant
            start <= j <= end,
            end <= data.len(),
            bytes@ == ascii_column(data@.subrange(start as int, j as int)),
        decreases end - j,
    {
        let b = data[j];
        if 0x20 <= b && b <= 0x7E {
            bytes.push(b);
        } else {
            bytes.push(0x2E);
        }
        assert(bytes@ =~= ascii_column(data@.subrange(start as int, j + 1)));
        j = j + 1;
    }
    assert(all_ascii(bytes@));
    crate::text::ascii_string(&bytes)
}

fn push_hex_line(out: &mut String, data: &[u8], k: usize)
    requires
        k < line_count(data@),
        data.len() < usize::MAX - 16,
    ensures
        final(out)@ == old(out)@ + hex_line((k * 16) as nat, chunk_of(data@, k as nat)),
{
    let start = k * 16;
    let end = if start + 16 <= data.len() { start + 16 } else { data.len() };
    let ghost chunk = data@.subrange(start as int, end as int);
    let ghost before = out@;
    crate::text::push_hex_padded(out, start as u64, 4);
    out.append(": ");
    let ghost after_offset = out@;
    push_hex_column(out, data, start, end);
    let ghost after_column = out@;
    proof { lemma_hex_column_len(chunk); }
    let col_len = 3 * (end - start) - 1;
    if col_len < 48 {
        crate::text::push_spaces(out, 48 - col_len);
    }
    assert(out@ == after_offset + pad_right(hex_column(chunk), 48));
    out.append(" | ");
    let ascii = ascii_column_of(data, start, end);
    out.append(ascii.as_str());
    out.append("\n");
    proof {
        reveal_strlit(": ");
        reveal_strlit(" | ");
        reveal_strlit("\n");
    }
    assert(out@ =~= before + hex_line((k * 16) as nat, chunk));
}

/// The hex dump of `data`, sixteen bytes a line, each line "OOOO: hex bytes | ascii".
pub fn format_hex_dump(data: &[u8]) -> (s: String)
    requires
        data.len() < usize::MAX - 16,
    ensures
        s@ == hex_dump_text(data@),
{
    let mut out = String::new();
    let mut k: usize = 0;
    let n = (data.len() + 15) / 16;
    while k < n
        invariant
            k <= n,
            n == line_count(data@),
            data.len() < usize::MAX - 16,
            out@ == hex_lines(data@, k as nat),
        decreases n - k,
    {
        push_hex_line(&mut out, data, k);
        k = k + 1;
    }
    out
}


/// A dump is taken as the mixer's exactly when it is a SysEx message (F0 first, F7 last)
/// of at least 100 bytes from Behringer (00 20 32) for the FLOW 8 (model 21).
pub proof fn law_flow8_dump_shape(d: Seq<u8>)
    ensures
        is_flow8_dump(d) <==> (d.len() >= 100 && d.take(5) == seq![0xF0u8, 0x00, 0x20, 0x32, 0x21] && d.last() == 0xF7),
{
    if d.len() >= 100 {
        if is_flow8_dump(d) {
            assert(d.take(5) =~= seq![0xF0u8, 0x00, 0x20, 0x32, 0x21]);
        }
        if d.take(5) == seq![0xF0u8, 0x00, 0x20, 0x32, 0x21] {
            assert(d[0] == d.take(5)[0] && d[1] == d.take(5)[1] && d[2] == d.take(5)[2] && d[3] == d.take(5)[3] && d[4] == d.take(5)[4]);
        }
    }
}
} // verus!
