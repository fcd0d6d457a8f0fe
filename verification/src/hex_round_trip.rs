use vstd::prelude::*;

use crate::hexfile::{
    digits_value, find_char, hex_digit, hex_file_bytes, is_white, line_bytes, line_end, lines_bytes,
    next_white_in, token_byte, tokens_bytes_in,
};
use crate::sysex::{ascii_column, chunk_of, hex_column, hex_dump_text, hex_line, hex_lines, line_count};
use crate::text::{ascii_text, digit_char, hex, hex_padded, pad_right, repeat_char};

verus! {

// ── Characters of a hex dump ────────────────────────────────────────────

/// A character of the upper-case hexadecimal notation.
pub open spec fn hex_char(c: char) -> bool {
    ('0' <= c <= '9') || ('A' <= c <= 'F')
}

proof fn lemma_hex_char_facts(c: char)
    requires
        hex_char(c),
    ensures
        !is_white(c),
        c != ':' && c != '|' && c != '\n' && c != '\r' && c != '+',
        hex_digit(c) is Some,
{
}

proof fn lemma_digit_char(d: nat)
    requires
        d < 16,
    ensures
        hex_char(digit_char(d)),
        hex_digit(digit_char(d)) == Some(d),
{
}

proof fn lemma_hex_chars(n: nat)
    ensures
        forall|i: int| 0 <= i < hex(n).len() ==> hex_char(#[trigger] hex(n)[i]),
        digits_value(hex(n)) == Some(n),
        hex(n).len() >= 1,
    decreases n,
{
    if n < 16 {
        lemma_digit_char(n);
        assert(hex(n).drop_last() =~= Seq::<char>::empty());
        assert(digits_value(Seq::<char>::empty()) == Some(0nat));
        assert(hex(n).last() == digit_char(n));
    } else {
        lemma_hex_chars(n / 16);
        lemma_digit_char(n % 16);
        assert(hex(n).drop_last() =~= hex(n / 16));
        assert(hex(n).last() == digit_char(n % 16));
        assert((n / 16) * 16 + n % 16 == n) by (nonlinear_arith);
    }
}

proof fn lemma_zeros_value(k: nat)
    ensures
        digits_value(repeat_char('0', k)) == Some(0nat),
    decreases k,
{
    if k > 0 {
        assert(repeat_char('0', k).drop_last() =~= repeat_char('0', (k - 1) as nat));
        lemma_zeros_value((k - 1) as nat);
    }
}

proof fn lemma_leading_zeros(k: nat, s: Seq<char>)
    ensures
        digits_value(repeat_char('0', k) + s) == digits_value(s),
    decreases s.len(),
{
    if s.len() == 0 {
        assert(repeat_char('0', k) + s =~= repeat_char('0', k));
        lemma_zeros_value(k);
    } else {
        assert((repeat_char('0', k) + s).drop_last() =~= repeat_char('0', k) + s.drop_last());
        lemma_leading_zeros(k, s.drop_last());
    }
}

/// The zero-padded notation of `n`: all hexadecimal characters, read back as `n`.
proof fn lemma_hex_padded(n: nat, w: nat)
    ensures
        forall|i: int| 0 <= i < hex_padded(n, w).len() ==> hex_char(#[trigger] hex_padded(n, w)[i]),
        digits_value(hex_padded(n, w)) == Some(n),
        hex_padded(n, w).len() >= 1,
{
    lemma_hex_chars(n);
    if hex(n).len() < w {
        let z = repeat_char('0', (w - hex(n).len()) as nat);
        lemma_leading_zeros((w - hex(n).len()) as nat, hex(n));
        assert forall|i: int| 0 <= i < hex_padded(n, w).len() implies hex_char(#[trigger] hex_padded(n, w)[i]) by {
            if i < z.len() {
                assert(hex_padded(n, w)[i] == '0');
            } else {
                assert(hex_padded(n, w)[i] == hex(n)[i - z.len()]);
            }
        }
    }
}

/// A byte written with two hexadecimal digits reads back as that byte.
proof fn lemma_byte_token(b: u8)
    ensures
        token_byte(hex_padded(b as nat, 2)) == Some(b),
        forall|i: int| 0 <= i < hex_padded(b as nat, 2).len() ==> hex_char(#[trigger] hex_padded(b as nat, 2)[i]),
        hex_padded(b as nat, 2).len() >= 1,
{
    lemma_hex_padded(b as nat, 2);
    let t = hex_padded(b as nat, 2);
    assert(hex_char(t[0]));
}

// ── Scanning ────────────────────────────────────────────────────────────

proof fn lemma_find_char_at(s: Seq<char>, c: char, i: int, hi: int, m: int)
    requires
        0 <= i <= m <= hi,
        m < hi ==> s[m] == c,
        forall|j: int| i <= j < m ==> s[j] != c,
    ensures
        find_char(s, c, i, hi) == m,
    decreases m - i,
{
    if i < m {
        lemma_find_char_at(s, c, i + 1, hi, m);
    }
}

proof fn lemma_next_white_at(s: Seq<char>, i: int, hi: int, m: int)
    requires
        0 <= i <= m <= hi,
        m < hi ==> is_white(s[m]),
        forall|j: int| i <= j < m ==> !is_white(s[j]),
    ensures
        next_white_in(s, i, hi) == m,
    decreases m - i,
{
    if i < m {
        lemma_next_white_at(s, i + 1, hi, m);
    }
}

/// Where the first white space at or after `i` lies.
proof fn lemma_next_white_props(s: Seq<char>, i: int, hi: int)
    requires
        0 <= i <= hi <= s.len(),
    ensures
        i <= next_white_in(s, i, hi) <= hi,
        next_white_in(s, i, hi) < hi ==> is_white(s[next_white_in(s, i, hi)]),
        forall|j: int| i <= j < next_white_in(s, i, hi) ==> !is_white(s[j]),
    decreases hi - i,
{
    if i < hi && !is_white(s[i]) {
        lemma_next_white_props(s, i + 1, hi);
    }
}

proof fn lemma_tokens_white(s: Seq<char>, i: int, hi: int)
    requires
        0 <= i <= hi <= s.len(),
        forall|j: int| i <= j < hi ==> is_white(#[trigger] s[j]),
    ensures
        tokens_bytes_in(s, i, hi) == Seq::<u8>::empty(),
    decreases hi - i,
{
    if i < hi {
        lemma_tokens_white(s, i + 1, hi);
    }
}

/// The tokens of a range split at a white space character.
proof fn lemma_tokens_split(s: Seq<char>, i: int, m: int, hi: int)
    requires
        0 <= i <= m <= hi <= s.len(),
        m < hi ==> is_white(s[m]),
    ensures
        tokens_bytes_in(s, i, hi) == tokens_bytes_in(s, i, m) + tokens_bytes_in(s, m, hi),
    decreases m - i,
{
    if i == m {
        assert(tokens_bytes_in(s, i, m) == Seq::<u8>::empty());
        assert(tokens_bytes_in(s, i, hi) =~= tokens_bytes_in(s, i, m) + tokens_bytes_in(s, m, hi));
    } else if is_white(s[i]) {
        lemma_tokens_split(s, i + 1, m, hi);
    } else {
        lemma_next_white_props(s, i, hi);
        let k = next_white_in(s, i, hi);
        if k > m {
            assert(!is_white(s[m]));
        }
        assert(k <= m);
        lemma_next_white_props(s, i, m);
        lemma_next_white_at(s, i, m, k);
        lemma_tokens_split(s, k, m, hi);
        assert(tokens_bytes_in(s, i, hi) =~= tokens_bytes_in(s, i, m) + tokens_bytes_in(s, m, hi));
    }
}


/// A byte's two digits followed by nothing but white space read as that byte.
proof fn lemma_single_token(s: Seq<char>, i: int, hi: int, b: u8)
    requires
        0 <= i,
        i + hex_padded(b as nat, 2).len() <= hi <= s.len(),
        forall|j: int| 0 <= j < hex_padded(b as nat, 2).len() ==> s[i + j] == #[trigger] hex_padded(b as nat, 2)[j],
        forall|j: int| i + hex_padded(b as nat, 2).len() <= j < hi ==> is_white(#[trigger] s[j]),
    ensures
        tokens_bytes_in(s, i, hi) == seq![b],
{
    let t = hex_padded(b as nat, 2);
    lemma_byte_token(b);
    let e = i + t.len();
    assert forall|j: int| i <= j < e implies !is_white(s[j]) by {
        assert(s[j] == t[j - i]);
        lemma_hex_char_facts(t[j - i]);
    }
    lemma_next_white_at(s, i, hi, e);
    assert(s.subrange(i, e) =~= t);
    lemma_tokens_white(s, e, hi);
    assert(tokens_bytes_in(s, i, hi) =~= seq![b]);
}

/// The characters of a hex column: digits, and single spaces between the bytes.
proof fn lemma_column_chars(chunk: Seq<u8>)
    ensures
        forall|j: int| 0 <= j < hex_column(chunk).len() ==> hex_char(#[trigger] hex_column(chunk)[j]) || hex_column(chunk)[j] == ' ',
    decreases chunk.len(),
{
    if chunk.len() == 1 {
        lemma_byte_token(chunk[0]);
    } else if chunk.len() > 1 {
        lemma_column_chars(chunk.drop_last());
        lemma_byte_token(chunk.last());
        let c0 = hex_column(chunk.drop_last());
        let h = hex_padded(chunk.last() as nat, 2);
        assert forall|j: int| 0 <= j < hex_column(chunk).len() implies hex_char(#[trigger] hex_column(chunk)[j]) || hex_column(chunk)[j] == ' ' by {
            if j < c0.len() {
                assert(hex_column(chunk)[j] == c0[j]);
            } else if j > c0.len() {
                assert(hex_column(chunk)[j] == h[j - c0.len() - 1]);
            }
        }
    }
}

/// A hex column followed by white space reads back as its bytes.
proof fn lemma_column_tokens(s: Seq<char>, i: int, hi: int, chunk: Seq<u8>)
    requires
        chunk.len() >= 1,
        0 <= i,
        i + hex_column(chunk).len() <= hi <= s.len(),
        forall|j: int| 0 <= j < hex_column(chunk).len() ==> s[i + j] == #[trigger] hex_column(chunk)[j],
        forall|j: int| i + hex_column(chunk).len() <= j < hi ==> is_white(#[trigger] s[j]),
    ensures
        tokens_bytes_in(s, i, hi) == chunk,
    decreases chunk.len(),
{
    let c = hex_column(chunk);
    if chunk.len() == 1 {
        lemma_single_token(s, i, hi, chunk[0]);
        assert(chunk =~= seq![chunk[0]]);
    } else {
        let c0 = hex_column(chunk.drop_last());
        let h = hex_padded(chunk.last() as nat, 2);
        let m = i + c0.len();
        assert(c =~= c0 + seq![' '] + h);
        assert(s[m] == c[c0.len() as int]);
        lemma_tokens_split(s, i, m, hi);
        assert forall|j: int| 0 <= j < c0.len() implies s[i + j] == #[trigger] c0[j] by {
            assert(c[j] == c0[j]);
        }
        lemma_column_tokens(s, i, m, chunk.drop_last());
        assert forall|j: int| 0 <= j < h.len() implies s[m + 1 + j] == #[trigger] h[j] by {
            assert(c[c0.len() + 1 + j] == h[j]);
        }
        lemma_single_token(s, m + 1, hi, chunk.last());
        assert(chunk =~= chunk.drop_last() + seq![chunk.last()]);
    }
}


// ── One line of the dump ────────────────────────────────────────────────

/// The characters of the printable column: none is a line break.
proof fn lemma_ascii_chars(chunk: Seq<u8>)
    ensures
        ascii_text(ascii_column(chunk)).len() == chunk.len(),
        forall|j: int| 0 <= j < chunk.len() ==> 0x20 <= (#[trigger] ascii_text(ascii_column(chunk))[j]) as u32 <= 0x7E,
{
    assert forall|j: int| 0 <= j < chunk.len() implies 0x20 <= (#[trigger] ascii_text(ascii_column(chunk))[j]) as u32 <= 0x7E by {
        let b = ascii_column(chunk)[j];
        assert(0x20 <= b <= 0x7E);
        assert(ascii_text(ascii_column(chunk))[j] == b as char);
    }
}

/// A line of the dump, found in a text at `pos`: it ends at its line break, and its bytes
/// are the chunk it was written from.
proof fn lemma_line(s: Seq<char>, pos: int, off: nat, chunk: Seq<u8>)
    requires
        chunk.len() >= 1,
        0 <= pos,
        pos + hex_line(off, chunk).len() <= s.len(),
        forall|j: int| 0 <= j < hex_line(off, chunk).len() ==> s[pos + j] == #[trigger] hex_line(off, chunk)[j],
    ensures
        line_end(s, pos) == (pos + hex_line(off, chunk).len() - 1, pos + hex_line(off, chunk).len()),
        line_bytes(s, pos, pos + hex_line(off, chunk).len() - 1) == Some(chunk),
{
    reveal_strlit(": ");
    reveal_strlit(" | ");
    reveal_strlit("\n");
    let l = hex_line(off, chunk);
    let hh = hex_padded(off, 4);
    let c = hex_column(chunk);
    let p = pad_right(c, 48);
    let a = ascii_text(ascii_column(chunk));
    let h = hh.len() as int;
    let w = p.len() as int;
    lemma_hex_padded(off, 4);
    lemma_column_chars(chunk);
    lemma_ascii_chars(chunk);
    assert(l =~= hh + seq![':', ' '] + p + seq![' ', '|', ' '] + a + seq!['\n']);
    let n = l.len() as int;
    assert(n == h + 6 + w + a.len());
    assert forall|j: int| 0 <= j < h implies #[trigger] s[pos + j] == hh[j] && hex_char(hh[j]) by {
        assert(l[j] == hh[j]);
    }
    assert(l[h] == ':' && l[h + 1] == ' ');
    assert(s[pos + h] == ':');
    assert(s[pos + h + 1] == ' ');
    assert forall|j: int| 0 <= j < w implies #[trigger] s[pos + h + 2 + j] == p[j] by {
        assert(l[h + 2 + j] == p[j]);
    }
    assert forall|j: int| 0 <= j < w implies hex_char(#[trigger] p[j]) || p[j] == ' ' by {
        if j >= c.len() {
            assert(p[j] == ' ');
        } else {
            assert(p[j] == c[j]);
        }
    }
    assert(l[h + 2 + w] == ' ' && l[h + 3 + w] == '|' && l[h + 4 + w] == ' ' && l[n - 1] == '\n');
    assert(s[pos + h + 2 + w] == ' ');
    assert(s[pos + h + 3 + w] == '|');
    assert(s[pos + h + 4 + w] == ' ');
    assert forall|j: int| 0 <= j < a.len() implies #[trigger] s[pos + h + 5 + w + j] == a[j] by {
        assert(l[h + 5 + w + j] == a[j]);
    }
    assert(s[pos + n - 1] == '\n');

    // The line break.
    assert forall|j: int| pos <= j < pos + n - 1 implies s[j] != '\n' && s[j] != '\r' by {
        let k = j - pos;
        if k < h {
            assert(s[pos + k] == hh[k]);
            lemma_hex_char_facts(hh[k]);
        } else if h + 2 <= k < h + 2 + w {
            assert(s[pos + h + 2 + (k - h - 2)] == p[k - h - 2]);
            if hex_char(p[k - h - 2]) {
                lemma_hex_char_facts(p[k - h - 2]);
            }
        } else if h + 5 + w <= k {
            assert(s[pos + h + 5 + w + (k - h - 5 - w)] == a[k - h - 5 - w]);
        }
    }
    lemma_find_char_at(s, '\n', pos, s.len() as int, pos + n - 1);
    let e = pos + n - 1;
    assert(s[e - 1] != '\r');

    // The '|' and the ':' before it.
    let bar = pos + h + 3 + w;
    assert forall|j: int| pos <= j < bar implies s[j] != '|' && (j != pos + h ==> s[j] != ':') by {
        let k = j - pos;
        if k < h {
            assert(s[pos + k] == hh[k]);
            lemma_hex_char_facts(hh[k]);
        } else if h + 2 <= k < h + 2 + w {
            assert(s[pos + h + 2 + (k - h - 2)] == p[k - h - 2]);
            if hex_char(p[k - h - 2]) {
                lemma_hex_char_facts(p[k - h - 2]);
            }
        }
    }
    lemma_find_char_at(s, '|', pos, e, bar);
    lemma_find_char_at(s, ':', pos, bar, pos + h);
    lemma_find_char_at(s, ':', pos + h + 1, bar, bar);

    // The bytes between them.
    assert forall|j: int| 0 <= j < c.len() implies s[pos + h + 2 + j] == #[trigger] c[j] by {
        assert(s[pos + h + 2 + j] == p[j]);
    }
    assert forall|j: int| pos + h + 2 + c.len() <= j < bar implies is_white(#[trigger] s[j]) by {
        if j < pos + h + 2 + w {
            assert(s[pos + h + 2 + (j - pos - h - 2)] == p[j - pos - h - 2]);
        }
    }
    lemma_column_tokens(s, pos + h + 2, bar, chunk);
    assert(is_white(s[pos + h + 1]));
    assert(tokens_bytes_in(s, pos + h + 1, bar) == tokens_bytes_in(s, pos + h + 2, bar));
}


// ── The whole dump ──────────────────────────────────────────────────────

proof fn lemma_lines_prefix(d: Seq<u8>, k: nat, n: nat)
    requires
        k <= n,
    ensures
        hex_lines(d, k).len() <= hex_lines(d, n).len(),
        forall|j: int| 0 <= j < hex_lines(d, k).len() ==> #[trigger] hex_lines(d, n)[j] == hex_lines(d, k)[j],
    decreases n,
{
    if k < n {
        lemma_lines_prefix(d, k, (n - 1) as nat);
        let prev = hex_lines(d, (n - 1) as nat);
        assert forall|j: int| 0 <= j < hex_lines(d, k).len() implies #[trigger] hex_lines(d, n)[j] == hex_lines(d, k)[j] by {
            assert(hex_lines(d, n)[j] == prev[j]);
        }
    }
}

/// The bytes of `d` from line `k` on.
pub open spec fn bytes_from_line(d: Seq<u8>, k: nat) -> Seq<u8> {
    if k * 16 >= d.len() {
        seq![]
    } else {
        d.subrange((k * 16) as int, d.len() as int)
    }
}

proof fn lemma_lines_read_back(d: Seq<u8>, k: nat)
    requires
        k <= line_count(d),
    ensures
        lines_bytes(hex_dump_text(d), hex_lines(d, k).len() as int) == Some(bytes_from_line(d, k)),
    decreases line_count(d) - k,
{
    let t = hex_dump_text(d);
    let n = line_count(d);
    let pos = hex_lines(d, k).len() as int;
    lemma_lines_prefix(d, k, n);
    if k == n {
        assert(pos == t.len());
        assert(n * 16 >= d.len()) by (nonlinear_arith)
            requires
                n == (d.len() + 15) / 16,
        ;
    } else {
        assert(k * 16 < d.len()) by (nonlinear_arith)
            requires
                k < n,
                n == (d.len() + 15) / 16,
        ;
        let chunk = chunk_of(d, k);
        let l = hex_line(k * 16, chunk);
        assert(hex_lines(d, k + 1) == hex_lines(d, k) + l);
        lemma_lines_prefix(d, k + 1, n);
        assert forall|j: int| 0 <= j < l.len() implies t[pos + j] == #[trigger] l[j] by {
            assert(hex_lines(d, k + 1)[pos + j] == l[j]);
        }
        lemma_line(t, pos, k * 16, chunk);
        lemma_lines_read_back(d, k + 1);
        assert(hex_lines(d, k + 1).len() == pos + l.len());
        assert(chunk + bytes_from_line(d, k + 1) =~= bytes_from_line(d, k));
    }
}

/// A dump written as a hex dump file reads back as the same bytes; the empty dump writes a
/// file that holds no byte, which reads back as nothing.
pub proof fn law_hex_file_round_trip(d: Seq<u8>)
    ensures
        hex_file_bytes(hex_dump_text(d)) == (if d.len() == 0 { None } else { Some(d) }),
{
    lemma_lines_read_back(d, 0);
    assert(hex_lines(d, 0).len() == 0);
    if d.len() > 0 {
        assert(bytes_from_line(d, 0) =~= d);
    }
}

} // verus!
