use vstd::prelude::*;

verus! {

// ── Characters and tokens ───────────────────────────────────────────────

/// Unicode's White_Space characters (what `char::is_whitespace` accepts).
pub open spec fn is_white(c: char) -> bool {
    let v = c as u32;
    (0x09 <= v <= 0x0D) || v == 0x20 || v == 0x85 || v == 0xA0 || v == 0x1680 || (0x2000 <= v
        <= 0x200A) || v == 0x2028 || v == 0x2029 || v == 0x202F || v == 0x205F || v == 0x3000
}

pub fn is_whitespace(c: char) -> (r: bool)
    ensures
        r == is_white(c),
{
    let v = c as u32;
    (0x09 <= v && v <= 0x0D) || v == 0x20 || v == 0x85 || v == 0xA0 || v == 0x1680 || (0x2000
        <= v && v <= 0x200A) || v == 0x2028 || v == 0x2029 || v == 0x202F || v == 0x205F || v
        == 0x3000
}

/// The value of a hexadecimal digit (either case).
pub open spec fn hex_digit(c: char) -> Option<nat> {
    if '0' <= c <= '9' {
        Some((c as u32 - '0' as u32) as nat)
    } else if 'a' <= c <= 'f' {
        Some((c as u32 - 'a' as u32 + 10) as nat)
    } else if 'A' <= c <= 'F' {
        Some((c as u32 - 'A' as u32 + 10) as nat)
    } else {
        None
    }
}

fn hex_digit_exec(c: char) -> (r: Option<u32>)
    ensures
        match hex_digit(c) {
            Some(v) => r == Some(v as u32),
            None => r is None,
        },
{
    if '0' <= c && c <= '9' {
        Some(c as u32 - '0' as u32)
    } else if 'a' <= c && c <= 'f' {
        Some(c as u32 - 'a' as u32 + 10)
    } else if 'A' <= c && c <= 'F' {
        Some(c as u32 - 'A' as u32 + 10)
    } else {
        None
    }
}

/// The number a run of hexadecimal digits stands for; `None` when a character is not one.
pub open spec fn digits_value(s: Seq<char>) -> Option<nat>
    decreases s.len(),
{
    if s.len() == 0 {
        Some(0)
    } else {
        match (digits_value(s.drop_last()), hex_digit(s.last())) {
            (Some(v), Some(d)) => Some(v * 16 + d),
            _ => None,
        }
    }
}

/// What `u8::from_str_radix(t, 16)` gives for a token: an optional '+' then hexadecimal
/// digits whose value fits in a byte.
pub open spec fn token_byte(t: Seq<char>) -> Option<u8> {
    let d = if t.len() > 1 && t[0] == '+' { t.drop_first() } else { t };
    if d.len() == 0 {
        None
    } else {
        match digits_value(d) {
            Some(v) => if v <= 255 { Some(v as u8) } else { None },
            None => None,
        }
    }
}

proof fn lemma_digits_prefix(s: Seq<char>, j: int)
    requires
        0 <= j <= s.len(),
        digits_value(s) is Some,
    ensures
        digits_value(s.take(j)) is Some,
        digits_value(s.take(j)).unwrap() <= digits_value(s).unwrap(),
    decreases s.len(),
{
    if j < s.len() {
        assert(s.drop_last().take(j) =~= s.take(j));
        lemma_digits_prefix(s.drop_last(), j);
    } else {
        assert(s.take(j) =~= s);
    }
}

/// The byte a token `cs[a..b]` stands for.
fn parse_token(cs: &Vec<char>, a: usize, b: usize) -> (r: Option<u8>)
    requires
        a < b <= cs@.len(),
    ensures
        r == token_byte(cs@.subrange(a as int, b as int)),
{
    let ghost t = cs@.subrange(a as int, b as int);
    let start = if b - a > 1 && cs[a] == '+' {
        a + 1
    } else {
        a
    };
    let ghost d = cs@.subrange(start as int, b as int);
    assert(d =~= (if t.len() > 1 && t[0] == '+' { t.drop_first() } else { t }));
    if start >= b {
        return None;
    }
    let mut acc: u32 = 0;
    let mut i = start;
    while i < b
        invariant
            start <= i <= b,
            b <= cs@.len(),
            d == cs@.subrange(start as int, b as int),
            t == cs@.subrange(a as int, b as int),
            d == (if t.len() > 1 && t[0] == '+' { t.drop_first() } else { t }),
            d.len() > 0,
            digits_value(d.take(i - start)) == Some(acc as nat),
            acc <= 255,
        decreases b - i,
    {
        assert(d.take(i - start + 1).drop_last() =~= d.take(i - start));
        assert(d.take(i - start + 1).last() == cs@[i as int]);
        match hex_digit_exec(cs[i]) {
            Some(v) => {
                acc = acc * 16 + v;
            },
            None => {
                proof {
                    assert(digits_value(d.take(i - start + 1)) is None);
                    if digits_value(d) is Some {
                        lemma_digits_prefix(d, i - start + 1);
                    }
                    assert(digits_value(d) is None);
                }
                return None;
            },
        }
        if acc > 255 {
            proof {
                assert(digits_value(d.take(i - start + 1)) == Some(acc as nat));
                if digits_value(d) is Some {
                    lemma_digits_prefix(d, i - start + 1);
                }
            }
            return None;
        }
        i = i + 1;
    }
    assert(d.take(b - start) =~= d);
    Some(acc as u8)
}

/// `next_white` within `s[..hi]`.
pub open spec fn next_white_in(s: Seq<char>, i: int, hi: int) -> int
    decreases hi - i,
{
    if i >= hi || i < 0 {
        hi
    } else if is_white(s[i]) {
        i
    } else {
        next_white_in(s, i + 1, hi)
    }
}

/// `tokens_bytes` within `s[..hi]`.
pub open spec fn tokens_bytes_in(s: Seq<char>, i: int, hi: int) -> Seq<u8>
    decreases hi - i,
{
    if i >= hi || i < 0 {
        seq![]
    } else if is_white(s[i]) {
        tokens_bytes_in(s, i + 1, hi)
    } else {
        let k = next_white_in(s, i, hi);
        if k <= i || k > hi {
            seq![]
        } else {
            (match token_byte(s.subrange(i, k)) {
                Some(b) => seq![b],
                None => seq![],
            }) + tokens_bytes_in(s, k, hi)
        }
    }
}

proof fn lemma_next_white_in_bounds(s: Seq<char>, i: int, hi: int)
    requires
        0 <= i <= hi <= s.len(),
    ensures
        i <= next_white_in(s, i, hi) <= hi,
    decreases hi - i,
{
    if i < hi && !is_white(s[i]) {
        lemma_next_white_in_bounds(s, i + 1, hi);
    }
}

/// The index of the first white space character in `cs[i..hi]` (`hi` if none).
fn find_white(cs: &Vec<char>, i: usize, hi: usize) -> (k: usize)
    requires
        i <= hi <= cs@.len(),
    ensures
        k == next_white_in(cs@, i as int, hi as int),
{
    let mut k = i;
    while k < hi && !is_whitespace(cs[k])
        invariant
            i <= k <= hi,
            hi <= cs@.len(),
            next_white_in(cs@, i as int, hi as int) == next_white_in(cs@, k as int, hi as int),
        decreases hi - k,
    {
        k = k + 1;
    }
    k
}

/// The bytes of the hex tokens in `cs[lo..hi]`.
fn segment_bytes(cs: &Vec<char>, lo: usize, hi: usize, out: &mut Vec<u8>)
    requires
        lo <= hi <= cs@.len(),
    ensures
        final(out)@ == old(out)@ + tokens_bytes_in(cs@, lo as int, hi as int),
{
    let ghost start = out@;
    let mut i = lo;
    while i < hi
        invariant
            lo <= i <= hi,
            hi <= cs@.len(),
            start + tokens_bytes_in(cs@, lo as int, hi as int) == out@ + tokens_bytes_in(cs@, i as int, hi as int),
        decreases hi - i,
    {
        if is_whitespace(cs[i]) {
            i = i + 1;
        } else {
            let k = find_white(cs, i, hi);
            proof {
                lemma_next_white_in_bounds(cs@, i as int, hi as int);
            }
            let ghost before = out@;
            if k > i {
                if let Some(b) = parse_token(cs, i, k) {
                    out.push(b);
                    assert(out@ + tokens_bytes_in(cs@, k as int, hi as int) =~= before + tokens_bytes_in(cs@, i as int, hi as int));
                } else {
                    assert(out@ + tokens_bytes_in(cs@, k as int, hi as int) =~= before + tokens_bytes_in(cs@, i as int, hi as int));
                }
                i = k;
            } else {
                i = hi;
            }
        }
    }
}

// ── Lines ───────────────────────────────────────────────────────────────

/// The index of the first `c` in `s[i..hi]` (`hi` if none).
pub open spec fn find_char(s: Seq<char>, c: char, i: int, hi: int) -> int
    decreases hi - i,
{
    if i >= hi || i < 0 {
        hi
    } else if s[i] == c {
        i
    } else {
        find_char(s, c, i + 1, hi)
    }
}

proof fn lemma_find_char_bounds(s: Seq<char>, c: char, i: int, hi: int)
    requires
        0 <= i <= hi,
    ensures
        i <= find_char(s, c, i, hi) <= hi,
        find_char(s, c, i, hi) < hi ==> s[find_char(s, c, i, hi)] == c,
        forall|j: int| i <= j < find_char(s, c, i, hi) ==> s[j] != c,
    decreases hi - i,
{
    if i < hi && s[i] != c {
        lemma_find_char_bounds(s, c, i + 1, hi);
    }
}

fn find_char_exec(cs: &Vec<char>, c: char, i: usize, hi: usize) -> (k: usize)
    requires
        i <= hi <= cs@.len(),
    ensures
        k == find_char(cs@, c, i as int, hi as int),
{
    let mut k = i;
    while k < hi && cs[k] != c
        invariant
            i <= k <= hi,
            hi <= cs@.len(),
            find_char(cs@, c, i as int, hi as int) == find_char(cs@, c, k as int, hi as int),
        decreases hi - k,
    {
        k = k + 1;
    }
    k
}

/// The bytes of one line `s[lo..hi]` of a hex dump file: the part before the first '|',
/// then the text between its first ':' and the next ':' (or its end), read as hex tokens.
/// `None` when that part holds no ':'.
pub open spec fn line_bytes(s: Seq<char>, lo: int, hi: int) -> Option<Seq<u8>> {
    let bar = find_char(s, '|', lo, hi);
    let c1 = find_char(s, ':', lo, bar);
    if c1 >= bar {
        None
    } else {
        let c2 = find_char(s, ':', c1 + 1, bar);
        Some(tokens_bytes_in(s, c1 + 1, c2))
    }
}

fn line_bytes_exec(cs: &Vec<char>, lo: usize, hi: usize, out: &mut Vec<u8>) -> (ok: bool)
    requires
        lo <= hi <= cs@.len(),
    ensures
        ok == line_bytes(cs@, lo as int, hi as int) is Some,
        ok ==> final(out)@ == old(out)@ + line_bytes(cs@, lo as int, hi as int).unwrap(),
        !ok ==> final(out)@ == old(out)@,
{
    let bar = find_char_exec(cs, '|', lo, hi);
    proof {
        lemma_find_char_bounds(cs@, '|', lo as int, hi as int);
    }
    let c1 = find_char_exec(cs, ':', lo, bar);
    proof {
        lemma_find_char_bounds(cs@, ':', lo as int, bar as int);
    }
    if c1 >= bar {
        return false;
    }
    let c2 = find_char_exec(cs, ':', c1 + 1, bar);
    proof {
        lemma_find_char_bounds(cs@, ':', c1 + 1, bar as int);
    }
    segment_bytes(cs, c1 + 1, c2, out);
    true
}

/// Where the line that starts at `pos` ends (exclusive, without its line break) and where
/// the next line starts, as `str::lines` splits: at "\n", dropping a "\r" just before it.
pub open spec fn line_end(s: Seq<char>, pos: int) -> (int, int) {
    let nl = find_char(s, '\n', pos, s.len() as int);
    if nl < s.len() {
        if nl > pos && s[nl - 1] == '\r' {
            (nl - 1, nl + 1)
        } else {
            (nl, nl + 1)
        }
    } else {
        (s.len() as int, s.len() as int)
    }
}

/// The bytes of the lines of `s` from `pos` on, joined; `None` when a line has no ':'
/// before its '|'.
pub open spec fn lines_bytes(s: Seq<char>, pos: int) -> Option<Seq<u8>>
    decreases s.len() - pos,
{
    if pos >= s.len() || pos < 0 {
        Some(seq![])
    } else {
        let (e, next) = line_end(s, pos);
        if next <= pos {
            Some(seq![])
        } else {
            match line_bytes(s, pos, e) {
                None => None,
                Some(b) => match lines_bytes(s, next) {
                    None => None,
                    Some(r) => Some(b + r),
                },
            }
        }
    }
}

/// The bytes of the lines of `s` from `pos` on that have a ':' before their '|', joined;
/// other lines are skipped.
pub open spec fn lines_bytes_lenient(s: Seq<char>, pos: int) -> Seq<u8>
    decreases s.len() - pos,
{
    if pos >= s.len() || pos < 0 {
        seq![]
    } else {
        let (e, next) = line_end(s, pos);
        if next <= pos {
            seq![]
        } else {
            (match line_bytes(s, pos, e) {
                None => seq![],
                Some(b) => b,
            }) + lines_bytes_lenient(s, next)
        }
    }
}

proof fn lemma_line_end(s: Seq<char>, pos: int)
    requires
        0 <= pos < s.len(),
    ensures
        pos <= line_end(s, pos).0 <= line_end(s, pos).1 <= s.len(),
        line_end(s, pos).1 > pos,
{
    lemma_find_char_bounds(s, '\n', pos, s.len() as int);
}

fn line_end_exec(cs: &Vec<char>, pos: usize) -> (r: (usize, usize))
    requires
        pos < cs@.len(),
    ensures
        r.0 == line_end(cs@, pos as int).0,
        r.1 == line_end(cs@, pos as int).1,
{
    let n = cs.len();
    let nl = find_char_exec(cs, '\n', pos, n);
    proof {
        lemma_find_char_bounds(cs@, '\n', pos as int, n as int);
    }
    if nl < n {
        if nl > pos && cs[nl - 1] == '\r' {
            (nl - 1, nl + 1)
        } else {
            (nl, nl + 1)
        }
    } else {
        (n, n)
    }
}

/// The characters of a text, in order.
fn chars_of(s: &str) -> (v: Vec<char>)
    ensures
        v@ == s@,
{
    broadcast use vstd::string::axiom_spec_iter;
    let mut v: Vec<char> = Vec::new();
    for c in it: s.chars()
        invariant
            it.seq() == s@,
            v@ == it.seq().take(it.index() as int),
    {
        v.push(c);
    }
    v
}

/// The bytes of a hex dump file (as `format_hex_dump` writes it): `None` when a line has
/// no ':' before its '|' or no byte was found.
pub open spec fn hex_file_bytes(text: Seq<char>) -> Option<Seq<u8>> {
    match lines_bytes(text, 0) {
        Some(b) => if b.len() > 0 { Some(b) } else { None },
        None => None,
    }
}

/// Reads the bytes of a hex dump file.
pub fn parse_hex_file(text: &str) -> (r: Option<Vec<u8>>)
    ensures
        match hex_file_bytes(text@) {
            Some(b) => r matches Some(v) && v@ == b,
            None => r is None,
        },
{
    let cs = chars_of(text);
    let mut bytes: Vec<u8> = Vec::new();
    let mut pos: usize = 0;
    while pos < cs.len()
        invariant
            cs@ == text@,
            pos <= cs@.len(),
            lines_bytes(cs@, 0) == (match lines_bytes(cs@, pos as int) {
                Some(r) => Some(bytes@ + r),
                None => None,
            }),
        decreases cs@.len() - pos,
    {
        let (e, next) = line_end_exec(&cs, pos);
        proof {
            lemma_line_end(cs@, pos as int);
        }
        let ghost before = bytes@;
        if !line_bytes_exec(&cs, pos, e, &mut bytes) {
            assert(lines_bytes(cs@, pos as int) is None);
            assert(lines_bytes(cs@, 0) is None);
            return None;
        }
        proof {
            let b = line_bytes(cs@, pos as int, e as int).unwrap();
            match lines_bytes(cs@, next as int) {
                Some(r) => assert(before + (b + r) =~= bytes@ + r),
                None => {},
            }
        }
        pos = next;
    }
    if bytes.len() == 0 {
        None
    } else {
        Some(bytes)
    }
}

/// Reads the bytes of a hex dump file, skipping lines without a ':' before their '|'.
pub fn parse_hex_dump(content: &str) -> (data: Vec<u8>)
    ensures
        data@ == lines_bytes_lenient(content@, 0),
{
    let cs = chars_of(content);
    let mut bytes: Vec<u8> = Vec::new();
    let mut pos: usize = 0;
    while pos < cs.len()
        invariant
            pos <= cs@.len(),
            lines_bytes_lenient(cs@, 0) == bytes@ + lines_bytes_lenient(cs@, pos as int),
        decreases cs@.len() - pos,
    {
        let (e, next) = line_end_exec(&cs, pos);
        proof {
            lemma_line_end(cs@, pos as int);
        }
        let ghost before = bytes@;
        let _ = line_bytes_exec(&cs, pos, e, &mut bytes);
        proof {
            let lb = match line_bytes(cs@, pos as int, e as int) {
                None => seq![],
                Some(b) => b,
            };
            assert(bytes@ == before + lb);
            assert(before + (lb + lines_bytes_lenient(cs@, next as int)) =~= bytes@ + lines_bytes_lenient(cs@, next as int));
        }
        pos = next;
    }
    bytes
}

} // verus!
