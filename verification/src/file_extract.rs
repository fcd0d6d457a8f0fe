use vstd::prelude::*;

use crate::digest::{bit_for_distance, offset_to_bit};
use crate::extract::{combinations_indexed, combos, extracted_view, lemma_combos_members, vecs_view, ExtractedParam};
use crate::sysex::{decode_float_bits, float_bits, FloatParam};

verus! {

// ── Locating a float parameter in dumps read from files ─────────────────
// Around the changed offsets, every carrier byte and every choice of four data bytes near
// it gives a candidate; whether its two values are plausible is decided on the values
// themselves by the caller, and the best plausible candidate is then chosen here.

/// How far from the changed offsets a carrier byte is looked for.
pub const SEARCH_RADIUS: usize = 8;

/// The widest a group of carrier and data bytes may spread.
pub const MAX_GROUP_SPAN: usize = 8;

/// A possible place of a float parameter: its carrier byte, data bytes and carrier bits,
/// how many of its five bytes changed, and the bit patterns of its two values (both
/// finite).
#[derive(Debug, Clone, Copy)]
pub struct FileCandidate {
    pub msb_off: usize,
    pub data_offs: [usize; 4],
    pub bit_indices: [u8; 4],
    pub overlap: usize,
    pub min_bits: u32,
    pub max_bits: u32,
}

pub open spec fn candidate_view(c: FileCandidate) -> (usize, Seq<usize>, Seq<u8>, nat, u32, u32) {
    (c.msb_off, c.data_offs@, c.bit_indices@, c.overlap as nat, c.min_bits, c.max_bits)
}

/// The data byte candidates around carrier `m` in a dump of `len` bytes: (offset, bit) for
/// each distance from -7 to 7, from `d` on, whose offset lies in the dump and whose
/// carrier bit is below 7.
pub open spec fn data_cands_from(len: nat, m: int, d: int) -> Seq<(usize, u8)>
    decreases 8 - d,
{
    if d > 7 {
        seq![]
    } else {
        (if d != 0 && 0 <= m + d < len && (bit_for_distance(d) matches Some(b) && b < 7) {
            seq![((m + d) as usize, bit_for_distance(d)->0)]
        } else {
            seq![]
        }) + data_cands_from(len, m, d + 1)
    }
}

/// How many of the offsets are among the changed ones.
pub open spec fn overlap_of(changed: Seq<usize>, offs: Seq<usize>) -> nat
    decreases offs.len(),
{
    if offs.len() == 0 {
        0
    } else {
        overlap_of(changed, offs.drop_last()) + if changed.contains(offs.last()) {
            1nat
        } else {
            0nat
        }
    }
}

pub open spec fn seq_max(s: Seq<usize>) -> int
    decreases s.len(),
{
    if s.len() == 0 {
        0
    } else if s.len() == 1 {
        s[0] as int
    } else {
        let m = seq_max(s.drop_last());
        if s.last() > m { s.last() as int } else { m }
    }
}

pub open spec fn seq_min(s: Seq<usize>) -> int
    decreases s.len(),
{
    if s.len() == 0 {
        0
    } else if s.len() == 1 {
        s[0] as int
    } else {
        let m = seq_min(s.drop_last());
        if s.last() < m { s.last() as int } else { m }
    }
}

pub open spec fn max5(a: usize, b: usize, c: usize, d: usize, e: usize) -> usize {
    let m1 = if a >= b { a } else { b };
    let m2 = if c >= d { c } else { d };
    let m3 = if m1 >= m2 { m1 } else { m2 };
    if m3 >= e { m3 } else { e }
}

pub open spec fn min5(a: usize, b: usize, c: usize, d: usize, e: usize) -> usize {
    let m1 = if a <= b { a } else { b };
    let m2 = if c <= d { c } else { d };
    let m3 = if m1 <= m2 { m1 } else { m2 };
    if m3 <= e { m3 } else { e }
}

/// The candidate a choice of four data bytes gives around carrier `m`: its bits must be
/// distinct, its five bytes within `MAX_GROUP_SPAN`, one of them changed, and both values
/// finite.
pub open spec fn candidate_of(changed: Seq<usize>, mn: Seq<u8>, mx: Seq<u8>, m: usize, c: Seq<(usize, u8)>) -> Option<(usize, Seq<usize>, Seq<u8>, nat, u32, u32)> {
    let offs = seq![c[0].0, c[1].0, c[2].0, c[3].0];
    let bits = seq![c[0].1, c[1].1, c[2].1, c[3].1];
    let all5 = seq![m, c[0].0, c[1].0, c[2].0, c[3].0];
    let top = max5(m, c[0].0, c[1].0, c[2].0, c[3].0);
    let bottom = min5(m, c[0].0, c[1].0, c[2].0, c[3].0);
    let p = FloatParam { msb_off: m, data_offs: [c[0].0, c[1].0, c[2].0, c[3].0], bit_indices: [c[0].1, c[1].1, c[2].1, c[3].1] };
    if c.len() != 4 {
        None
    } else if exists|i: int, j: int| 0 <= i < j < 4 && bits[i] == bits[j] {
        None
    } else if top - bottom > MAX_GROUP_SPAN {
        None
    } else if overlap_of(changed, all5) == 0 {
        None
    } else {
        match (float_bits(mn, p), float_bits(mx, p)) {
            (Some(a), Some(b)) => Some((m, offs, bits, overlap_of(changed, all5), a, b)),
            _ => None,
        }
    }
}

pub open spec fn candidates_in(changed: Seq<usize>, mn: Seq<u8>, mx: Seq<u8>, m: usize, cs: Seq<Seq<(usize, u8)>>) -> Seq<(usize, Seq<usize>, Seq<u8>, nat, u32, u32)>
    decreases cs.len(),
{
    if cs.len() == 0 {
        seq![]
    } else {
        candidates_in(changed, mn, mx, m, cs.drop_last()) + match candidate_of(changed, mn, mx, m, cs.last()) {
            Some(v) => seq![v],
            None => seq![],
        }
    }
}

/// The candidates around each carrier from `m` to `hi`, in order.
pub open spec fn candidates_from(changed: Seq<usize>, mn: Seq<u8>, mx: Seq<u8>, m: int, hi: int) -> Seq<(usize, Seq<usize>, Seq<u8>, nat, u32, u32)>
    decreases hi + 1 - m,
{
    if m > hi || m < 0 {
        seq![]
    } else {
        (if m >= mn.len() {
            seq![]
        } else {
            candidates_in(changed, mn, mx, m as usize, combos(data_cands_from(mn.len(), m, -7), 4))
        }) + candidates_from(changed, mn, mx, m + 1, hi)
    }
}

/// The candidates of a change: carriers from `SEARCH_RADIUS` before the first changed
/// offset to `SEARCH_RADIUS` after the last one (within the dump).
pub open spec fn file_candidates_of(changed: Seq<usize>, mn: Seq<u8>, mx: Seq<u8>) -> Seq<(usize, Seq<usize>, Seq<u8>, nat, u32, u32)> {
    if changed.len() == 0 {
        seq![]
    } else {
        let lo = if seq_min(changed) >= SEARCH_RADIUS { seq_min(changed) - SEARCH_RADIUS } else { 0 };
        let top = seq_max(changed) + SEARCH_RADIUS;
        let hi = if top < mn.len() - 1 { top } else { mn.len() - 1 };
        candidates_from(changed, mn, mx, lo, hi)
    }
}

pub open spec fn candidates_view(v: Seq<FileCandidate>) -> Seq<(usize, Seq<usize>, Seq<u8>, nat, u32, u32)> {
    v.map_values(|c: FileCandidate| candidate_view(c))
}


proof fn lemma_data_cands(len: nat, m: int, d: int)
    ensures
        forall|i: int| 0 <= i < data_cands_from(len, m, d).len() ==> {
            &&& (#[trigger] data_cands_from(len, m, d)[i]).0 < len
            &&& data_cands_from(len, m, d)[i].1 < 7
        },
    decreases 8 - d,
{
    if d <= 7 {
        lemma_data_cands(len, m, d + 1);
        let head: Seq<(usize, u8)> = if d != 0 && 0 <= m + d < len && (bit_for_distance(d) matches Some(b) && b < 7) {
            seq![((m + d) as usize, bit_for_distance(d)->0)]
        } else {
            seq![]
        };
        let rest = data_cands_from(len, m, d + 1);
        assert(data_cands_from(len, m, d) == head + rest);
        assert forall|i: int| 0 <= i < data_cands_from(len, m, d).len() implies {
            &&& (#[trigger] data_cands_from(len, m, d)[i]).0 < len
            &&& data_cands_from(len, m, d)[i].1 < 7
        } by {
            if i >= head.len() {
                assert(data_cands_from(len, m, d)[i] == rest[i - head.len()]);
            }
        }
    }
}

fn data_cands(len: usize, m: usize) -> (r: Vec<(usize, u8)>)
    requires
        m < len,
        len < usize::MAX - 8,
    ensures
        r@ == data_cands_from(len as nat, m as int, -7),
{
    let mut r: Vec<(usize, u8)> = Vec::new();
    let mut k: usize = 0;
    while k < 15
        invariant
            k <= 15,
            m < len < usize::MAX - 8,
            r@ + data_cands_from(len as nat, m as int, k - 7) == data_cands_from(len as nat, m as int, -7),
        decreases 15 - k,
    {
        let d: isize = k as isize - 7;
        let ghost before = r@;
        let off: Option<usize> = if d < 0 {
            let back = (7 - k) as usize;
            if m >= back { Some(m - back) } else { None }
        } else if d > 0 {
            let ahead = (k - 7) as usize;
            if m + ahead < len { Some(m + ahead) } else { None }
        } else {
            None
        };
        if let Some(o) = off {
            if let Some(b) = offset_to_bit(d) {
                if b < 7 {
                    r.push((o, b));
                }
            }
        }
        assert(r@ + data_cands_from(len as nat, m as int, k + 1 - 7) =~= data_cands_from(len as nat, m as int, -7));
        k = k + 1;
    }
    r
}

fn contains_offset(v: &[usize], x: usize) -> (r: bool)
    ensures
        r == v@.contains(x),
{
    let mut i: usize = 0;
    while i < v.len()
        invariant
            i <= v@.len(),
            forall|j: int| 0 <= j < i ==> v@[j] != x,
        decreases v@.len() - i,
    {
        if v[i] == x {
            assert(v@[i as int] == x);
            return true;
        }
        i = i + 1;
    }
    false
}

fn overlap_count(changed: &[usize], all5: [usize; 5]) -> (n: usize)
    ensures
        n == overlap_of(changed@, all5@),
{
    let mut n: usize = 0;
    let mut k: usize = 0;
    while k < 5
        invariant
            k <= 5,
            n == overlap_of(changed@, all5@.take(k as int)),
            n <= k,
        decreases 5 - k,
    {
        assert(all5@.take(k + 1).drop_last() =~= all5@.take(k as int));
        if contains_offset(changed, all5[k]) {
            n = n + 1;
        }
        k = k + 1;
    }
    assert(all5@.take(5) =~= all5@);
    n
}

fn candidate_at(changed: &[usize], mn: &[u8], mx: &[u8], m: usize, c: &Vec<(usize, u8)>) -> (r: Option<FileCandidate>)
    requires
        c@.len() == 4,
        forall|i: int| 0 <= i < 4 ==> (#[trigger] c@[i]).1 < 7,
    ensures
        match candidate_of(changed@, mn@, mx@, m, c@) {
            Some(v) => r matches Some(fc) && candidate_view(fc) == v,
            None => r is None,
        },
{
    let (o0, b0) = c[0];
    let (o1, b1) = c[1];
    let (o2, b2) = c[2];
    let (o3, b3) = c[3];
    let ghost bits = seq![b0, b1, b2, b3];
    if b0 == b1 || b0 == b2 || b0 == b3 || b1 == b2 || b1 == b3 || b2 == b3 {
        proof {
            if b0 == b1 { assert(bits[0] == bits[1]); }
            if b0 == b2 { assert(bits[0] == bits[2]); }
            if b0 == b3 { assert(bits[0] == bits[3]); }
            if b1 == b2 { assert(bits[1] == bits[2]); }
            if b1 == b3 { assert(bits[1] == bits[3]); }
            if b2 == b3 { assert(bits[2] == bits[3]); }
        }
        return None;
    }
    assert(!exists|i: int, j: int| 0 <= i < j < 4 && bits[i] == bits[j]);
    let m1 = if m >= o0 { m } else { o0 };
    let m2 = if o1 >= o2 { o1 } else { o2 };
    let m3 = if m1 >= m2 { m1 } else { m2 };
    let top = if m3 >= o3 { m3 } else { o3 };
    let n1 = if m <= o0 { m } else { o0 };
    let n2 = if o1 <= o2 { o1 } else { o2 };
    let n3 = if n1 <= n2 { n1 } else { n2 };
    let bottom = if n3 <= o3 { n3 } else { o3 };
    if top - bottom > MAX_GROUP_SPAN {
        return None;
    }
    let all5: [usize; 5] = [m, o0, o1, o2, o3];
    assert(all5@ =~= seq![m, c@[0].0, c@[1].0, c@[2].0, c@[3].0]);
    let overlap = overlap_count(changed, all5);
    if overlap == 0 {
        return None;
    }
    let p = FloatParam { msb_off: m, data_offs: [o0, o1, o2, o3], bit_indices: [b0, b1, b2, b3] };
    let ghost sp = FloatParam {
        msb_off: m,
        data_offs: [c@[0].0, c@[1].0, c@[2].0, c@[3].0],
        bit_indices: [c@[0].1, c@[1].1, c@[2].1, c@[3].1],
    };
    assert(p.data_offs@ =~= sp.data_offs@);
    assert(p.bit_indices@ =~= sp.bit_indices@);
    assert(float_bits(mn@, p) == float_bits(mn@, sp));
    assert(float_bits(mx@, p) == float_bits(mx@, sp));
    assert(c@[0].1 < 7 && c@[1].1 < 7 && c@[2].1 < 7 && c@[3].1 < 7);
    let lo_bits = decode_float_bits(mn, &p);
    let hi_bits = decode_float_bits(mx, &p);
    match (lo_bits, hi_bits) {
        (Some(a), Some(b)) => {
            let fc = FileCandidate { msb_off: m, data_offs: [o0, o1, o2, o3], bit_indices: [b0, b1, b2, b3], overlap, min_bits: a, max_bits: b };
            assert(fc.data_offs@ =~= seq![c@[0].0, c@[1].0, c@[2].0, c@[3].0]);
            assert(fc.bit_indices@ =~= bits);
            Some(fc)
        },
        _ => None,
    }
}


fn seq_min_exec(v: &[usize]) -> (r: usize)
    requires
        v@.len() > 0,
    ensures
        r == seq_min(v@),
{
    let mut r = v[0];
    let mut k: usize = 1;
    assert(v@.take(1).len() == 1);
    while k < v.len()
        invariant
            1 <= k <= v@.len(),
            r == seq_min(v@.take(k as int)),
        decreases v@.len() - k,
    {
        assert(v@.take(k + 1).drop_last() =~= v@.take(k as int));
        if v[k] < r {
            r = v[k];
        }
        k = k + 1;
    }
    assert(v@.take(v@.len() as int) =~= v@);
    r
}

fn seq_max_exec(v: &[usize]) -> (r: usize)
    requires
        v@.len() > 0,
    ensures
        r == seq_max(v@),
{
    let mut r = v[0];
    let mut k: usize = 1;
    assert(v@.take(1).len() == 1);
    while k < v.len()
        invariant
            1 <= k <= v@.len(),
            r == seq_max(v@.take(k as int)),
        decreases v@.len() - k,
    {
        assert(v@.take(k + 1).drop_last() =~= v@.take(k as int));
        if v[k] > r {
            r = v[k];
        }
        k = k + 1;
    }
    assert(v@.take(v@.len() as int) =~= v@);
    r
}

/// The candidates around carrier `m`.
fn candidates_around(changed: &[usize], mn: &[u8], mx: &[u8], m: usize) -> (r: Vec<FileCandidate>)
    requires
        m < mn@.len(),
        mn@.len() < usize::MAX - 8,
    ensures
        candidates_view(r@) == candidates_in(changed@, mn@, mx@, m, combos(data_cands_from(mn@.len(), m as int, -7), 4)),
{
    let dc = data_cands(mn.len(), m);
    let cs = combinations_indexed(dc.as_slice(), 4);
    let ghost cv = vecs_view(cs@);
    proof {
        lemma_combos_members(dc@, 4);
        lemma_data_cands(mn@.len(), m as int, -7);
    }
    let mut r: Vec<FileCandidate> = Vec::new();
    let mut j: usize = 0;
    while j < cs.len()
        invariant
            j <= cs@.len(),
            cv == vecs_view(cs@),
            cv == combos(dc@, 4),
            dc@ == data_cands_from(mn@.len(), m as int, -7),
            forall|i: int| 0 <= i < cv.len() ==> {
                &&& (#[trigger] cv[i]).len() == 4
                &&& forall|q: int| 0 <= q < 4 ==> dc@.contains(#[trigger] cv[i][q])
            },
            forall|i: int| 0 <= i < dc@.len() ==> (#[trigger] dc@[i]).1 < 7,
            candidates_view(r@) == candidates_in(changed@, mn@, mx@, m, cv.take(j as int)),
        decreases cs@.len() - j,
    {
        let c = &cs[j];
        assert(c@ == cv[j as int]);
        assert forall|q: int| 0 <= q < 4 implies (#[trigger] c@[q]).1 < 7 by {
            assert(dc@.contains(cv[j as int][q]));
        }
        assert(cv.take(j + 1).drop_last() =~= cv.take(j as int));
        let ghost before = r@;
        match candidate_at(changed, mn, mx, m, c) {
            Some(fc) => {
                r.push(fc);
                assert(candidates_view(r@) =~= candidates_view(before).push(candidate_view(fc)));
            },
            None => {},
        }
        assert(candidates_view(r@) =~= candidates_in(changed@, mn@, mx@, m, cv.take(j + 1)));
        j = j + 1;
    }
    assert(cv.take(cv.len() as int) =~= cv);
    r
}

/// Every candidate place of a float parameter near the changed offsets, in the order the
/// search visits them.
pub fn file_candidates(changed: &[usize], min_dump: &[u8], max_dump: &[u8]) -> (r: Vec<FileCandidate>)
    requires
        min_dump@.len() < usize::MAX - 8,
        changed@.len() > 0 ==> min_dump@.len() > 0,
        forall|k: int| 0 <= k < changed@.len() ==> #[trigger] changed@[k] < usize::MAX - 8,
    ensures
        candidates_view(r@) == file_candidates_of(changed@, min_dump@, max_dump@),
{
    let mut r: Vec<FileCandidate> = Vec::new();
    if changed.len() == 0 {
        assert(candidates_view(r@) =~= Seq::<(usize, Seq<usize>, Seq<u8>, nat, u32, u32)>::empty());
        return r;
    }
    let low = seq_min_exec(changed);
    let high = seq_max_exec(changed);
    proof {
        lemma_seq_max_member(changed@);
    }
    let lo = if low >= SEARCH_RADIUS { low - SEARCH_RADIUS } else { 0 };
    let top = high + SEARCH_RADIUS;
    let hi = if top < min_dump.len() - 1 { top } else { min_dump.len() - 1 };
    let ghost total = candidates_from(changed@, min_dump@, max_dump@, lo as int, hi as int);
    if lo > hi {
        assert(candidates_view(r@) =~= total);
        return r;
    }
    let mut m = lo;
    while m <= hi
        invariant
            lo <= m <= hi + 1,
            hi < min_dump@.len() < usize::MAX - 8,
            candidates_view(r@) + candidates_from(changed@, min_dump@, max_dump@, m as int, hi as int) == total,
        decreases hi + 1 - m,
    {
        let mut piece = candidates_around(changed, min_dump, max_dump, m);
        let ghost before = r@;
        let ghost pv = piece@;
        r.append(&mut piece);
        assert(candidates_view(r@) =~= candidates_view(before) + candidates_view(pv));
        assert(candidates_view(r@) + candidates_from(changed@, min_dump@, max_dump@, m + 1, hi as int) =~= total);
        m = m + 1;
    }
    assert(candidates_from(changed@, min_dump@, max_dump@, m as int, hi as int) =~= Seq::<(usize, Seq<usize>, Seq<u8>, nat, u32, u32)>::empty());
    assert(candidates_view(r@) =~= total);
    r
}

proof fn lemma_seq_max_member(s: Seq<usize>)
    requires
        s.len() > 0,
    ensures
        exists|k: int| 0 <= k < s.len() && s[k] == seq_max(s),
    decreases s.len(),
{
    if s.len() > 1 {
        lemma_seq_max_member(s.drop_last());
        let k = choose|k: int| 0 <= k < s.drop_last().len() && s.drop_last()[k] == seq_max(s.drop_last());
        if s.last() > seq_max(s.drop_last()) {
            assert(s[s.len() - 1] == seq_max(s));
        } else {
            assert(s[k] == seq_max(s));
        }
    } else {
        assert(s[0] == seq_max(s));
    }
}

/// The candidate the search keeps, from position `k` on with `best` (position, changed
/// bytes) so far: the first plausible one with more changed bytes than the best so far
/// replaces it, and the search ends at a plausible one whose changed bytes reach
/// `target`.
pub open spec fn pick_from(cs: Seq<(usize, Seq<usize>, Seq<u8>, nat, u32, u32)>, ok: Seq<bool>, target: nat, k: int, best: Option<(int, nat)>) -> Option<int>
    decreases cs.len() - k,
{
    if k < 0 || k >= cs.len() {
        match best {
            Some((i, _)) => Some(i),
            None => None,
        }
    } else if ok[k] {
        let ov = cs[k].3;
        let nb = match best {
            Some((i, score)) => if ov > score { Some((k, ov)) } else { best },
            None => Some((k, ov)),
        };
        if ov == target {
            match nb {
                Some((i, _)) => Some(i),
                None => None,
            }
        } else {
            pick_from(cs, ok, target, k + 1, nb)
        }
    } else {
        pick_from(cs, ok, target, k + 1, best)
    }
}

pub open spec fn best_view(b: Option<(usize, usize)>) -> Option<(int, nat)> {
    match b {
        Some((i, s)) => Some((i as int, s as nat)),
        None => None,
    }
}

/// The candidate the search keeps, given which candidates hold plausible values
/// (`accepted`) and how many offsets changed.
pub fn pick_file_candidate(cands: &Vec<FileCandidate>, accepted: &Vec<bool>, changed_len: usize) -> (r: Option<usize>)
    requires
        accepted@.len() == cands@.len(),
    ensures
        match pick_from(candidates_view(cands@), accepted@, (if changed_len < 5 { changed_len } else { 5 }) as nat, 0, None) {
            Some(k) => r matches Some(j) && j == k,
            None => r is None,
        },
{
    let target: usize = if changed_len < 5 { changed_len } else { 5 };
    let ghost cv = candidates_view(cands@);
    let mut best: Option<(usize, usize)> = None;
    let mut k: usize = 0;
    while k < cands.len()
        invariant
            k <= cands@.len(),
            accepted@.len() == cands@.len(),
            cv == candidates_view(cands@),
            target == (if changed_len < 5 { changed_len } else { 5 }),
            best matches Some((i, _)) ==> i < k,
            pick_from(cv, accepted@, target as nat, 0, None) == pick_from(cv, accepted@, target as nat, k as int, best_view(best)),
        decreases cands@.len() - k,
    {
        let ghost before = best_view(best);
        if accepted[k] {
            let ov = cands[k].overlap;
            assert(cv[k as int].3 == ov as nat);
            let ghost nb: Option<(int, nat)> = match before {
                Some((i, score)) => if ov > score { Some((k as int, ov as nat)) } else { before },
                None => Some((k as int, ov as nat)),
            };
            let better = match best {
                Some((_, score)) => ov > score,
                None => true,
            };
            if better {
                best = Some((k, ov));
            }
            assert(best_view(best) == nb);
            if ov == target {
                assert(cv[k as int].3 == target as nat);
                assert(pick_from(cv, accepted@, target as nat, k as int, before) == match nb {
                    Some((i, _)) => Some(i),
                    None => None,
                });
                let res = match best {
                    Some((i, _)) => Some(i),
                    None => None,
                };
                assert(pick_from(cv, accepted@, target as nat, 0, None) == match nb {
                    Some((i, _)) => Some(i),
                    None => None,
                });
                return res;
            }
        }
        k = k + 1;
    }
    match best {
        Some((i, _)) => Some(i),
        None => None,
    }
}

impl FileCandidate {
    /// The parameter this candidate places (without a name yet).
    pub fn to_param(&self) -> (p: ExtractedParam)
        ensures
            extracted_view(p) == (self.msb_off, self.data_offs@, self.bit_indices@, self.min_bits, self.max_bits),
            p.name@.len() == 0,
    {
        ExtractedParam {
            name: String::new(),
            msb_off: self.msb_off,
            data_offs: self.data_offs,
            bit_indices: self.bit_indices,
            min_bits: self.min_bits,
            max_bits: self.max_bits,
        }
    }
}

} // verus!
