use vstd::prelude::*;

verus! {

// ── Choosing k of n ─────────────────────────────────────────────────────

/// The ways of choosing `k` of the items in order, in lexicographic order of positions.
pub open spec fn combos<A>(items: Seq<A>, k: nat) -> Seq<Seq<A>>
    decreases items.len(), k, items.len() + 1,
{
    if k == 0 {
        seq![seq![]]
    } else if items.len() < k {
        seq![]
    } else {
        combos_from(items, k, 0)
    }
}

/// The choices of `combos(items, k)` whose first item is at position `i` or later.
pub open spec fn combos_from<A>(items: Seq<A>, k: nat, i: int) -> Seq<Seq<A>>
    decreases items.len(), k, items.len() - i,
{
    if k == 0 || i < 0 || i >= items.len() {
        seq![]
    } else {
        combos(items.subrange(i + 1, items.len() as int), (k - 1) as nat).map_values(
            |c: Seq<A>| seq![items[i]] + c,
        ) + combos_from(items, k, i + 1)
    }
}

pub open spec fn vecs_view<A>(v: Seq<Vec<A>>) -> Seq<Seq<A>> {
    v.map_values(|c: Vec<A>| c@)
}

fn copy_vec<T: Copy>(v: &Vec<T>) -> (r: Vec<T>)
    ensures
        r@ == v@,
{
    let mut r: Vec<T> = Vec::new();
    let mut i: usize = 0;
    while i < v.len()
        invariant
            i <= v@.len(),
            r@ == v@.take(i as int),
        decreases v@.len() - i,
    {
        r.push(v[i]);
        assert(r@ =~= v@.take(i + 1));
        i = i + 1;
    }
    assert(v@.take(v@.len() as int) =~= v@);
    r
}

fn combinations_of<T: Copy>(items: &[T], k: usize) -> (r: Vec<Vec<T>>)
    ensures
        vecs_view(r@) == combos(items@, k as nat),
    decreases items@.len(), k, items@.len() + 1,
{
    if k == 0 {
        let r = vec![Vec::new()];
        assert(vecs_view(r@) =~= seq![Seq::<T>::empty()]);
        return r;
    }
    if items.len() < k {
        let r: Vec<Vec<T>> = Vec::new();
        assert(vecs_view(r@) =~= Seq::<Seq<T>>::empty());
        return r;
    }
    let mut result: Vec<Vec<T>> = Vec::new();
    let mut i: usize = 0;
    while i < items.len()
        invariant
            k > 0,
            i <= items@.len(),
            vecs_view(result@) + combos_from(items@, k as nat, i as int) == combos_from(items@, k as nat, 0),
        decreases items@.len() - i,
    {
        let item = items[i];
        let tail = vstd::slice::slice_subrange(items, i + 1, items.len());
        let sub = combinations_of(tail, k - 1);
        let ghost sv = vecs_view(sub@);
        let ghost prefixed = sv.map_values(|c: Seq<T>| seq![items@[i as int]] + c);
        let ghost start = vecs_view(result@);
        let mut j: usize = 0;
        while j < sub.len()
            invariant
                j <= sub@.len(),
                sv == vecs_view(sub@),
                prefixed == sv.map_values(|c: Seq<T>| seq![items@[i as int]] + c),
                item == items@[i as int],
                vecs_view(result@) == start + prefixed.take(j as int),
            decreases sub@.len() - j,
        {
            let mut combo = copy_vec(&sub[j]);
            let ghost sj = sub@[j as int]@;
            combo.insert(0, item);
            let ghost before = result@;
            result.push(combo);
            assert(combo@ =~= seq![items@[i as int]] + sj);
            assert(vecs_view(result@) =~= vecs_view(before).push(combo@));
            assert(prefixed.take(j + 1) =~= prefixed.take(j as int).push(prefixed[j as int]));
            j = j + 1;
        }
        assert(prefixed.take(sub@.len() as int) =~= prefixed);
        assert(tail@ == items@.subrange(i + 1, items@.len() as int));
        assert(vecs_view(result@) + combos_from(items@, k as nat, i + 1) =~= start + combos_from(items@, k as nat, i as int));
        i = i + 1;
    }
    assert(vecs_view(result@) =~= combos_from(items@, k as nat, 0));
    result
}

/// The ways of choosing `k` of the offsets, in order.
pub fn combinations(items: &[usize], k: usize) -> (r: Vec<Vec<usize>>)
    ensures
        vecs_view(r@) == combos(items@, k as nat),
{
    combinations_of(items, k)
}

/// The ways of choosing `k` of the (offset, bit) candidates, in order.
pub fn combinations_indexed(items: &[(usize, u8)], k: usize) -> (r: Vec<Vec<(usize, u8)>>)
    ensures
        vecs_view(r@) == combos(items@, k as nat),
{
    combinations_of(items, k)
}

// ── Assigning carrier bits ──────────────────────────────────────────────

/// The first way, in order of the candidate lists, of giving each of the positions from
/// `idx` on one of its candidate bits, no bit used twice (nor one in `chosen`); `chosen`
/// holds the bits already given to the positions before `idx`.
pub open spec fn bit_search(vb: Seq<Seq<u8>>, idx: int, chosen: Seq<u8>) -> Option<Seq<u8>>
    decreases 4 - idx, 1int, 0int,
{
    if idx >= 4 || idx < 0 {
        Some(chosen)
    } else {
        bit_search_list(vb, idx, chosen, 0)
    }
}

pub open spec fn bit_search_list(vb: Seq<Seq<u8>>, idx: int, chosen: Seq<u8>, j: int) -> Option<Seq<u8>>
    decreases 4 - idx, 0int, vb[idx].len() - j,
{
    if idx < 0 || idx >= 4 || j < 0 || j >= vb[idx].len() {
        None
    } else {
        let b = vb[idx][j];
        if chosen.contains(b) {
            bit_search_list(vb, idx, chosen, j + 1)
        } else {
            match bit_search(vb, idx + 1, chosen.push(b)) {
                Some(r) => Some(r),
                None => bit_search_list(vb, idx, chosen, j + 1),
            }
        }
    }
}

pub open spec fn arrays_view(v: [Vec<u8>; 4]) -> Seq<Seq<u8>> {
    seq![v[0]@, v[1]@, v[2]@, v[3]@]
}

/// Whether bit `b` of `used` is set, for the bits of `chosen` and no other.
pub open spec fn mask_of(chosen: Seq<u8>, used: u8) -> bool {
    forall|b: u8| b < 8 ==> (#[trigger] chosen.contains(b) <==> (used & (1u8 << b)) != 0)
}

proof fn lemma_mask_add(chosen: Seq<u8>, used: u8, b: u8)
    requires
        b < 8,
        mask_of(chosen, used),
        forall|k: int| 0 <= k < chosen.len() ==> #[trigger] chosen[k] < 8,
    ensures
        mask_of(chosen.push(b), used | (1u8 << b)),
{
    assert forall|c: u8| c < 8 implies (#[trigger] chosen.push(b).contains(c) <==> ((used | (1u8 << b)) & (1u8 << c)) != 0) by {
        assert(((used | (1u8 << b)) & (1u8 << c)) != 0 <==> ((used & (1u8 << c)) != 0 || c == b)) by (bit_vector)
            requires
                b < 8,
                c < 8,
        ;
        if chosen.push(b).contains(c) && c != b {
            let k = choose|k: int| 0 <= k < chosen.push(b).len() && chosen.push(b)[k] == c;
            assert(chosen[k] == c);
        }
        if chosen.contains(c) {
            let k = choose|k: int| 0 <= k < chosen.len() && chosen[k] == c;
            assert(chosen.push(b)[k] == c);
        }
        if c == b {
            assert(chosen.push(b)[chosen.len() as int] == c);
        }
    }
}

/// Gives each data byte of a float one carrier bit from its candidates, every bit used
/// once, searching in order (positions `idx` on; `result` holds the bits chosen so far,
/// `used` their mask).
pub fn find_bit_assignment(valid_bits: &[Vec<u8>; 4], idx: usize, result: &mut [u8; 4], used: u8) -> (r: Option<[u8; 4]>)
    requires
        idx <= 4,
        forall|i: int, j: int| 0 <= i < 4 && 0 <= j < arrays_view(*valid_bits)[i].len() ==> #[trigger] arrays_view(*valid_bits)[i][j] < 8,
        forall|k: int| 0 <= k < idx ==> #[trigger] old(result)@[k] < 8,
        mask_of(old(result)@.take(idx as int), used),
    ensures
        match bit_search(arrays_view(*valid_bits), idx as int, old(result)@.take(idx as int)) {
            Some(s) => r matches Some(a) && a@ == s,
            None => r is None,
        },
        final(result)@.take(idx as int) == old(result)@.take(idx as int),
    decreases 4 - idx,
{
    let ghost vb = arrays_view(*valid_bits);
    if idx == 4 {
        assert(result@.take(4) =~= result@);
        return Some(*result);
    }
    let ghost chosen = old(result)@.take(idx as int);
    let cands = &valid_bits[idx];
    assert(cands@ == vb[idx as int]);
    let mut j: usize = 0;
    while j < cands.len()
        invariant
            idx < 4,
            vb == arrays_view(*valid_bits),
            cands@ == vb[idx as int],
            forall|i: int, j: int| 0 <= i < 4 && 0 <= j < vb[i].len() ==> #[trigger] vb[i][j] < 8,
            forall|k: int| 0 <= k < idx ==> #[trigger] chosen[k] < 8,
            chosen == old(result)@.take(idx as int),
            result@.take(idx as int) == chosen,
            mask_of(chosen, used),
            j <= cands@.len(),
            bit_search(vb, idx as int, chosen) == bit_search_list(vb, idx as int, chosen, j as int),
        decreases cands@.len() - j,
    {
        let b = cands[j];
        assert(b == vb[idx as int][j as int]);
        assert(b < 8);
        if used & (1u8 << b) != 0 {
            j = j + 1;
            continue;
        }
        result[idx] = b;
        assert(result@.take(idx as int) =~= chosen);
        assert(result@.take(idx + 1) =~= chosen.push(b));
        proof {
            lemma_mask_add(chosen, used, b);
            assert forall|k: int| 0 <= k < idx + 1 implies #[trigger] result@[k] < 8 by {
                if k < idx {
                    assert(result@[k] == result@.take(idx as int)[k]);
                }
            }
        }
        if let Some(r) = find_bit_assignment(valid_bits, idx + 1, result, used | (1u8 << b)) {
            assert(result@.take(idx as int) =~= result@.take(idx + 1).take(idx as int));
            return Some(r);
        }
        assert(result@.take(idx as int) =~= result@.take(idx + 1).take(idx as int));
        j = j + 1;
    }
    None
}

// ── Locating a float parameter ──────────────────────────────────────────

/// Where a float parameter was found: its carrier byte, data bytes and carrier bits, and
/// the IEEE 754 bit patterns of its minimum and maximum values.
#[derive(Debug)]
pub struct ExtractedParam {
    pub name: String,
    pub msb_off: usize,
    pub data_offs: [usize; 4],
    pub bit_indices: [u8; 4],
    pub min_bits: u32,
    pub max_bits: u32,
}

/// The order of finite single-precision values, as an integer: the magnitude bits, negated
/// for a negative sign (both zeros are 0).
pub open spec fn float_key(bits: u32) -> int {
    let mag = (bits & 0x7FFF_FFFFu32) as int;
    if (bits >> 31u32) == 1 {
        -mag
    } else {
        mag
    }
}

/// The bit pattern of 500.0.
pub const FIVE_HUNDRED_BITS: u32 = 0x43FA_0000;

/// A finite value within -500 ..= 500.
pub open spec fn plausible(bits: u32) -> bool {
    !crate::sysex::is_nan_or_infinite(bits) && -(FIVE_HUNDRED_BITS as int) <= float_key(bits)
        <= FIVE_HUNDRED_BITS as int
}

/// The four offsets of `o` other than position `m`, in order.
pub open spec fn others(o: Seq<usize>, m: int) -> Seq<usize> {
    o.take(m) + o.skip(m + 1)
}

/// A data byte with bit `i` of `hi` as its high bit.
pub open spec fn with_hi(b: u8, hi: u8, i: int) -> u8 {
    b | ((((hi >> (i as u8)) & 1u8) << 7u8) as u8)
}

/// The bit pattern read from `d` at the data offsets, high bits taken from `hi`.
pub open spec fn pattern(d: Seq<u8>, offs: Seq<usize>, hi: u8) -> u32 {
    crate::sysex::le_u32(
        with_hi(d[offs[0] as int], hi, 0),
        with_hi(d[offs[1] as int], hi, 1),
        with_hi(d[offs[2] as int], hi, 2),
        with_hi(d[offs[3] as int], hi, 3),
    )
}

pub open spec fn bit_of(x: u8, b: u8) -> bool {
    (x >> b) & 1u8 == 1u8
}

/// The carrier bits that can hold the high bit of data byte `i`: those set in each
/// carrier exactly when the high bit is set in that dump.
pub open spec fn candidates(msb_min: u8, msb_max: u8, hi_min: u8, hi_max: u8, i: int) -> Seq<u8> {
    Seq::new(8, |b: int| b as u8).filter(|b: u8| bit_of(msb_min, b) == bit_of(hi_min, i as u8) && bit_of(msb_max, b) == bit_of(hi_max, i as u8))
}

/// What trying the carrier at position `m` of `o` with high bits `hi_min` and `hi_max`
/// gives: both values plausible, the minimum below the maximum, and carrier bits found.
pub open spec fn candidate(o: Seq<usize>, mn: Seq<u8>, mx: Seq<u8>, m: int, hi_min: u8, hi_max: u8) -> Option<(usize, Seq<usize>, Seq<u8>, u32, u32)> {
    let msb_off = o[m];
    let data = others(o, m);
    let f_min = pattern(mn, data, hi_min);
    let f_max = pattern(mx, data, hi_max);
    let msb_min = mn[msb_off as int];
    let msb_max = mx[msb_off as int];
    if !plausible(f_min) || !plausible(f_max) || float_key(f_min) >= float_key(f_max) {
        None
    } else {
        let vb = seq![
            candidates(msb_min, msb_max, hi_min, hi_max, 0),
            candidates(msb_min, msb_max, hi_min, hi_max, 1),
            candidates(msb_min, msb_max, hi_min, hi_max, 2),
            candidates(msb_min, msb_max, hi_min, hi_max, 3),
        ];
        match bit_search(vb, 0, seq![]) {
            Some(bits) => Some((msb_off, data, bits, f_min, f_max)),
            None => None,
        }
    }
}

/// The first candidate in the order carrier position, then minimum high bits, then
/// maximum high bits (each counted up), from trial `t` on.
pub open spec fn first_candidate(o: Seq<usize>, mn: Seq<u8>, mx: Seq<u8>, t: int) -> Option<(usize, Seq<usize>, Seq<u8>, u32, u32)>
    decreases 1280 - t,
{
    if t < 0 || t >= 1280 {
        None
    } else {
        match candidate(o, mn, mx, t / 256, ((t % 256) / 16) as u8, (t % 16) as u8) {
            Some(c) => Some(c),
            None => first_candidate(o, mn, mx, t + 1),
        }
    }
}

pub open spec fn extracted_view(p: ExtractedParam) -> (usize, Seq<usize>, Seq<u8>, u32, u32) {
    (p.msb_off, p.data_offs@, p.bit_indices@, p.min_bits, p.max_bits)
}

fn candidate_bits(msb_min: u8, msb_max: u8, hi_min: u8, hi_max: u8, i: u8) -> (v: Vec<u8>)
    requires
        i < 4,
    ensures
        v@ == candidates(msb_min, msb_max, hi_min, hi_max, i as int),
        forall|k: int| 0 <= k < v@.len() ==> #[trigger] v@[k] < 8,
{
    let ghost all = Seq::new(8, |b: int| b as u8);
    let ghost p = |b: u8| bit_of(msb_min, b) == bit_of(hi_min, i) && bit_of(msb_max, b) == bit_of(hi_max, i);
    let need_min = (hi_min >> i) & 1 == 1;
    let need_max = (hi_max >> i) & 1 == 1;
    let mut v: Vec<u8> = Vec::new();
    let mut b: u8 = 0;
    while b < 8
        invariant
            b <= 8,
            i < 4,
            all == Seq::new(8, |b: int| b as u8),
            p == (|b: u8| bit_of(msb_min, b) == bit_of(hi_min, i) && bit_of(msb_max, b) == bit_of(hi_max, i)),
            need_min == bit_of(hi_min, i),
            need_max == bit_of(hi_max, i),
            v@ == all.take(b as int).filter(p),
            forall|k: int| 0 <= k < v@.len() ==> #[trigger] v@[k] < b,
        decreases 8 - b,
    {
        proof {
            all.take(b as int).lemma_filter_push(all[b as int], p);
            assert(all.take(b + 1) =~= all.take(b as int).push(all[b as int]));
        }
        let has_min = (msb_min >> b) & 1 == 1;
        let has_max = (msb_max >> b) & 1 == 1;
        if has_min == need_min && has_max == need_max {
            v.push(b);
        }
        b = b + 1;
    }
    assert(all.take(8) =~= all);
    v
}

fn pattern_exec(d: &[u8], offs: &[usize; 4], hi: u8) -> (bits: u32)
    requires
        forall|k: int| 0 <= k < 4 ==> #[trigger] offs@[k] < d@.len(),
    ensures
        bits == pattern(d@, offs@, hi),
{
    let b0 = d[offs[0]] | ((((hi >> 0u8) & 1u8) << 7u8) as u8);
    let b1 = d[offs[1]] | ((((hi >> 1u8) & 1u8) << 7u8) as u8);
    let b2 = d[offs[2]] | ((((hi >> 2u8) & 1u8) << 7u8) as u8);
    let b3 = d[offs[3]] | ((((hi >> 3u8) & 1u8) << 7u8) as u8);
    (b0 as u32) | ((b1 as u32) << 8u32) | ((b2 as u32) << 16u32) | ((b3 as u32) << 24u32)
}

fn plausible_exec(bits: u32) -> (r: bool)
    ensures
        r == plausible(bits),
{
    if (bits >> 23u32) & 0xFFu32 == 0xFFu32 {
        return false;
    }
    let mag = bits & 0x7FFF_FFFFu32;
    mag <= FIVE_HUNDRED_BITS
}

/// Whether `a` orders strictly below `b` (both finite).
fn key_less(a: u32, b: u32) -> (r: bool)
    ensures
        r == (float_key(a) < float_key(b)),
{
    let ma = a & 0x7FFF_FFFFu32;
    let mb = b & 0x7FFF_FFFFu32;
    let na = (a >> 31u32) == 1;
    let nb = (b >> 31u32) == 1;
    if na && nb {
        ma > mb
    } else if na {
        ma > 0 || mb > 0
    } else if nb {
        false
    } else {
        ma < mb
    }
}

/// Tries the carrier at position `m` with high bits `hi_min` and `hi_max`.
fn try_candidate(offsets: &[usize], min_dump: &[u8], max_dump: &[u8], m: usize, hi_min: u8, hi_max: u8) -> (r: Option<ExtractedParam>)
    requires
        offsets@.len() == 5,
        m < 5,
        hi_min < 16,
        hi_max < 16,
        forall|k: int| 0 <= k < 5 ==> #[trigger] offsets@[k] < min_dump@.len() && offsets@[k] < max_dump@.len(),
    ensures
        match candidate(offsets@, min_dump@, max_dump@, m as int, hi_min, hi_max) {
            Some(c) => r matches Some(p) && extracted_view(p) == c && p.name@.len() == 0,
            None => r is None,
        },
{
    let msb_off = offsets[m];
    let mut data_offs: [usize; 4] = [0, 0, 0, 0];
    let mut k: usize = 0;
    let mut n: usize = 0;
    while k < 5
        invariant
            k <= 5,
            m < 5,
            offsets@.len() == 5,
            n == (if k > m { k - 1 } else { k as int }),
            forall|q: int| 0 <= q < n ==> #[trigger] data_offs@[q] == others(offsets@, m as int)[q],
        decreases 5 - k,
    {
        if k != m {
            data_offs[n] = offsets[k];
            n = n + 1;
        }
        k = k + 1;
    }
    assert(data_offs@ =~= others(offsets@, m as int));
    let f_min = pattern_exec(min_dump, &data_offs, hi_min);
    let f_max = pattern_exec(max_dump, &data_offs, hi_max);
    if !plausible_exec(f_min) || !plausible_exec(f_max) || !key_less(f_min, f_max) {
        return None;
    }
    let msb_min = min_dump[msb_off];
    let msb_max = max_dump[msb_off];
    let valid_bits: [Vec<u8>; 4] = [
        candidate_bits(msb_min, msb_max, hi_min, hi_max, 0),
        candidate_bits(msb_min, msb_max, hi_min, hi_max, 1),
        candidate_bits(msb_min, msb_max, hi_min, hi_max, 2),
        candidate_bits(msb_min, msb_max, hi_min, hi_max, 3),
    ];
    let mut result: [u8; 4] = [0, 0, 0, 0];
    proof {
        assert(result@.take(0) =~= Seq::<u8>::empty());
        assert forall|b: u8| b < 8 implies (#[trigger] Seq::<u8>::empty().contains(b) <==> (0u8 & (1u8 << b)) != 0) by {
            assert((0u8 & (1u8 << b)) == 0) by (bit_vector);
        }
    }
    match find_bit_assignment(&valid_bits, 0, &mut result, 0) {
        Some(bits) => Some(ExtractedParam {
            name: String::new(),
            msb_off,
            data_offs,
            bit_indices: bits,
            min_bits: f_min,
            max_bits: f_max,
        }),
        None => None,
    }
}

/// Looks for a float parameter among five changed offsets: one is the carrier of the high
/// bits, the other four the data bytes, with the high bits and carrier bits that make both
/// dumps hold plausible values, the minimum below the maximum.
pub fn try_extract_from_5(offsets: &[usize], min_dump: &[u8], max_dump: &[u8]) -> (r: Option<ExtractedParam>)
    requires
        offsets@.len() == 5,
        forall|k: int| 0 <= k < 5 ==> #[trigger] offsets@[k] < min_dump@.len() && offsets@[k] < max_dump@.len(),
    ensures
        match first_candidate(offsets@, min_dump@, max_dump@, 0) {
            Some(c) => r matches Some(p) && extracted_view(p) == c && p.name@.len() == 0,
            None => r is None,
        },
{
    let mut m: usize = 0;
    while m < 5
        invariant
            m <= 5,
            offsets@.len() == 5,
            forall|k: int| 0 <= k < 5 ==> #[trigger] offsets@[k] < min_dump@.len() && offsets@[k] < max_dump@.len(),
            first_candidate(offsets@, min_dump@, max_dump@, 0) == first_candidate(offsets@, min_dump@, max_dump@, (m * 256) as int),
        decreases 5 - m,
    {
        let mut hi_min: u8 = 0;
        while hi_min < 16
            invariant
                m < 5,
                hi_min <= 16,
                offsets@.len() == 5,
                forall|k: int| 0 <= k < 5 ==> #[trigger] offsets@[k] < min_dump@.len() && offsets@[k] < max_dump@.len(),
                first_candidate(offsets@, min_dump@, max_dump@, 0) == first_candidate(offsets@, min_dump@, max_dump@, (m * 256 + hi_min * 16) as int),
            decreases 16 - hi_min,
        {
            let mut hi_max: u8 = 0;
            while hi_max < 16
                invariant
                    m < 5,
                    hi_min < 16,
                    hi_max <= 16,
                    offsets@.len() == 5,
                    forall|k: int| 0 <= k < 5 ==> #[trigger] offsets@[k] < min_dump@.len() && offsets@[k] < max_dump@.len(),
                    first_candidate(offsets@, min_dump@, max_dump@, 0) == first_candidate(offsets@, min_dump@, max_dump@, (m * 256 + hi_min * 16 + hi_max) as int),
                decreases 16 - hi_max,
            {
                let ghost t = (m * 256 + hi_min * 16 + hi_max) as int;
                assert(t / 256 == m && (t % 256) / 16 == hi_min && t % 16 == hi_max) by (nonlinear_arith)
                    requires
                        t == m * 256 + hi_min * 16 + hi_max,
                        hi_min < 16,
                        hi_max < 16,
                ;
                if let Some(p) = try_candidate(offsets, min_dump, max_dump, m, hi_min, hi_max) {
                    return Some(p);
                }
                hi_max = hi_max + 1;
            }
            hi_min = hi_min + 1;
        }
        m = m + 1;
    }
    None
}

/// The groups of five offsets tried: all of them when there are five, else every choice
/// of five in order.
pub open spec fn subsets_of(all: Seq<usize>) -> Seq<Seq<usize>> {
    if all.len() == 5 {
        seq![all]
    } else {
        combos(all, 5)
    }
}

/// The first group, from position `i` on, in which a float parameter is found.
pub open spec fn first_in_subsets(subsets: Seq<Seq<usize>>, mn: Seq<u8>, mx: Seq<u8>, i: int) -> Option<(usize, Seq<usize>, Seq<u8>, u32, u32)>
    decreases subsets.len() - i,
{
    if i < 0 || i >= subsets.len() {
        None
    } else {
        match first_candidate(subsets[i], mn, mx, 0) {
            Some(c) => Some(c),
            None => first_in_subsets(subsets, mn, mx, i + 1),
        }
    }
}

pub proof fn lemma_combos_members<A>(items: Seq<A>, k: nat)
    ensures
        forall|i: int| 0 <= i < combos(items, k).len() ==> {
            &&& (#[trigger] combos(items, k)[i]).len() == k
            &&& forall|j: int| 0 <= j < k ==> items.contains(#[trigger] combos(items, k)[i][j])
        },
    decreases items.len(), k, items.len() + 1,
{
    if k > 0 && items.len() >= k {
        lemma_combos_from_members(items, k, 0);
        assert(combos(items, k) == combos_from(items, k, 0));
    } else if k == 0 {
        assert(combos(items, k) == seq![Seq::<A>::empty()]);
        assert(combos(items, k)[0] == Seq::<A>::empty());
    } else {
        assert(combos(items, k).len() == 0);
    }
}

proof fn lemma_combos_from_members<A>(items: Seq<A>, k: nat, s: int)
    requires
        k > 0,
        s >= 0,
    ensures
        forall|i: int| 0 <= i < combos_from(items, k, s).len() ==> {
            &&& (#[trigger] combos_from(items, k, s)[i]).len() == k
            &&& forall|j: int| 0 <= j < k ==> items.contains(#[trigger] combos_from(items, k, s)[i][j])
        },
    decreases items.len(), k, items.len() - s,
{
    if s < items.len() {
        let tail = items.subrange(s + 1, items.len() as int);
        lemma_combos_members(tail, (k - 1) as nat);
        lemma_combos_from_members(items, k, s + 1);
        let head = combos(tail, (k - 1) as nat).map_values(|c: Seq<A>| seq![items[s]] + c);
        let rest = combos_from(items, k, s + 1);
        assert forall|i: int| 0 <= i < combos_from(items, k, s).len() implies {
            &&& (#[trigger] combos_from(items, k, s)[i]).len() == k
            &&& forall|j: int| 0 <= j < k ==> items.contains(#[trigger] combos_from(items, k, s)[i][j])
        } by {
            let c = combos_from(items, k, s)[i];
            if i < head.len() {
                let sub = combos(tail, (k - 1) as nat)[i];
                assert(c == seq![items[s]] + sub);
                assert forall|j: int| 0 <= j < k implies items.contains(#[trigger] c[j]) by {
                    if j == 0 {
                        assert(items[s] == c[j]);
                    } else {
                        assert(tail.contains(sub[j - 1]));
                        let q = choose|q: int| 0 <= q < tail.len() && tail[q] == sub[j - 1];
                        assert(items[s + 1 + q] == c[j]);
                    }
                }
            } else {
                assert(c == rest[i - head.len()]);
            }
        }
    }
}

/// Looks for a float parameter among the offsets that changed: the five of them, or each
/// choice of five in turn; the first group that gives one wins.
pub fn try_extract_param(all_offsets: &[usize], min_dump: &[u8], max_dump: &[u8]) -> (r: Option<ExtractedParam>)
    requires
        forall|k: int| 0 <= k < all_offsets@.len() ==> #[trigger] all_offsets@[k] < min_dump@.len() && all_offsets@[k] < max_dump@.len(),
    ensures
        match first_in_subsets(subsets_of(all_offsets@), min_dump@, max_dump@, 0) {
            Some(c) => r matches Some(p) && extracted_view(p) == c && p.name@.len() == 0,
            None => r is None,
        },
{
    let subsets: Vec<Vec<usize>> = if all_offsets.len() == 5 {
        let v = vec![copy_vec_slice(all_offsets)];
        assert(vecs_view(v@) =~= seq![all_offsets@]);
        v
    } else {
        combinations(all_offsets, 5)
    };
    let ghost sv = vecs_view(subsets@);
    assert(sv == subsets_of(all_offsets@));
    proof {
        lemma_combos_members(all_offsets@, 5);
    }
    let mut i: usize = 0;
    while i < subsets.len()
        invariant
            sv == vecs_view(subsets@),
            sv == subsets_of(all_offsets@),
            forall|q: int| 0 <= q < sv.len() ==> {
                &&& (#[trigger] sv[q]).len() == 5
                &&& forall|j: int| 0 <= j < 5 ==> all_offsets@.contains(#[trigger] sv[q][j])
            },
            forall|k: int| 0 <= k < all_offsets@.len() ==> #[trigger] all_offsets@[k] < min_dump@.len() && all_offsets@[k] < max_dump@.len(),
            i <= subsets@.len(),
            first_in_subsets(sv, min_dump@, max_dump@, 0) == first_in_subsets(sv, min_dump@, max_dump@, i as int),
        decreases subsets@.len() - i,
    {
        let sub = subsets[i].as_slice();
        assert(sub@ == sv[i as int]);
        proof {
            assert forall|k: int| 0 <= k < 5 implies #[trigger] sub@[k] < min_dump@.len() && sub@[k] < max_dump@.len() by {
                assert(all_offsets@.contains(sv[i as int][k]));
            }
        }
        if let Some(p) = try_extract_from_5(sub, min_dump, max_dump) {
            return Some(p);
        }
        i = i + 1;
    }
    None
}

fn copy_vec_slice(v: &[usize]) -> (r: Vec<usize>)
    ensures
        r@ == v@,
{
    vstd::slice::slice_to_vec(v)
}

} // verus!
