use flow8_midi::digest::offset_to_bit;
use flow8_midi::extract::{combinations_indexed, ExtractedParam};
use flow8_midi::file_extract::{file_candidates, pick_file_candidate, FileCandidate};

fn plausible(c: &FileCandidate, lo: f32, hi: f32) -> bool {
    let (a, b) = (f32::from_bits(c.min_bits), f32::from_bits(c.max_bits));
    !(a < lo || b > hi) && !(a >= b || (b - a) < 0.05)
}

fn split_search(changed: &[usize], mn: &[u8], mx: &[u8], lo: f32, hi: f32) -> Option<ExtractedParam> {
    let cands = file_candidates(changed, mn, mx);
    let ok: Vec<bool> = cands.iter().map(|c| plausible(c, lo, hi)).collect();
    pick_file_candidate(&cands, &ok, changed.len()).map(|k| cands[k].to_param())
}

/// The same search written directly over f32 values.
fn float_search(changed: &[usize], mn: &[u8], mx: &[u8], lo_v: f32, hi_v: f32) -> Option<(usize, [usize; 4], [u8; 4], u32, u32)> {
    if changed.is_empty() {
        return None;
    }
    let lo = changed.iter().copied().min().unwrap().saturating_sub(8);
    let hi = (changed.iter().copied().max().unwrap() + 8).min(mn.len() - 1);
    let mut best: Option<((usize, [usize; 4], [u8; 4], u32, u32), usize)> = None;
    for msb in lo..=hi {
        let mut dc: Vec<(usize, u8)> = Vec::new();
        for d in -7isize..=7 {
            if d == 0 {
                continue;
            }
            let off = msb as isize + d;
            if off < 0 || off as usize >= mn.len() {
                continue;
            }
            if let Some(bit) = offset_to_bit(d) {
                if bit < 7 {
                    dc.push((off as usize, bit));
                }
            }
        }
        if dc.len() < 4 {
            continue;
        }
        for combo in combinations_indexed(&dc, 4) {
            let offs = [combo[0].0, combo[1].0, combo[2].0, combo[3].0];
            let bits = [combo[0].1, combo[1].1, combo[2].1, combo[3].1];
            let mut used = 0u8;
            let mut unique = true;
            for &b in &bits {
                if used & (1 << b) != 0 {
                    unique = false;
                }
                used |= 1 << b;
            }
            if !unique {
                continue;
            }
            let all5 = [msb, offs[0], offs[1], offs[2], offs[3]];
            if all5.iter().max().unwrap() - all5.iter().min().unwrap() > 8 {
                continue;
            }
            let overlap = all5.iter().filter(|o| changed.contains(o)).count();
            if overlap == 0 {
                continue;
            }
            let mut bmin = [0u8; 4];
            let mut bmax = [0u8; 4];
            for i in 0..4 {
                bmin[i] = mn[offs[i]] | (((mn[msb] >> bits[i]) & 1) << 7);
                bmax[i] = mx[offs[i]] | (((mx[msb] >> bits[i]) & 1) << 7);
            }
            let (fa, fb) = (f32::from_le_bytes(bmin), f32::from_le_bytes(bmax));
            if !fa.is_finite() || !fb.is_finite() || fa < lo_v || fb > hi_v || fa >= fb || (fb - fa) < 0.05 {
                continue;
            }
            if best.as_ref().map(|(_, s)| overlap > *s).unwrap_or(true) {
                best = Some(((msb, offs, bits, fa.to_bits(), fb.to_bits()), overlap));
            }
            if overlap == changed.len().min(5) {
                return best.map(|(p, _)| p);
            }
        }
    }
    best.map(|(p, _)| p)
}

fn view(p: Option<ExtractedParam>) -> Option<(usize, [usize; 4], [u8; 4], u32, u32)> {
    p.map(|p| (p.msb_off, p.data_offs, p.bit_indices, p.min_bits, p.max_bits))
}

fn dumps_with_float(msb: usize, offs: [usize; 4], bits: [u8; 4], before: f32, after: f32) -> (Vec<u8>, Vec<u8>) {
    let mut mn = vec![0u8; 0x60];
    let mut mx = vec![0u8; 0x60];
    for (d, v) in [(&mut mn, before), (&mut mx, after)] {
        let b = v.to_le_bytes();
        for i in 0..4 {
            d[offs[i]] = b[i] & 0x7F;
            if b[i] & 0x80 != 0 {
                d[msb] |= 1 << bits[i];
            }
        }
    }
    (mn, mx)
}

#[test]
fn candidate_search_agrees_with_a_direct_float_search() {
    let (mn, mx) = dumps_with_float(0x30, [0x31, 0x32, 0x33, 0x34], [0, 1, 2, 3], -10.0, 5.0);
    let changed: Vec<usize> = (0x20..mn.len()).filter(|&i| mn[i] != mx[i]).collect();
    for (lo, hi) in [(-200.0f32, 200.0f32), (-20.0, 20.0), (0.0, 1.0), (-0.5, 1.5)] {
        assert_eq!(view(split_search(&changed, &mn, &mx, lo, hi)), float_search(&changed, &mn, &mx, lo, hi));
    }
    let (mn2, mx2) = dumps_with_float(0x41, [0x3D, 0x3E, 0x42, 0x43], [4, 5, 1, 2], 20.0, 600.0);
    let changed2: Vec<usize> = (0x20..mn2.len()).filter(|&i| mn2[i] != mx2[i]).collect();
    for (lo, hi) in [(0.0f32, 800.0f32), (5.0, 65.0), (-200.0, 200.0)] {
        assert_eq!(view(split_search(&changed2, &mn2, &mx2, lo, hi)), float_search(&changed2, &mn2, &mx2, lo, hi));
    }
    assert!(split_search(&[], &mn, &mx, -200.0, 200.0).is_none());
}

#[test]
fn candidates_carry_finite_patterns_near_the_change() {
    let (mn, mx) = dumps_with_float(0x30, [0x31, 0x32, 0x33, 0x34], [0, 1, 2, 3], 0.0, 1.0);
    let changed: Vec<usize> = (0x20..mn.len()).filter(|&i| mn[i] != mx[i]).collect();
    let cands = file_candidates(&changed, &mn, &mx);
    assert!(!cands.is_empty());
    assert!(cands.iter().all(|c| c.overlap >= 1 && c.overlap <= 5));
    assert!(cands.iter().any(|c| c.msb_off == 0x30 && c.data_offs == [0x31, 0x32, 0x33, 0x34] && c.max_bits == 1.0f32.to_bits()));
    let none = vec![false; cands.len()];
    assert_eq!(pick_file_candidate(&cands, &none, changed.len()), None);
}
