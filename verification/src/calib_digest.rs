use vstd::prelude::*;
use vstd::string::StringExecFns;

use crate::calibration::{CalibrationState, LabelledDump};
use crate::digest::{
    ascending, bool_tables_text, channel_tags, diff_offsets, dump_diffs, dump_labels, fmt_offsets,
    generate_rust_bool_tables, offsets_text, dump_view, first_switch, is_bool_param,
    is_switch_name, pair_view, pairs_from, try_extract_bool, union_sorted, BoolExtractedParam,
    FileParamPair, ParamPair,
};
use crate::extract::{extracted_view, first_in_subsets, subsets_of, try_extract_param, ExtractedParam};
use crate::text::{decimal, hex_padded, push_decimal, push_hex_padded, same_text};

verus! {

// ── Code for the float parameter tables ─────────────────────────────────
// Each extracted parameter comes with its value range already written out ("lo..hi"),
// as the float values are shown by the caller.

/// The position of the first parameter found under `name`, from `i` on.
pub open spec fn find_float(params: Seq<ExtractedParam>, name: Seq<char>, i: int) -> Option<int>
    decreases params.len() - i,
{
    if i < 0 || i >= params.len() {
        None
    } else if params[i].name@ == name {
        Some(i)
    } else {
        find_float(params, name, i + 1)
    }
}

/// "FloatParam { .. }" with the parameter's offsets and carrier bits.
pub open spec fn float_param_text(p: ExtractedParam) -> Seq<char> {
    float_offsets_text(p) + float_bits_text(p)
}

pub open spec fn float_offsets_text(p: ExtractedParam) -> Seq<char> {
    "    FloatParam { msb_off: 0x"@ + hex_padded(p.msb_off as nat, 4) + ", data_offs: [0x"@ + hex_padded(p.data_offs[0] as nat, 4)
        + ", 0x"@ + hex_padded(p.data_offs[1] as nat, 4) + ", 0x"@ + hex_padded(p.data_offs[2] as nat, 4) + ", 0x"@ + hex_padded(
        p.data_offs[3] as nat,
        4,
    ) + "], "@
}

pub open spec fn float_bits_text(p: ExtractedParam) -> Seq<char> {
    "bit_indices: ["@ + decimal(p.bit_indices[0] as nat) + ", "@ + decimal(p.bit_indices[1] as nat) + ", "@ + decimal(
        p.bit_indices[2] as nat,
    ) + ", "@ + decimal(p.bit_indices[3] as nat) + "] },"@
}

/// The table line of one target: the parameter found under "prefix_suffix", with its
/// range, or a note that it is missing.
pub open spec fn float_entry(params: Seq<ExtractedParam>, ranges: Seq<Seq<char>>, prefix: Seq<char>, suffix: Seq<char>) -> Seq<char> {
    let name = prefix + "_"@ + suffix;
    match find_float(params, name, 0) {
        Some(k) => float_param_text(params[k]) + " // "@ + prefix + " ("@ + ranges[k] + ")"@,
        None => "    // MISSING: "@ + name,
    }
}

pub open spec fn float_found_count(params: Seq<ExtractedParam>, prefixes: Seq<Seq<char>>, suffix: Seq<char>) -> nat
    decreases prefixes.len(),
{
    if prefixes.len() == 0 {
        0
    } else {
        float_found_count(params, prefixes.drop_last(), suffix) + if find_float(params, prefixes.last() + "_"@ + suffix, 0) is Some {
            1nat
        } else {
            0nat
        }
    }
}

pub open spec fn float_lines_of(params: Seq<ExtractedParam>, ranges: Seq<Seq<char>>, prefixes: Seq<Seq<char>>, suffix: Seq<char>) -> Seq<char>
    decreases prefixes.len(),
{
    if prefixes.len() == 0 {
        seq![]
    } else {
        float_lines_of(params, ranges, prefixes.drop_last(), suffix) + float_entry(params, ranges, prefixes.last(), suffix) + "\n"@
    }
}

pub open spec fn float_table(
    params: Seq<ExtractedParam>,
    ranges: Seq<Seq<char>>,
    const_name: Seq<char>,
    suffix: Seq<char>,
    prefixes: Seq<Seq<char>>,
) -> Seq<char> {
    "```rust\n// "@ + decimal(float_found_count(params, prefixes, suffix)) + "/"@ + decimal(prefixes.len()) + " extracted\nconst "@
        + const_name + ": [FloatParam; "@ + decimal(prefixes.len()) + "] = [\n"@ + float_lines_of(params, ranges, prefixes, suffix)
        + "];\n```\n\n"@
}

pub open spec fn bus_tags() -> Seq<Seq<char>> {
    seq!["main"@, "mon1"@, "mon2"@, "fx1"@, "fx2"@]
}

/// The channel tables' names and the parameter suffix each gathers.
pub open spec fn channel_table_names() -> Seq<(Seq<char>, Seq<char>)> {
    seq![
        ("CHANNEL_LEVELS"@, "level"@),
        ("CHANNEL_GAINS"@, "gain"@),
        ("CHANNEL_PANS"@, "pan"@),
        ("CHANNEL_COMPRESSORS"@, "comp"@),
        ("CHANNEL_LOW_CUTS"@, "lowcut"@),
        ("CHANNEL_EQ_LOW"@, "eq_low"@),
        ("CHANNEL_EQ_LOW_MID"@, "eq_lowmid"@),
        ("CHANNEL_EQ_HI_MID"@, "eq_himid"@),
        ("CHANNEL_EQ_HI"@, "eq_hi"@),
        ("CHANNEL_SEND_MON1"@, "send_mon1"@),
        ("CHANNEL_SEND_MON2"@, "send_mon2"@),
        ("CHANNEL_SEND_FX1"@, "send_fx1"@),
        ("CHANNEL_SEND_FX2"@, "send_fx2"@),
    ]
}

pub open spec fn bus_table_names() -> Seq<(Seq<char>, Seq<char>)> {
    seq![("BUS_LEVELS"@, "level"@), ("BUS_BALANCES"@, "balance"@), ("BUS_LIMITERS"@, "limiter"@)]
}

pub open spec fn float_tables_of(
    params: Seq<ExtractedParam>,
    ranges: Seq<Seq<char>>,
    names: Seq<(Seq<char>, Seq<char>)>,
    prefixes: Seq<Seq<char>>,
) -> Seq<char>
    decreases names.len(),
{
    if names.len() == 0 {
        seq![]
    } else {
        float_tables_of(params, ranges, names.drop_last(), prefixes) + float_table(params, ranges, names.last().0, names.last().1, prefixes)
    }
}

/// The bus tables of the digest of dump files, in its order.
pub open spec fn file_bus_table_names() -> Seq<(Seq<char>, Seq<char>)> {
    seq![("BUS_LEVELS"@, "level"@), ("BUS_LIMITERS"@, "limiter"@), ("BUS_BALANCES"@, "balance"@)]
}

pub open spec fn nine_band_table_names() -> Seq<(Seq<char>, Seq<char>)> {
    seq![
        ("NINE_BAND_62HZ"@, "9band_62hz"@),
        ("NINE_BAND_125HZ"@, "9band_125hz"@),
        ("NINE_BAND_250HZ"@, "9band_250hz"@),
        ("NINE_BAND_500HZ"@, "9band_500hz"@),
        ("NINE_BAND_1KHZ"@, "9band_1khz"@),
        ("NINE_BAND_2KHZ"@, "9band_2khz"@),
        ("NINE_BAND_4KHZ"@, "9band_4khz"@),
        ("NINE_BAND_8KHZ"@, "9band_8khz"@),
        ("NINE_BAND_16KHZ"@, "9band_16khz"@),
    ]
}

pub open spec fn fx_table_names() -> Seq<(Seq<char>, Seq<char>)> {
    seq![("FX_PARAM1"@, "param1"@), ("FX_PARAM2"@, "param2"@), ("FX_PRESETS"@, "preset"@)]
}

pub open spec fn fx_tags() -> Seq<Seq<char>> {
    seq!["fx1"@, "fx2"@]
}

/// The generated tables of the digest of dump files: channels, buses, the buses'
/// nine-band equalisers and the effect processors.
pub open spec fn file_float_tables_text(params: Seq<ExtractedParam>, ranges: Seq<Seq<char>>) -> Seq<char> {
    float_tables_of(params, ranges, channel_table_names(), channel_tags()) + float_tables_of(params, ranges, file_bus_table_names(), bus_tags())
        + float_tables_of(params, ranges, nine_band_table_names(), bus_tags()) + float_tables_of(params, ranges, fx_table_names(), fx_tags())
}

/// The tables names paired with their parameter suffixes.
pub open spec fn table_names(names: Seq<&str>, suffixes: Seq<&str>) -> Seq<(Seq<char>, Seq<char>)> {
    Seq::new(names.len(), |k: int| (names[k]@, suffixes[k]@))
}

/// The generated channel and bus tables of the float parameters found.
pub open spec fn float_tables_text(params: Seq<ExtractedParam>, ranges: Seq<Seq<char>>) -> Seq<char> {
    float_tables_of(params, ranges, channel_table_names(), channel_tags()) + float_tables_of(
        params,
        ranges,
        bus_table_names(),
        bus_tags(),
    )
}

pub open spec fn texts_view(v: Seq<String>) -> Seq<Seq<char>> {
    v.map_values(|s: String| s@)
}

fn find_float_exec(params: &[ExtractedParam], name: &str) -> (r: Option<usize>)
    ensures
        match find_float(params@, name@, 0) {
            Some(k) => r matches Some(j) && j == k && j < params@.len(),
            None => r is None,
        },
{
    let mut i: usize = 0;
    while i < params.len()
        invariant
            i <= params@.len(),
            find_float(params@, name@, 0) == find_float(params@, name@, i as int),
        decreases params@.len() - i,
    {
        if same_text(params[i].name.as_str(), name) {
            return Some(i);
        }
        i = i + 1;
    }
    None
}

fn push_float_offsets(out: &mut String, p: &ExtractedParam)
    ensures
        final(out)@ == old(out)@ + float_offsets_text(*p),
{
    let ghost start = out@;
    out.append("    FloatParam { msb_off: 0x");
    push_hex_padded(out, p.msb_off as u64, 4);
    out.append(", data_offs: [0x");
    push_hex_padded(out, p.data_offs[0] as u64, 4);
    out.append(", 0x");
    push_hex_padded(out, p.data_offs[1] as u64, 4);
    out.append(", 0x");
    push_hex_padded(out, p.data_offs[2] as u64, 4);
    out.append(", 0x");
    push_hex_padded(out, p.data_offs[3] as u64, 4);
    out.append("], ");
    assert(out@ =~= start + float_offsets_text(*p));
}

fn push_float_bits(out: &mut String, p: &ExtractedParam)
    ensures
        final(out)@ == old(out)@ + float_bits_text(*p),
{
    let ghost start = out@;
    out.append("bit_indices: [");
    push_decimal(out, p.bit_indices[0] as u64);
    out.append(", ");
    push_decimal(out, p.bit_indices[1] as u64);
    out.append(", ");
    push_decimal(out, p.bit_indices[2] as u64);
    out.append(", ");
    push_decimal(out, p.bit_indices[3] as u64);
    out.append("] },");
    assert(out@ =~= start + float_bits_text(*p));
}

fn push_float_param(out: &mut String, p: &ExtractedParam)
    ensures
        final(out)@ == old(out)@ + float_param_text(*p),
{
    let ghost start = out@;
    push_float_offsets(out, p);
    push_float_bits(out, p);
    assert(out@ =~= start + float_param_text(*p));
}

fn push_float_table(code: &mut String, params: &[ExtractedParam], ranges: &[String], const_name: &str, suffix: &str, prefixes: &[&str])
    requires
        params@.len() == ranges@.len(),
    ensures
        final(code)@ == old(code)@ + float_table(params@, texts_view(ranges@), const_name@, suffix@, prefixes@.map_values(|p: &str| p@)),
{
    let ghost pv = prefixes@.map_values(|p: &str| p@);
    let ghost rv = texts_view(ranges@);
    let mut entries = String::new();
    let mut found: usize = 0;
    let mut i: usize = 0;
    while i < prefixes.len()
        invariant
            i <= prefixes@.len(),
            params@.len() == ranges@.len(),
            pv == prefixes@.map_values(|p: &str| p@),
            rv == texts_view(ranges@),
            entries@ == float_lines_of(params@, rv, pv.take(i as int), suffix@),
            found == float_found_count(params@, pv.take(i as int), suffix@),
            found <= i,
        decreases prefixes@.len() - i,
    {
        let prefix = prefixes[i];
        assert(pv.take(i + 1).drop_last() =~= pv.take(i as int));
        assert(pv.take(i + 1).last() == prefix@);
        let mut name = String::from_str(prefix);
        name.append("_");
        name.append(suffix);
        let ghost before = entries@;
        match find_float_exec(params, name.as_str()) {
            Some(k) => {
                push_float_param(&mut entries, &params[k]);
                entries.append(" // ");
                entries.append(prefix);
                entries.append(" (");
                entries.append(ranges[k].as_str());
                entries.append(")");
                found = found + 1;
            },
            None => {
                entries.append("    // MISSING: ");
                entries.append(name.as_str());
            },
        }
        entries.append("\n");
        assert(entries@ =~= before + float_entry(params@, rv, prefix@, suffix@) + "\n"@);
        i = i + 1;
    }
    assert(pv.take(prefixes@.len() as int) =~= pv);
    code.append("```rust\n// ");
    push_decimal(code, found as u64);
    code.append("/");
    push_decimal(code, prefixes.len() as u64);
    code.append(" extracted\nconst ");
    code.append(const_name);
    code.append(": [FloatParam; ");
    push_decimal(code, prefixes.len() as u64);
    code.append("] = [\n");
    code.append(entries.as_str());
    code.append("];\n```\n\n");
}

fn push_float_tables(code: &mut String, params: &[ExtractedParam], ranges: &[String], names: &[&str], suffixes: &[&str], prefixes: &[&str])
    requires
        params@.len() == ranges@.len(),
        names@.len() == suffixes@.len(),
    ensures
        final(code)@ == old(code)@ + float_tables_of(params@, texts_view(ranges@), table_names(names@, suffixes@), prefixes@.map_values(|p: &str| p@)),
{
    let ghost tn = table_names(names@, suffixes@);
    let ghost pv = prefixes@.map_values(|p: &str| p@);
    let ghost rv = texts_view(ranges@);
    let ghost head = code@;
    let mut i: usize = 0;
    while i < names.len()
        invariant
            i <= names@.len(),
            names@.len() == suffixes@.len(),
            params@.len() == ranges@.len(),
            tn == table_names(names@, suffixes@),
            pv == prefixes@.map_values(|p: &str| p@),
            rv == texts_view(ranges@),
            code@ == head + float_tables_of(params@, rv, tn.take(i as int), pv),
        decreases names@.len() - i,
    {
        assert(tn.take(i + 1).drop_last() =~= tn.take(i as int));
        assert(tn.take(i + 1).last() == (names@[i as int]@, suffixes@[i as int]@));
        push_float_table(code, params, ranges, names[i], suffixes[i], prefixes);
        i = i + 1;
    }
    assert(tn.take(names@.len() as int) =~= tn);
}

/// Rust source for the channel and bus float tables, from the parameters found;
/// `ranges[k]` is the value range of `params[k]` as written in its table line.
pub fn generate_rust_tables(params: &[ExtractedParam], ranges: &[String]) -> (code: String)
    requires
        params@.len() == ranges@.len(),
    ensures
        code@ == float_tables_text(params@, texts_view(ranges@)),
{
    let mut code = String::new();
    let ch: [&str; 7] = ["ch1", "ch2", "ch3", "ch4", "ch5-6", "ch7-8", "usb-bt"];
    let bus: [&str; 5] = ["main", "mon1", "mon2", "fx1", "fx2"];
    let ch_names: [&str; 13] = [
        "CHANNEL_LEVELS", "CHANNEL_GAINS", "CHANNEL_PANS", "CHANNEL_COMPRESSORS", "CHANNEL_LOW_CUTS",
        "CHANNEL_EQ_LOW", "CHANNEL_EQ_LOW_MID", "CHANNEL_EQ_HI_MID", "CHANNEL_EQ_HI",
        "CHANNEL_SEND_MON1", "CHANNEL_SEND_MON2", "CHANNEL_SEND_FX1", "CHANNEL_SEND_FX2",
    ];
    let ch_suffixes: [&str; 13] = [
        "level", "gain", "pan", "comp", "lowcut", "eq_low", "eq_lowmid", "eq_himid", "eq_hi",
        "send_mon1", "send_mon2", "send_fx1", "send_fx2",
    ];
    let bus_names: [&str; 3] = ["BUS_LEVELS", "BUS_BALANCES", "BUS_LIMITERS"];
    let bus_suffixes: [&str; 3] = ["level", "balance", "limiter"];
    assert(ch@.map_values(|p: &str| p@) =~= channel_tags());
    assert(bus@.map_values(|p: &str| p@) =~= bus_tags());
    assert(table_names(ch_names@, ch_suffixes@) =~= channel_table_names());
    assert(table_names(bus_names@, bus_suffixes@) =~= bus_table_names());
    push_float_tables(&mut code, params, ranges, ch_names.as_slice(), ch_suffixes.as_slice(), ch.as_slice());
    push_float_tables(&mut code, params, ranges, bus_names.as_slice(), bus_suffixes.as_slice(), bus.as_slice());
    code
}

/// Rust source for every float table of the digest of dump files: channels, buses,
/// nine-band equalisers and effect processors; `ranges[k]` is as for
/// `generate_rust_tables`.
pub fn generate_file_rust_tables(params: &[ExtractedParam], ranges: &[String]) -> (code: String)
    requires
        params@.len() == ranges@.len(),
    ensures
        code@ == file_float_tables_text(params@, texts_view(ranges@)),
{
    let mut code = String::new();
    let ch: [&str; 7] = ["ch1", "ch2", "ch3", "ch4", "ch5-6", "ch7-8", "usb-bt"];
    let bus: [&str; 5] = ["main", "mon1", "mon2", "fx1", "fx2"];
    let fx: [&str; 2] = ["fx1", "fx2"];
    let ch_names: [&str; 13] = [
        "CHANNEL_LEVELS", "CHANNEL_GAINS", "CHANNEL_PANS", "CHANNEL_COMPRESSORS", "CHANNEL_LOW_CUTS",
        "CHANNEL_EQ_LOW", "CHANNEL_EQ_LOW_MID", "CHANNEL_EQ_HI_MID", "CHANNEL_EQ_HI",
        "CHANNEL_SEND_MON1", "CHANNEL_SEND_MON2", "CHANNEL_SEND_FX1", "CHANNEL_SEND_FX2",
    ];
    let ch_suffixes: [&str; 13] = [
        "level", "gain", "pan", "comp", "lowcut", "eq_low", "eq_lowmid", "eq_himid", "eq_hi",
        "send_mon1", "send_mon2", "send_fx1", "send_fx2",
    ];
    let bus_names: [&str; 3] = ["BUS_LEVELS", "BUS_LIMITERS", "BUS_BALANCES"];
    let bus_suffixes: [&str; 3] = ["level", "limiter", "balance"];
    let band_names: [&str; 9] = [
        "NINE_BAND_62HZ", "NINE_BAND_125HZ", "NINE_BAND_250HZ", "NINE_BAND_500HZ", "NINE_BAND_1KHZ",
        "NINE_BAND_2KHZ", "NINE_BAND_4KHZ", "NINE_BAND_8KHZ", "NINE_BAND_16KHZ",
    ];
    let band_suffixes: [&str; 9] = [
        "9band_62hz", "9band_125hz", "9band_250hz", "9band_500hz", "9band_1khz", "9band_2khz",
        "9band_4khz", "9band_8khz", "9band_16khz",
    ];
    let fx_names: [&str; 3] = ["FX_PARAM1", "FX_PARAM2", "FX_PRESETS"];
    let fx_suffixes: [&str; 3] = ["param1", "param2", "preset"];
    assert(ch@.map_values(|p: &str| p@) =~= channel_tags());
    assert(bus@.map_values(|p: &str| p@) =~= bus_tags());
    assert(fx@.map_values(|p: &str| p@) =~= fx_tags());
    assert(table_names(ch_names@, ch_suffixes@) =~= channel_table_names());
    assert(table_names(bus_names@, bus_suffixes@) =~= file_bus_table_names());
    assert(table_names(band_names@, band_suffixes@) =~= nine_band_table_names());
    assert(table_names(fx_names@, fx_suffixes@) =~= fx_table_names());
    push_float_tables(&mut code, params, ranges, ch_names.as_slice(), ch_suffixes.as_slice(), ch.as_slice());
    push_float_tables(&mut code, params, ranges, bus_names.as_slice(), bus_suffixes.as_slice(), bus.as_slice());
    push_float_tables(&mut code, params, ranges, band_names.as_slice(), band_suffixes.as_slice(), bus.as_slice());
    push_float_tables(&mut code, params, ranges, fx_names.as_slice(), fx_suffixes.as_slice(), fx.as_slice());
    code
}

// ── What the digest finds for each parameter pair ───────────────────────

/// Why a parameter pair could not be compared.
#[derive(Debug, Clone, Copy, PartialEq, Eq)]
pub enum SkipReason {
    InvalidIndices,
    NoPrevious,
    MissingMin,
    MissingMax,
    SizeMismatch,
}

/// What came of comparing a pair's dumps.
#[derive(Debug)]
pub enum PairResult {
    /// Neither dump differs from the one before it.
    NoDifferences,
    /// A switch parameter, with the switch found, if any.
    Switch(Option<BoolExtractedParam>),
    /// Too few or too many offsets changed for a float parameter: how many did.
    OffsetCount(usize),
    /// A float parameter, with where it was found, if anywhere.
    Float(Option<ExtractedParam>),
}

#[derive(Debug)]
pub enum PairFinding {
    Skipped(SkipReason),
    Compared { min_diffs: Vec<usize>, max_diffs: Vec<usize>, union: Vec<usize>, result: PairResult },
}

/// One parameter's part of the digest.
#[derive(Debug)]
pub struct DigestEntry {
    pub name: String,
    pub finding: PairFinding,
}

/// The difference lists of a compared pair: where the minimum dump differs from the one
/// before it, where the maximum differs from the minimum, and both together in order.
pub open spec fn diffs_of(f: PairFinding, prev: Seq<u8>, mn: Seq<u8>, mx: Seq<u8>) -> bool {
    match f {
        PairFinding::Compared { min_diffs, max_diffs, union, .. } => {
            &&& min_diffs@ == diff_offsets(prev, mn)
            &&& max_diffs@ == diff_offsets(mn, mx)
            &&& ascending(union@)
            &&& union@.to_set() == min_diffs@.to_set() + max_diffs@.to_set()
        },
        _ => false,
    }
}

/// The switch of a switch parameter: the first offset that changed from the minimum to the
/// maximum and flips between 0 and 1, under the parameter's name.
pub open spec fn switch_ok(r: PairResult, offs: Seq<usize>, mn: Seq<u8>, mx: Seq<u8>, name: Seq<char>) -> bool {
    match first_switch(offs, mn, mx, 0) {
        Some((o, inv)) => r matches PairResult::Switch(Some(p)) && p.offset == o && p.inverted == inv && p.name@ == name,
        None => r matches PairResult::Switch(None),
    }
}

/// The float parameter found among the changed offsets, under the parameter's name.
pub open spec fn float_ok(r: PairResult, union: Seq<usize>, mn: Seq<u8>, mx: Seq<u8>, name: Seq<char>) -> bool {
    match first_in_subsets(subsets_of(union), mn, mx, 0) {
        Some(c) => r matches PairResult::Float(Some(p)) && extracted_view(p) == c && p.name@ == name,
        None => r matches PairResult::Float(None),
    }
}

/// What the calibration's digest finds for the parameter `name` whose minimum and maximum
/// are dumps `lo` and `hi`.
pub open spec fn calib_finding(f: PairFinding, dumps: Seq<LabelledDump>, name: Seq<char>, lo: int, hi: int) -> bool {
    if lo == 0 || lo >= dumps.len() || hi >= dumps.len() {
        f matches PairFinding::Skipped(SkipReason::InvalidIndices)
    } else {
        let prev = dumps[lo - 1].data@;
        let mn = dumps[lo].data@;
        let mx = dumps[hi].data@;
        if prev.len() != mn.len() || mn.len() != mx.len() {
            f matches PairFinding::Skipped(SkipReason::SizeMismatch)
        } else {
            &&& diffs_of(f, prev, mn, mx)
            &&& if is_switch_name(name) {
                switch_ok(f->result, f->max_diffs@, mn, mx, name)
            } else if f->union@.len() < 5 || f->union@.len() > 8 {
                f->result matches PairResult::OffsetCount(n) && n == f->union@.len()
            } else {
                float_ok(f->result, f->union@, mn, mx, name)
            }
        }
    }
}

/// The three dumps of a pair read from files, when all three were there.
pub open spec fn file_dumps(pair: FileParamPair) -> Option<(Seq<u8>, Seq<u8>, Seq<u8>)> {
    match (dump_view(pair.prev_dump), dump_view(pair.min_dump), dump_view(pair.max_dump)) {
        (Some(prev), Some(mn), Some(mx)) => Some((prev, mn, mx)),
        _ => None,
    }
}

/// Whether a pair read from files goes on to the float search: its dumps are all there, of
/// one length, something changed, and it is no switch.
pub open spec fn reaches_float_search(pair: FileParamPair) -> bool {
    match file_dumps(pair) {
        Some((prev, mn, mx)) => {
            &&& prev.len() == mn.len() && mn.len() == mx.len()
            &&& diff_offsets(prev, mn).len() > 0 || diff_offsets(mn, mx).len() > 0
            &&& !is_switch_name(pair.name@)
        },
        None => false,
    }
}

/// The float parameter the search over files found (`found`), under the pair's name.
pub open spec fn found_ok(r: PairResult, found: Option<ExtractedParam>, name: Seq<char>) -> bool {
    match found {
        Some(q) => r matches PairResult::Float(Some(p)) && extracted_view(p) == extracted_view(q) && p.name@ == name,
        None => r matches PairResult::Float(None),
    }
}

/// What the digest of dump files finds for a pair, given what the float search found.
pub open spec fn file_finding(f: PairFinding, pair: FileParamPair, found: Option<ExtractedParam>) -> bool {
    if pair.prev_dump is None {
        f matches PairFinding::Skipped(SkipReason::NoPrevious)
    } else if pair.min_dump is None {
        f matches PairFinding::Skipped(SkipReason::MissingMin)
    } else if pair.max_dump is None {
        f matches PairFinding::Skipped(SkipReason::MissingMax)
    } else {
        let (prev, mn, mx) = file_dumps(pair)->0;
        if prev.len() != mn.len() || mn.len() != mx.len() {
            f matches PairFinding::Skipped(SkipReason::SizeMismatch)
        } else {
            &&& diffs_of(f, prev, mn, mx)
            &&& if f->union@.len() == 0 {
                f->result is NoDifferences
            } else if is_switch_name(pair.name@) {
                switch_ok(f->result, f->max_diffs@, mn, mx, pair.name@)
            } else {
                found_ok(f->result, found, pair.name@)
            }
        }
    }
}

/// The three difference lists of dumps of one length.
fn compare_dumps(prev: &Vec<u8>, mn: &Vec<u8>, mx: &Vec<u8>) -> (r: (Vec<usize>, Vec<usize>, Vec<usize>))
    requires
        prev@.len() == mn@.len(),
        mn@.len() == mx@.len(),
    ensures
        r.0@ == diff_offsets(prev@, mn@),
        r.1@ == diff_offsets(mn@, mx@),
        ascending(r.2@),
        r.2@.to_set() == r.0@.to_set() + r.1@.to_set(),
        forall|k: int| 0 <= k < r.1@.len() ==> #[trigger] r.1@[k] < mn@.len(),
        forall|k: int| 0 <= k < r.2@.len() ==> #[trigger] r.2@[k] < mn@.len(),
{
    let a = dump_diffs(prev, mn);
    let b = dump_diffs(mn, mx);
    let u = union_sorted(&a, &b);
    assert forall|k: int| 0 <= k < u@.len() implies #[trigger] u@[k] < mn@.len() by {
        assert(u@.to_set().contains(u@[k]));
        if a@.to_set().contains(u@[k]) {
            let q = choose|q: int| 0 <= q < a@.len() && a@[q] == u@[k];
            assert(a@[q] < prev@.len());
        } else {
            assert(b@.to_set().contains(u@[k]));
            let q = choose|q: int| 0 <= q < b@.len() && b@[q] == u@[k];
            assert(b@[q] < mn@.len());
        }
    }
    (a, b, u)
}

/// The switch or float parameter of a compared pair, as the calibration's digest looks.
fn calib_result(name: &String, mn: &Vec<u8>, mx: &Vec<u8>, max_diffs: &Vec<usize>, union: &Vec<usize>) -> (r: PairResult)
    requires
        mn@.len() == mx@.len(),
        forall|k: int| 0 <= k < max_diffs@.len() ==> #[trigger] max_diffs@[k] < mn@.len(),
        forall|k: int| 0 <= k < union@.len() ==> #[trigger] union@[k] < mn@.len(),
    ensures
        if is_switch_name(name@) {
            switch_ok(r, max_diffs@, mn@, mx@, name@)
        } else if union@.len() < 5 || union@.len() > 8 {
            r matches PairResult::OffsetCount(n) && n == union@.len()
        } else {
            float_ok(r, union@, mn@, mx@, name@)
        },
{
    if is_bool_param(name.as_str()) {
        match try_extract_bool(max_diffs.as_slice(), mn.as_slice(), mx.as_slice()) {
            Some(bp) => PairResult::Switch(Some(BoolExtractedParam { name: name.clone(), offset: bp.offset, inverted: bp.inverted })),
            None => PairResult::Switch(None),
        }
    } else if union.len() < 5 || union.len() > 8 {
        PairResult::OffsetCount(union.len())
    } else {
        match try_extract_param(union.as_slice(), mn.as_slice(), mx.as_slice()) {
            Some(p) => PairResult::Float(Some(named_param(p, name))),
            None => PairResult::Float(None),
        }
    }
}

/// The parameter renamed.
fn named_param(p: ExtractedParam, name: &String) -> (r: ExtractedParam)
    ensures
        extracted_view(r) == extracted_view(p),
        r.name@ == name@,
{
    ExtractedParam { name: name.clone(), ..p }
}

/// The digest entry of the calibration's pair `name`, minimum dump `lo`, maximum `hi`.
fn calib_entry(name: &String, dumps: &Vec<LabelledDump>, lo: usize, hi: usize) -> (e: DigestEntry)
    ensures
        e.name@ == name@,
        calib_finding(e.finding, dumps@, name@, lo as int, hi as int),
{
    if lo == 0 || lo >= dumps.len() || hi >= dumps.len() {
        return DigestEntry { name: name.clone(), finding: PairFinding::Skipped(SkipReason::InvalidIndices) };
    }
    let prev = &dumps[lo - 1].data;
    let mn = &dumps[lo].data;
    let mx = &dumps[hi].data;
    if prev.len() != mn.len() || mn.len() != mx.len() {
        return DigestEntry { name: name.clone(), finding: PairFinding::Skipped(SkipReason::SizeMismatch) };
    }
    let (min_diffs, max_diffs, union) = compare_dumps(prev, mn, mx);
    let result = calib_result(name, mn, mx, &max_diffs, &union);
    DigestEntry { name: name.clone(), finding: PairFinding::Compared { min_diffs, max_diffs, union, result } }
}

impl CalibrationState {
    /// What the digest finds for each parameter pair among the dumps taken.
    pub fn digest_entries(&self) -> (entries: Vec<DigestEntry>)
        ensures
            entries@.len() == pairs_from(dump_labels(self.dumps@), 1).len(),
            forall|k: int| 0 <= k < entries@.len() ==> {
                let p = #[trigger] pairs_from(dump_labels(self.dumps@), 1)[k];
                &&& entries@[k].name@ == p.0
                &&& calib_finding(entries@[k].finding, self.dumps@, p.0, p.1, p.2)
            },
    {
        let pairs = self.collect_param_pairs();
        let ghost pv = pairs_from(dump_labels(self.dumps@), 1);
        assert(pairs@.map_values(|p: ParamPair| pair_view(p)) == pv);
        let mut entries: Vec<DigestEntry> = Vec::new();
        let mut i: usize = 0;
        while i < pairs.len()
            invariant
                i <= pairs@.len(),
                pairs@.map_values(|p: ParamPair| pair_view(p)) == pv,
                entries@.len() == i,
                forall|k: int| 0 <= k < i ==> {
                    let p = #[trigger] pv[k];
                    &&& entries@[k].name@ == p.0
                    &&& calib_finding(entries@[k].finding, self.dumps@, p.0, p.1, p.2)
                },
            decreases pairs@.len() - i,
        {
            let pair = &pairs[i];
            assert(pv[i as int] == pair_view(*pair));
            let e = calib_entry(&pair.name, &self.dumps, pair.min_idx, pair.max_idx);
            entries.push(e);
            i = i + 1;
        }
        entries
    }
}

/// The changed offsets a pair read from files hands to the float search, when it reaches
/// it: the offsets at which the minimum or the maximum dump changed, in order.
pub fn float_search_offsets(pair: &FileParamPair) -> (r: Option<Vec<usize>>)
    ensures
        r is Some <==> reaches_float_search(*pair),
        r matches Some(u) ==> {
            let (prev, mn, mx) = file_dumps(*pair)->0;
            &&& ascending(u@)
            &&& u@.to_set() == diff_offsets(prev, mn).to_set() + diff_offsets(mn, mx).to_set()
        },
{
    match (&pair.prev_dump, &pair.min_dump, &pair.max_dump) {
        (Some(prev), Some(mn), Some(mx)) => {
            if prev.len() != mn.len() || mn.len() != mx.len() || is_bool_param(pair.name.as_str()) {
                return None;
            }
            let (a, b, u) = compare_dumps(prev, mn, mx);
            if u.len() == 0 {
                proof {
                    if a@.len() > 0 {
                        assert(u@.to_set().contains(a@[0]));
                    }
                    if b@.len() > 0 {
                        assert(u@.to_set().contains(b@[0]));
                    }
                }
                return None;
            }
            proof {
                if a@.len() == 0 && b@.len() == 0 {
                    assert(a@.to_set() =~= Set::empty());
                    assert(b@.to_set() =~= Set::empty());
                    assert(u@.to_set().contains(u@[0]));
                }
            }
            Some(u)
        },
        _ => None,
    }
}

/// The digest entry of a pair read from files; `found` is what the float search found for
/// it, used only when the pair reaches that search.
pub fn file_digest_entry(pair: &FileParamPair, found: Option<ExtractedParam>) -> (e: DigestEntry)
    ensures
        e.name@ == pair.name@,
        file_finding(e.finding, *pair, found),
{
    let name = pair.name.clone();
    let (prev, mn, mx) = match (&pair.prev_dump, &pair.min_dump, &pair.max_dump) {
        (None, _, _) => {
            return DigestEntry { name, finding: PairFinding::Skipped(SkipReason::NoPrevious) };
        },
        (Some(_), None, _) => {
            return DigestEntry { name, finding: PairFinding::Skipped(SkipReason::MissingMin) };
        },
        (Some(_), Some(_), None) => {
            return DigestEntry { name, finding: PairFinding::Skipped(SkipReason::MissingMax) };
        },
        (Some(prev), Some(mn), Some(mx)) => (prev, mn, mx),
    };
    if prev.len() != mn.len() || mn.len() != mx.len() {
        return DigestEntry { name, finding: PairFinding::Skipped(SkipReason::SizeMismatch) };
    }
    let (min_diffs, max_diffs, union) = compare_dumps(prev, mn, mx);
    let result = if union.len() == 0 {
        PairResult::NoDifferences
    } else if is_bool_param(pair.name.as_str()) {
        match try_extract_bool(max_diffs.as_slice(), mn.as_slice(), mx.as_slice()) {
            Some(bp) => PairResult::Switch(Some(BoolExtractedParam { name: pair.name.clone(), offset: bp.offset, inverted: bp.inverted })),
            None => PairResult::Switch(None),
        }
    } else {
        match found {
            Some(p) => PairResult::Float(Some(named_param(p, &pair.name))),
            None => PairResult::Float(None),
        }
    };
    DigestEntry { name, finding: PairFinding::Compared { min_diffs, max_diffs, union, result } }
}


// ── The digest text ─────────────────────────────────────────────────────

/// Which of the two digests is written: the calibration's own, or the one read back from
/// dump files. They differ in a few words.
#[derive(Debug, Clone, Copy, PartialEq, Eq)]
pub enum DigestStyle {
    Calibration,
    Files,
}

pub open spec fn skip_text(r: SkipReason, style: DigestStyle) -> Seq<char> {
    match r {
        SkipReason::InvalidIndices => "WARNING: Invalid dump indices\n\n"@,
        SkipReason::NoPrevious => "SKIP: No previous dump available\n\n"@,
        SkipReason::MissingMin => "SKIP: Missing min dump\n\n"@,
        SkipReason::MissingMax => "SKIP: Missing max dump\n\n"@,
        SkipReason::SizeMismatch => if style is Calibration {
            "WARNING: Dump size mismatch\n\n"@
        } else {
            "SKIP: Dump size mismatch\n\n"@
        },
    }
}

pub open spec fn diffs_text(min: Seq<usize>, max: Seq<usize>, union: Seq<usize>) -> Seq<char> {
    "Min diff ("@ + decimal(min.len()) + " bytes): "@ + offsets_text(min) + "\nMax diff ("@ + decimal(max.len()) + " bytes): "@
        + offsets_text(max) + "\nUnion ("@ + decimal(union.len()) + " offsets): "@ + offsets_text(union) + "\n\n"@
}

pub open spec fn found_offsets_text(p: ExtractedParam) -> Seq<char> {
    "OK: msb=0x"@ + hex_padded(p.msb_off as nat, 4) + " data=[0x"@ + hex_padded(p.data_offs[0] as nat, 4) + ", 0x"@ + hex_padded(
        p.data_offs[1] as nat,
        4,
    ) + ", 0x"@ + hex_padded(p.data_offs[2] as nat, 4) + ", 0x"@ + hex_padded(p.data_offs[3] as nat, 4) + "] "@
}

pub open spec fn found_bits_text(p: ExtractedParam) -> Seq<char> {
    "bits=["@ + decimal(p.bit_indices[0] as nat) + ", "@ + decimal(p.bit_indices[1] as nat) + ", "@ + decimal(
        p.bit_indices[2] as nat,
    ) + ", "@ + decimal(p.bit_indices[3] as nat) + "]\n"@
}

/// The lines on what a compared pair gave; `range` is the found float's value range.
pub open spec fn result_text(r: PairResult, range: Seq<char>) -> Seq<char> {
    match r {
        PairResult::NoDifferences => "SKIP: No byte differences found\n\n"@,
        PairResult::Switch(Some(p)) => "OK (bool): offset=0x"@ + hex_padded(p.offset as nat, 4) + (if p.inverted {
            " (inverted: 0x01=off)"@
        } else {
            seq![]
        }) + "\n\n"@,
        PairResult::Switch(None) => "FAILED: Could not auto-extract BoolParam\n\n"@,
        PairResult::OffsetCount(n) => "WARNING: Expected ~5 offsets, got "@ + decimal(n as nat) + ". Skipping.\n\n"@,
        PairResult::Float(Some(p)) => found_offsets_text(p) + found_bits_text(p) + "   float range: "@ + range + "\n\n"@,
        PairResult::Float(None) => "FAILED: Could not auto-extract FloatParam\n\n"@,
    }
}

pub open spec fn entry_text(e: DigestEntry, range: Seq<char>, style: DigestStyle) -> Seq<char> {
    "## "@ + e.name@ + "\n\n"@ + match e.finding {
        PairFinding::Skipped(r) => skip_text(r, style),
        PairFinding::Compared { min_diffs, max_diffs, union, result } => diffs_text(min_diffs@, max_diffs@, union@) + result_text(
            result,
            range,
        ),
    }
}

/// The entries' parts, entry `k` with range `ranges[k]`.
pub open spec fn entries_text(es: Seq<DigestEntry>, ranges: Seq<Seq<char>>, style: DigestStyle) -> Seq<char>
    decreases es.len(),
{
    if es.len() == 0 {
        seq![]
    } else {
        entries_text(es.drop_last(), ranges, style) + entry_text(es.last(), ranges[es.len() - 1], style)
    }
}

/// Whether nothing was extracted for the entry.
pub open spec fn is_failure(f: PairFinding) -> bool {
    !(f matches PairFinding::Compared { result: PairResult::Switch(Some(_)), .. }) && !(f matches PairFinding::Compared {
        result: PairResult::Float(Some(_)),
        ..
    })
}

pub open spec fn failed_names(es: Seq<DigestEntry>) -> Seq<Seq<char>>
    decreases es.len(),
{
    if es.len() == 0 {
        seq![]
    } else {
        failed_names(es.drop_last()) + if is_failure(es.last().finding) {
            seq![es.last().name@]
        } else {
            seq![]
        }
    }
}

pub open spec fn switches_found(es: Seq<DigestEntry>) -> Seq<BoolExtractedParam>
    decreases es.len(),
{
    if es.len() == 0 {
        seq![]
    } else {
        switches_found(es.drop_last()) + match es.last().finding {
            PairFinding::Compared { result: PairResult::Switch(Some(p)), .. } => seq![p],
            _ => seq![],
        }
    }
}

pub open spec fn floats_found(es: Seq<DigestEntry>) -> Seq<ExtractedParam>
    decreases es.len(),
{
    if es.len() == 0 {
        seq![]
    } else {
        floats_found(es.drop_last()) + match es.last().finding {
            PairFinding::Compared { result: PairResult::Float(Some(p)), .. } => seq![p],
            _ => seq![],
        }
    }
}

/// The ranges of the floats found, `ranges[k]` standing for entry `k`.
pub open spec fn float_ranges_found(es: Seq<DigestEntry>, ranges: Seq<Seq<char>>) -> Seq<Seq<char>>
    decreases es.len(),
{
    if es.len() == 0 {
        seq![]
    } else {
        float_ranges_found(es.drop_last(), ranges) + match es.last().finding {
            PairFinding::Compared { result: PairResult::Float(Some(_)), .. } => seq![ranges[es.len() - 1]],
            _ => seq![],
        }
    }
}

pub open spec fn name_list_text(names: Seq<Seq<char>>) -> Seq<char>
    decreases names.len(),
{
    if names.len() == 0 {
        seq![]
    } else {
        name_list_text(names.drop_last()) + "- "@ + names.last() + "\n"@
    }
}

pub open spec fn digest_head(n_dumps: nat, n_pairs: nat, style: DigestStyle) -> Seq<char> {
    "# SysEx Calibration Digest\n\n"@ + (if style is Calibration {
        "Auto-extracted from "@
    } else {
        "Extracted from "@
    }) + decimal(n_dumps) + " dumps ("@ + decimal(n_pairs) + " param pairs).\n\n"@
}

/// The float tables each digest writes.
pub open spec fn tables_of_style(params: Seq<ExtractedParam>, ranges: Seq<Seq<char>>, style: DigestStyle) -> Seq<char> {
    match style {
        DigestStyle::Calibration => float_tables_text(params, ranges),
        DigestStyle::Files => file_float_tables_text(params, ranges),
    }
}

pub open spec fn code_part(es: Seq<DigestEntry>, table_ranges: Seq<Seq<char>>, style: DigestStyle) -> Seq<char> {
    "---\n\n# Generated Rust Code\n\n"@ + (if style is Files {
        "Copy these tables into `src/sysex_parser.rs`.\n\n"@
    } else {
        seq![]
    }) + tables_of_style(floats_found(es), float_ranges_found(es, table_ranges), style) + if switches_found(es).len() > 0 {
        "\n# Boolean Parameters\n\n"@ + bool_tables_text(switches_found(es))
    } else {
        seq![]
    }
}

pub open spec fn failures_part(es: Seq<DigestEntry>, style: DigestStyle) -> Seq<char> {
    let failed = failed_names(es);
    if failed.len() > 0 {
        (if style is Calibration {
            "\n# Failed Extractions\n\n"@
        } else {
            "\n# Failed Extractions ("@ + decimal(failed.len()) + "/"@ + decimal(es.len()) + ")\n\n"@
        }) + name_list_text(failed)
    } else {
        seq![]
    }
}

/// The digest: a part per parameter, the generated tables, and the parameters for which
/// nothing was found. `ranges[k]` and `table_ranges[k]` are the value range of entry `k`'s
/// float, if one was found, as the entry and the tables write it.
pub open spec fn digest_text_of(
    es: Seq<DigestEntry>,
    n_dumps: nat,
    ranges: Seq<Seq<char>>,
    table_ranges: Seq<Seq<char>>,
    style: DigestStyle,
) -> Seq<char> {
    digest_head(n_dumps, es.len(), style) + entries_text(es, ranges, style) + code_part(es, table_ranges, style) + failures_part(es, style)
}

fn copy_param(p: &ExtractedParam) -> (r: ExtractedParam)
    ensures
        r == *p,
{
    ExtractedParam {
        name: p.name.clone(),
        msb_off: p.msb_off,
        data_offs: p.data_offs,
        bit_indices: p.bit_indices,
        min_bits: p.min_bits,
        max_bits: p.max_bits,
    }
}

fn copy_switch(p: &BoolExtractedParam) -> (r: BoolExtractedParam)
    ensures
        r == *p,
{
    BoolExtractedParam { name: p.name.clone(), offset: p.offset, inverted: p.inverted }
}

fn push_found_offsets(out: &mut String, p: &ExtractedParam)
    ensures
        final(out)@ == old(out)@ + found_offsets_text(*p),
{
    let ghost start = out@;
    out.append("OK: msb=0x");
    push_hex_padded(out, p.msb_off as u64, 4);
    out.append(" data=[0x");
    push_hex_padded(out, p.data_offs[0] as u64, 4);
    out.append(", 0x");
    push_hex_padded(out, p.data_offs[1] as u64, 4);
    out.append(", 0x");
    push_hex_padded(out, p.data_offs[2] as u64, 4);
    out.append(", 0x");
    push_hex_padded(out, p.data_offs[3] as u64, 4);
    out.append("] ");
    assert(out@ =~= start + found_offsets_text(*p));
}

fn push_found_bits(out: &mut String, p: &ExtractedParam)
    ensures
        final(out)@ == old(out)@ + found_bits_text(*p),
{
    let ghost start = out@;
    out.append("bits=[");
    push_decimal(out, p.bit_indices[0] as u64);
    out.append(", ");
    push_decimal(out, p.bit_indices[1] as u64);
    out.append(", ");
    push_decimal(out, p.bit_indices[2] as u64);
    out.append(", ");
    push_decimal(out, p.bit_indices[3] as u64);
    out.append("]\n");
    assert(out@ =~= start + found_bits_text(*p));
}

fn push_found_float(out: &mut String, p: &ExtractedParam, range: &String)
    ensures
        final(out)@ == old(out)@ + found_offsets_text(*p) + found_bits_text(*p) + "   float range: "@ + range@ + "\n\n"@,
{
    let ghost start = out@;
    push_found_offsets(out, p);
    push_found_bits(out, p);
    out.append("   float range: ");
    out.append(range.as_str());
    out.append("\n\n");
    assert(out@ =~= start + found_offsets_text(*p) + found_bits_text(*p) + "   float range: "@ + range@ + "\n\n"@);
}

fn push_result_text(out: &mut String, r: &PairResult, range: &String)
    ensures
        final(out)@ == old(out)@ + result_text(*r, range@),
{
    let ghost start = out@;
    match r {
        PairResult::NoDifferences => {
            out.append("SKIP: No byte differences found\n\n");
        },
        PairResult::Switch(Some(p)) => {
            out.append("OK (bool): offset=0x");
            push_hex_padded(out, p.offset as u64, 4);
            if p.inverted {
                out.append(" (inverted: 0x01=off)");
            }
            out.append("\n\n");
            assert(out@ =~= start + result_text(*r, range@));
        },
        PairResult::Switch(None) => {
            out.append("FAILED: Could not auto-extract BoolParam\n\n");
        },
        PairResult::OffsetCount(n) => {
            out.append("WARNING: Expected ~5 offsets, got ");
            push_decimal(out, *n as u64);
            out.append(". Skipping.\n\n");
            assert(out@ =~= start + result_text(*r, range@));
        },
        PairResult::Float(Some(p)) => {
            push_found_float(out, p, range);
        },
        PairResult::Float(None) => {
            out.append("FAILED: Could not auto-extract FloatParam\n\n");
        },
    }
}

fn push_diffs_text(out: &mut String, min: &Vec<usize>, max: &Vec<usize>, union: &Vec<usize>)
    ensures
        final(out)@ == old(out)@ + diffs_text(min@, max@, union@),
{
    let ghost start = out@;
    out.append("Min diff (");
    push_decimal(out, min.len() as u64);
    out.append(" bytes): ");
    out.append(fmt_offsets(min.as_slice()).as_str());
    out.append("\nMax diff (");
    push_decimal(out, max.len() as u64);
    out.append(" bytes): ");
    out.append(fmt_offsets(max.as_slice()).as_str());
    let ghost mid = out@;
    out.append("\nUnion (");
    push_decimal(out, union.len() as u64);
    out.append(" offsets): ");
    out.append(fmt_offsets(union.as_slice()).as_str());
    out.append("\n\n");
    assert(out@ =~= start + diffs_text(min@, max@, union@));
}

fn push_skip_text(out: &mut String, r: SkipReason, style: DigestStyle)
    ensures
        final(out)@ == old(out)@ + skip_text(r, style),
{
    match r {
        SkipReason::InvalidIndices => out.append("WARNING: Invalid dump indices\n\n"),
        SkipReason::NoPrevious => out.append("SKIP: No previous dump available\n\n"),
        SkipReason::MissingMin => out.append("SKIP: Missing min dump\n\n"),
        SkipReason::MissingMax => out.append("SKIP: Missing max dump\n\n"),
        SkipReason::SizeMismatch => match style {
            DigestStyle::Calibration => out.append("WARNING: Dump size mismatch\n\n"),
            DigestStyle::Files => out.append("SKIP: Dump size mismatch\n\n"),
        },
    }
}

fn push_entry_text(out: &mut String, e: &DigestEntry, range: &String, style: DigestStyle)
    ensures
        final(out)@ == old(out)@ + entry_text(*e, range@, style),
{
    let ghost start = out@;
    out.append("## ");
    out.append(e.name.as_str());
    out.append("\n\n");
    let ghost head = out@;
    match &e.finding {
        PairFinding::Skipped(r) => {
            push_skip_text(out, *r, style);
        },
        PairFinding::Compared { min_diffs, max_diffs, union, result } => {
            push_diffs_text(out, min_diffs, max_diffs, union);
            push_result_text(out, result, range);
        },
    }
    assert(out@ =~= start + entry_text(*e, range@, style));
}

/// What the digest gathers while writing the entries: the names of the failed pairs, the
/// switches and floats found, and the floats' ranges as the tables write them.
struct Gathered {
    failed: Vec<String>,
    switches: Vec<BoolExtractedParam>,
    floats: Vec<ExtractedParam>,
    float_ranges: Vec<String>,
}

fn push_entries(out: &mut String, entries: &Vec<DigestEntry>, ranges: &Vec<String>, table_ranges: &Vec<String>, style: DigestStyle) -> (g: Gathered)
    requires
        ranges@.len() == entries@.len(),
        table_ranges@.len() == entries@.len(),
    ensures
        final(out)@ == old(out)@ + entries_text(entries@, texts_view(ranges@), style),
        texts_view(g.failed@) == failed_names(entries@),
        g.switches@ == switches_found(entries@),
        g.floats@ == floats_found(entries@),
        texts_view(g.float_ranges@) == float_ranges_found(entries@, texts_view(table_ranges@)),
        g.floats@.len() == g.float_ranges@.len(),
{
    let ghost es = entries@;
    let ghost rv = texts_view(ranges@);
    let ghost tv = texts_view(table_ranges@);
    let ghost head = out@;
    let mut failed: Vec<String> = Vec::new();
    let mut switches: Vec<BoolExtractedParam> = Vec::new();
    let mut floats: Vec<ExtractedParam> = Vec::new();
    let mut float_ranges: Vec<String> = Vec::new();
    let mut i: usize = 0;
    while i < entries.len()
        invariant
            es == entries@,
            rv == texts_view(ranges@),
            tv == texts_view(table_ranges@),
            ranges@.len() == es.len(),
            table_ranges@.len() == es.len(),
            i <= es.len(),
            out@ == head + entries_text(es.take(i as int), rv, style),
            texts_view(failed@) == failed_names(es.take(i as int)),
            switches@ == switches_found(es.take(i as int)),
            floats@ == floats_found(es.take(i as int)),
            texts_view(float_ranges@) == float_ranges_found(es.take(i as int), tv),
            floats@.len() == float_ranges@.len(),
        decreases es.len() - i,
    {
        let e = &entries[i];
        let ghost t = es.take(i + 1);
        assert(t.drop_last() =~= es.take(i as int));
        assert(t.last() == *e);
        push_entry_text(out, e, &ranges[i], style);
        let ghost f0 = failed@;
        let ghost r0 = float_ranges@;
        match &e.finding {
            PairFinding::Compared { result: PairResult::Switch(Some(p)), .. } => {
                switches.push(copy_switch(p));
            },
            PairFinding::Compared { result: PairResult::Float(Some(p)), .. } => {
                floats.push(copy_param(p));
                float_ranges.push(table_ranges[i].clone());
                assert(texts_view(float_ranges@) =~= texts_view(r0).push(tv[i as int]));
            },
            _ => {
                failed.push(e.name.clone());
                assert(texts_view(failed@) =~= texts_view(f0).push(e.name@));
            },
        }
        i = i + 1;
    }
    assert(es.take(es.len() as int) =~= es);
    Gathered { failed, switches, floats, float_ranges }
}

fn push_failures(out: &mut String, failed: &Vec<String>, n_pairs: usize, style: DigestStyle)
    ensures
        final(out)@ == old(out)@ + if failed@.len() > 0 {
            (if style is Calibration {
                "\n# Failed Extractions\n\n"@
            } else {
                "\n# Failed Extractions ("@ + decimal(failed@.len()) + "/"@ + decimal(n_pairs as nat) + ")\n\n"@
            }) + name_list_text(texts_view(failed@))
        } else {
            seq![]
        },
{
    let ghost start = out@;
    if failed.len() > 0 {
        match style {
            DigestStyle::Calibration => out.append("\n# Failed Extractions\n\n"),
            DigestStyle::Files => {
                out.append("\n# Failed Extractions (");
                push_decimal(out, failed.len() as u64);
                out.append("/");
                push_decimal(out, n_pairs as u64);
                out.append(")\n\n");
            },
        }
        let ghost listed = out@;
        let mut k: usize = 0;
        while k < failed.len()
            invariant
                k <= failed@.len(),
                out@ == listed + name_list_text(texts_view(failed@).take(k as int)),
            decreases failed@.len() - k,
        {
            assert(texts_view(failed@).take(k + 1).drop_last() =~= texts_view(failed@).take(k as int));
            out.append("- ");
            out.append(failed[k].as_str());
            out.append("\n");
            k = k + 1;
        }
        assert(texts_view(failed@).take(failed@.len() as int) =~= texts_view(failed@));
        assert(out@ =~= start + (if style is Calibration {
            "\n# Failed Extractions\n\n"@
        } else {
            "\n# Failed Extractions ("@ + decimal(failed@.len()) + "/"@ + decimal(n_pairs as nat) + ")\n\n"@
        }) + name_list_text(texts_view(failed@)));
    } else {
        assert(out@ =~= start + Seq::<char>::empty());
    }
}

fn push_code_part(out: &mut String, g: &Gathered, style: DigestStyle)
    requires
        g.floats@.len() == g.float_ranges@.len(),
    ensures
        final(out)@ == old(out)@ + "---\n\n# Generated Rust Code\n\n"@ + (if style is Files {
            "Copy these tables into `src/sysex_parser.rs`.\n\n"@
        } else {
            seq![]
        }) + tables_of_style(g.floats@, texts_view(g.float_ranges@), style) + if g.switches@.len() > 0 {
            "\n# Boolean Parameters\n\n"@ + bool_tables_text(g.switches@)
        } else {
            seq![]
        },
{
    let ghost start = out@;
    out.append("---\n\n# Generated Rust Code\n\n");
    match style {
        DigestStyle::Files => out.append("Copy these tables into `src/sysex_parser.rs`.\n\n"),
        DigestStyle::Calibration => {},
    }
    let tables = match style {
        DigestStyle::Calibration => generate_rust_tables(g.floats.as_slice(), g.float_ranges.as_slice()),
        DigestStyle::Files => generate_file_rust_tables(g.floats.as_slice(), g.float_ranges.as_slice()),
    };
    out.append(tables.as_str());
    let ghost mid = out@;
    if g.switches.len() > 0 {
        out.append("\n# Boolean Parameters\n\n");
        let bools = generate_rust_bool_tables(g.switches.as_slice());
        out.append(bools.as_str());
        assert(out@ =~= mid + "\n# Boolean Parameters\n\n"@ + bool_tables_text(g.switches@));
    } else {
        assert(out@ =~= mid + Seq::<char>::empty());
    }
}

/// The digest text of the entries (see `digest_text_of`); `n_dumps` is how many dumps
/// were read.
#[verifier::spinoff_prover]
#[verifier::rlimit(40)]
pub fn digest_text(
    entries: &Vec<DigestEntry>,
    n_dumps: usize,
    ranges: &Vec<String>,
    table_ranges: &Vec<String>,
    style: DigestStyle,
) -> (text: String)
    requires
        ranges@.len() == entries@.len(),
        table_ranges@.len() == entries@.len(),
    ensures
        text@ == digest_text_of(entries@, n_dumps as nat, texts_view(ranges@), texts_view(table_ranges@), style),
{
    let ghost es = entries@;
    let ghost tv = texts_view(table_ranges@);
    let mut out = String::from_str("# SysEx Calibration Digest\n\n");
    match style {
        DigestStyle::Calibration => out.append("Auto-extracted from "),
        DigestStyle::Files => out.append("Extracted from "),
    }
    push_decimal(&mut out, n_dumps as u64);
    out.append(" dumps (");
    push_decimal(&mut out, entries.len() as u64);
    out.append(" param pairs).\n\n");
    assert(out@ =~= digest_head(n_dumps as nat, es.len(), style));
    let g = push_entries(&mut out, entries, ranges, table_ranges, style);
    let ghost body = out@;
    push_code_part(&mut out, &g, style);
    assert(out@ == body + code_part(es, tv, style));
    let ghost coded = out@;
    push_failures(&mut out, &g.failed, entries.len(), style);
    assert(out@ == coded + failures_part(es, style));
    out
}

} // verus!
