use vstd::prelude::*;

use crate::text::{contains_text, text_contains, to_uppercase, uppercase_text};

verus! {

/// A MIDI port as the interface lists it.
#[derive(Debug)]
pub struct MidiDeviceInfo {
    pub index: usize,
    pub name: String,
    pub is_flow8: bool,
}

/// Whether a port name is the mixer's: it holds "FLOW 8", upper and lower case alike.
pub open spec fn is_flow8_name(name: Seq<char>) -> bool {
    contains_text(uppercase_text(name), uppercase_text("FLOW 8"@))
}

/// Whether a port of this name is the mixer.
pub fn is_flow8_port(name: &str) -> (r: bool)
    ensures
        r == is_flow8_name(name@),
{
    let upper = to_uppercase(name);
    let keyword = to_uppercase("FLOW 8");
    text_contains(upper.as_str(), keyword.as_str())
}

/// Whether a Bluetooth device name is the mixer's: it holds "FLOW", in any case.
pub open spec fn is_flow8_ble_name(name: Seq<char>) -> bool {
    contains_text(uppercase_text(name), "FLOW"@)
}

pub fn is_flow8_ble_device(name: &str) -> (r: bool)
    ensures
        r == is_flow8_ble_name(name@),
{
    let upper = to_uppercase(name);
    text_contains(upper.as_str(), "FLOW")
}

/// The port description of port `index`.
pub fn describe_port(index: usize, name: String) -> (d: MidiDeviceInfo)
    ensures
        d.index == index,
        d.name == name,
        d.is_flow8 == is_flow8_name(name@),
{
    let is_flow8 = is_flow8_port(name.as_str());
    MidiDeviceInfo { index, name, is_flow8 }
}

/// The mixer's ports first, then the others, each group in its original order.
pub open spec fn flow8_first(v: Seq<MidiDeviceInfo>) -> Seq<MidiDeviceInfo> {
    v.filter(|d: MidiDeviceInfo| d.is_flow8) + v.filter(|d: MidiDeviceInfo| !d.is_flow8)
}

/// Orders a port list with the mixer's ports first (a stable partition).
pub fn order_flow8_first(devices: Vec<MidiDeviceInfo>) -> (v: Vec<MidiDeviceInfo>)
    ensures
        v@ == flow8_first(devices@),
{
    let ghost orig = devices@;
    let total: usize = devices.len();
    let ghost p = |d: MidiDeviceInfo| d.is_flow8;
    let ghost q = |d: MidiDeviceInfo| !d.is_flow8;
    let mut first: Vec<MidiDeviceInfo> = Vec::new();
    let mut rest: Vec<MidiDeviceInfo> = Vec::new();
    let mut devices = devices;
    let mut taken: Vec<MidiDeviceInfo> = Vec::new();
    // Reverse the list so that popping yields the devices in their given order.
    while devices.len() > 0
        invariant
            taken@ + devices@.reverse() == orig.reverse(),
            orig.len() == total,
        decreases devices@.len(),
    {
        let d = devices.pop().unwrap();
        taken.push(d);
        proof {
            assert(taken@ + devices@.reverse() =~= orig.reverse());
        }
    }
    assert(taken@ =~= orig.reverse());
    let mut i: usize = 0;
    let ghost n = taken@.len();
    while taken.len() > 0
        invariant
            n == orig.len(),
            n == total,
            taken@ == orig.reverse().take(n - i),
            i <= n,
            taken@.len() == n - i,
            first@ == orig.take(i as int).filter(p),
            rest@ == orig.take(i as int).filter(q),
            p == (|d: MidiDeviceInfo| d.is_flow8),
            q == (|d: MidiDeviceInfo| !d.is_flow8),
        decreases taken@.len(),
    {
        let ghost before_taken = taken@;
        let d = taken.pop().unwrap();
        proof {
            assert(d == orig[i as int]);
            assert(orig.take(i + 1) =~= orig.take(i as int).push(d));
            orig.take(i as int).lemma_filter_push(d, p);
            orig.take(i as int).lemma_filter_push(d, q);
            assert(taken@ =~= orig.reverse().take(n - i - 1));
        }
        if d.is_flow8 {
            first.push(d);
        } else {
            rest.push(d);
        }
        i = i + 1;
    }
    assert(orig.take(n as int) =~= orig);
    first.append(&mut rest);
    first
}

/// The position of the first of the mixer's ports in a list, if any.
pub fn find_flow8(devices: &Vec<MidiDeviceInfo>) -> (r: Option<usize>)
    ensures
        r matches Some(k) ==> k < devices@.len() && devices@[k as int].is_flow8 && forall|j: int| 0 <= j < k ==> !(#[trigger] devices@[j]).is_flow8,
        r is None ==> forall|j: int| 0 <= j < devices@.len() ==> !(#[trigger] devices@[j]).is_flow8,
{
    let mut k: usize = 0;
    while k < devices.len()
        invariant
            k <= devices@.len(),
            forall|j: int| 0 <= j < k ==> !(#[trigger] devices@[j]).is_flow8,
        decreases devices@.len() - k,
    {
        if devices[k].is_flow8 {
            return Some(k);
        }
        k = k + 1;
    }
    None
}

} // verus!
