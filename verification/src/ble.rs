use vstd::prelude::*;
use vstd::string::StringExecFns;
use vstd::utf8::{decode_utf8, valid_utf8};

verus! {

/// The state of the Bluetooth LE link to the mixer.
#[derive(Debug, Clone, Copy, PartialEq, Eq, Structural)]
pub enum BleStatus {
    Unavailable,
    Scanning,
    Connecting,
    Authenticating,
    Connected,
    Disconnected,
    Error,
}

pub open spec fn ble_status_text(s: BleStatus) -> Seq<char> {
    match s {
        BleStatus::Unavailable => "BT Unavailable"@,
        BleStatus::Scanning => "BT Scanning..."@,
        BleStatus::Connecting => "BT Connecting..."@,
        BleStatus::Authenticating => "BT Authenticating..."@,
        BleStatus::Connected => "BT Connected"@,
        BleStatus::Disconnected => "BT Disconnected"@,
        BleStatus::Error => "BT Error"@,
    }
}

impl BleStatus {
    pub fn to_string(&self) -> (s: String)
        ensures
            s@ == ble_status_text(*self),
    {
        match *self {
            BleStatus::Unavailable => String::from_str("BT Unavailable"),
            BleStatus::Scanning => String::from_str("BT Scanning..."),
            BleStatus::Connecting => String::from_str("BT Connecting..."),
            BleStatus::Authenticating => String::from_str("BT Authenticating..."),
            BleStatus::Connected => String::from_str("BT Connected"),
            BleStatus::Disconnected => String::from_str("BT Disconnected"),
            BleStatus::Error => String::from_str("BT Error"),
        }
    }

    /// Whether a connection attempt is running or established.
    pub fn is_active(&self) -> (r: bool)
        ensures
            r == (*self == BleStatus::Connected || *self == BleStatus::Scanning || *self
                == BleStatus::Connecting || *self == BleStatus::Authenticating),
    {
        matches!(
            *self,
            BleStatus::Connected | BleStatus::Scanning | BleStatus::Connecting
                | BleStatus::Authenticating
        )
    }
}

pub const SERVICE_UUID: &'static str = "14839ad4-8d7e-415c-9a42-167340cf2339";

pub const CHARACTERISTIC_UUID: &'static str = "0034594a-a8e7-4b1a-a6b1-cd5243059a57";

pub const SNAPSHOT_RESPONSE_TYPE: u8 = 0x27;

pub const STATE_DUMP_TYPE: u8 = 0x38;

/// The sum of the bytes of `s`, modulo 256.
pub open spec fn byte_sum(s: Seq<u8>) -> nat
    decreases s.len(),
{
    if s.len() == 0 {
        0
    } else {
        ((byte_sum(s.drop_last()) + s.last()) % 256) as nat
    }
}

/// A packet of the mixer's BLE protocol: a type byte, a version byte, the payload and a
/// last byte that is the sum of all the bytes before it, modulo 256.
pub open spec fn is_framed_packet(p: Seq<u8>) -> bool {
    &&& p.len() >= 3
    &&& p.last() as nat == byte_sum(p.drop_last())
}

/// Computes the checksum byte of a packet body.
pub fn checksum(body: &[u8]) -> (c: u8)
    ensures
        c as nat == byte_sum(body@),
{
    let mut sum: u8 = 0;
    let mut i: usize = 0;
    while i < body.len()
        invariant
            i <= body.len(),
            sum as nat == byte_sum(body@.subrange(0, i as int)),
        decreases body.len() - i,
    {
        assert(body@.subrange(0, i + 1).drop_last() =~= body@.subrange(0, i as int));
        sum = ((sum as u16 + body[i] as u16) % 256) as u8;
        i = i + 1;
    }
    assert(body@.subrange(0, body.len() as int) =~= body@);
    sum
}

/// Builds a packet of type `kind` (version 1) around `payload`, closed by its checksum.
pub fn frame_packet(kind: u8, payload: &[u8]) -> (p: Vec<u8>)
    requires
        payload.len() < usize::MAX - 3,
    ensures
        p@.len() == payload.len() + 3,
        p@[0] == kind,
        p@[1] == 1u8,
        p@.subrange(2, p@.len() - 1) == payload@,
        is_framed_packet(p@),
{
    let mut p: Vec<u8> = Vec::new();
    p.push(kind);
    p.push(1);
    let mut i: usize = 0;
    while i < payload.len()
        invariant
            i <= payload.len(),
            p@.len() == i + 2,
            p@[0] == kind,
            p@[1] == 1u8,
            p@.subrange(2, p@.len() as int) == payload@.subrange(0, i as int),
        decreases payload.len() - i,
    {
        p.push(payload[i]);
        i = i + 1;
        assert(p@.subrange(2, p@.len() as int) =~= payload@.subrange(0, i as int));
    }
    assert(payload@.subrange(0, payload.len() as int) =~= payload@);
    let c = checksum(p.as_slice());
    let ghost body = p@;
    p.push(c);
    assert(p@.drop_last() =~= body);
    assert(p@.subrange(2, p@.len() - 1) =~= payload@);
    p
}

/// The checksum of the authentication packet's body is 0x2A.
proof fn lemma_auth_checksum()
    ensures
        byte_sum(seq![0x39u8, 0x01, 0xFD, 0x06, 0x2B, 0x06, 0x39, 0xF1, 0x7F, 0xE7, 0xB7, 0x27, 0x8B, 0x8F, 0x35, 0x5A, 0x49, 0x5C]) == 0x2A,
{
    let s = seq![0x39u8, 0x01, 0xFD, 0x06, 0x2B, 0x06, 0x39, 0xF1, 0x7F, 0xE7, 0xB7, 0x27, 0x8B, 0x8F, 0x35, 0x5A, 0x49, 0x5C];
    assert(s.take(0) =~= Seq::<u8>::empty());
    assert(byte_sum(s.take(0)) == 0);
    assert(s.take(1).drop_last() =~= s.take(0));
    assert(s.take(1).last() == s[0]);
    assert(byte_sum(s.take(1)) == 57);
    assert(s.take(2).drop_last() =~= s.take(1));
    assert(s.take(2).last() == s[1]);
    assert(byte_sum(s.take(2)) == 58);
    assert(s.take(3).drop_last() =~= s.take(2));
    assert(s.take(3).last() == s[2]);
    assert(byte_sum(s.take(3)) == 55);
    assert(s.take(4).drop_last() =~= s.take(3));
    assert(s.take(4).last() == s[3]);
    assert(byte_sum(s.take(4)) == 61);
    assert(s.take(5).drop_last() =~= s.take(4));
    assert(s.take(5).last() == s[4]);
    assert(byte_sum(s.take(5)) == 104);
    assert(s.take(6).drop_last() =~= s.take(5));
    assert(s.take(6).last() == s[5]);
    assert(byte_sum(s.take(6)) == 110);
    assert(s.take(7).drop_last() =~= s.take(6));
    assert(s.take(7).last() == s[6]);
    assert(byte_sum(s.take(7)) == 167);
    assert(s.take(8).drop_last() =~= s.take(7));
    assert(s.take(8).last() == s[7]);
    assert(byte_sum(s.take(8)) == 152);
    assert(s.take(9).drop_last() =~= s.take(8));
    assert(s.take(9).last() == s[8]);
    assert(byte_sum(s.take(9)) == 23);
    assert(s.take(10).drop_last() =~= s.take(9));
    assert(s.take(10).last() == s[9]);
    assert(byte_sum(s.take(10)) == 254);
    assert(s.take(11).drop_last() =~= s.take(10));
    assert(s.take(11).last() == s[10]);
    assert(byte_sum(s.take(11)) == 181);
    assert(s.take(12).drop_last() =~= s.take(11));
    assert(s.take(12).last() == s[11]);
    assert(byte_sum(s.take(12)) == 220);
    assert(s.take(13).drop_last() =~= s.take(12));
    assert(s.take(13).last() == s[12]);
    assert(byte_sum(s.take(13)) == 103);
    assert(s.take(14).drop_last() =~= s.take(13));
    assert(s.take(14).last() == s[13]);
    assert(byte_sum(s.take(14)) == 246);
    assert(s.take(15).drop_last() =~= s.take(14));
    assert(s.take(15).last() == s[14]);
    assert(byte_sum(s.take(15)) == 43);
    assert(s.take(16).drop_last() =~= s.take(15));
    assert(s.take(16).last() == s[15]);
    assert(byte_sum(s.take(16)) == 133);
    assert(s.take(17).drop_last() =~= s.take(16));
    assert(s.take(17).last() == s[16]);
    assert(byte_sum(s.take(17)) == 206);
    assert(s.take(18).drop_last() =~= s.take(17));
    assert(s.take(18).last() == s[17]);
    assert(byte_sum(s.take(18)) == 42);
    assert(s.take(18) =~= s);
}

/// The authentication packet (type 0x39) carrying the fixed key the mixer expects after
/// connecting.
pub fn auth_packet() -> (p: Vec<u8>)
    ensures
        p@ == seq![0x39u8, 0x01, 0xFD, 0x06, 0x2B, 0x06, 0x39, 0xF1, 0x7F, 0xE7, 0xB7, 0x27, 0x8B, 0x8F, 0x35, 0x5A, 0x49, 0x5C, 0x2A],
        is_framed_packet(p@),
{
    let key: [u8; 16] = [0xFD, 0x06, 0x2B, 0x06, 0x39, 0xF1, 0x7F, 0xE7, 0xB7, 0x27, 0x8B, 0x8F, 0x35, 0x5A, 0x49, 0x5C];
    let p = frame_packet(0x39, key.as_slice());
    proof {
        assert(p@.drop_last() =~= seq![0x39u8, 0x01, 0xFD, 0x06, 0x2B, 0x06, 0x39, 0xF1, 0x7F, 0xE7, 0xB7, 0x27, 0x8B, 0x8F, 0x35, 0x5A, 0x49, 0x5C]);
        lemma_auth_checksum();
        assert(p@ =~= seq![0x39u8, 0x01, 0xFD, 0x06, 0x2B, 0x06, 0x39, 0xF1, 0x7F, 0xE7, 0xB7, 0x27, 0x8B, 0x8F, 0x35, 0x5A, 0x49, 0x5C, 0x2A]);
    }
    p
}

/// The session start packet (type 0x37, no payload).
pub fn session_start_packet() -> (p: Vec<u8>)
    ensures
        p@ == seq![0x37u8, 0x01, 0x38],
        is_framed_packet(p@),
{
    let empty: [u8; 0] = [];
    let p = frame_packet(0x37, empty.as_slice());
    proof {
        reveal_with_fuel(byte_sum, 3);
        assert(p@ =~= seq![0x37u8, 0x01, 0x38]);
    }
    p
}

/// The configuration request packet (type 0x07, no payload) that asks for the snapshot names.
pub fn config_request_packet() -> (p: Vec<u8>)
    ensures
        p@ == seq![0x07u8, 0x01, 0x08],
        is_framed_packet(p@),
{
    let empty: [u8; 0] = [];
    let p = frame_packet(0x07, empty.as_slice());
    proof {
        reveal_with_fuel(byte_sum, 3);
        assert(p@ =~= seq![0x07u8, 0x01, 0x08]);
    }
    p
}

/// The dump trigger packet (type 0x4B, no payload): the mixer answers with a SysEx dump.
pub fn dump_trigger_packet() -> (p: Vec<u8>)
    ensures
        p@ == seq![0x4Bu8, 0x01, 0x4C],
        is_framed_packet(p@),
{
    let empty: [u8; 0] = [];
    let p = frame_packet(0x4B, empty.as_slice());
    proof {
        reveal_with_fuel(byte_sum, 3);
        assert(p@ =~= seq![0x4Bu8, 0x01, 0x4C]);
    }
    p
}

// ── Snapshot names ─────────────────────────────────────────────────────

/// Whether a character has Unicode's White_Space property.
pub open spec fn is_white_space(c: char) -> bool {
    let n = c as u32;
    ||| 0x09 <= n <= 0x0D
    ||| n == 0x20
    ||| n == 0x85
    ||| n == 0xA0
    ||| n == 0x1680
    ||| 0x2000 <= n <= 0x200A
    ||| n == 0x2028
    ||| n == 0x2029
    ||| n == 0x202F
    ||| n == 0x205F
    ||| n == 0x3000
}

/// The text without its leading white space.
pub open spec fn trim_start(s: Seq<char>) -> Seq<char>
    decreases s.len(),
{
    if s.len() > 0 && is_white_space(s[0]) {
        trim_start(s.drop_first())
    } else {
        s
    }
}

/// The text without its trailing white space.
pub open spec fn trim_end(s: Seq<char>) -> Seq<char>
    decreases s.len(),
{
    if s.len() > 0 && is_white_space(s.last()) {
        trim_end(s.drop_last())
    } else {
        s
    }
}

/// The text without its leading and trailing white space.
pub open spec fn trimmed(s: Seq<char>) -> Seq<char> {
    trim_end(trim_start(s))
}

/// Decodes bytes as UTF-8 with `std::str::from_utf8`. Trusted: it succeeds exactly on
/// valid UTF-8 and then yields the characters encoded (as vstd's UTF-8 model states them).
#[verifier::external_body]
fn decode_utf8_str(bytes: &[u8]) -> (r: Option<&str>)
    ensures
        r.is_some() == valid_utf8(bytes@),
        r matches Some(s) ==> s@ == decode_utf8(bytes@),
{
    match std::str::from_utf8(bytes) {
        Ok(s) => Some(s),
        Err(_) => None,
    }
}

/// Removes leading and trailing white space with `str::trim`. Trusted: as its
/// documentation says, the result is the text without the leading and trailing characters
/// that have Unicode's White_Space property.
#[verifier::external_body]
fn trim_str(s: &str) -> (r: &str)
    ensures
        r@ == trimmed(s@),
{
    s.trim()
}

/// The name of one snapshot slot from its bytes: `None` for invalid UTF-8 or a name that
/// is only white space.
pub open spec fn slot_name(bytes: Seq<u8>) -> Option<Seq<char>> {
    if !valid_utf8(bytes) {
        None
    } else if trimmed(decode_utf8(bytes)).len() == 0 {
        None
    } else {
        Some(trimmed(decode_utf8(bytes)))
    }
}

/// The slots named in `payload` from position `pos` on, after `count` slots were read: each
/// slot is a length byte and that many bytes (length 0 for an empty slot); reading stops
/// after 15 slots, at the end of the payload, or at a slot that runs past it.
pub open spec fn slots_from(payload: Seq<u8>, pos: int, count: nat) -> Seq<Option<Seq<char>>>
    decreases payload.len() - pos, 15 - count,
{
    if pos < 0 || pos >= payload.len() || count >= 15 {
        seq![]
    } else {
        let len = payload[pos] as int;
        if len == 0 {
            seq![None].add(slots_from(payload, pos + 1, count + 1))
        } else if len < payload.len() - pos {
            seq![slot_name(payload.subrange(pos + 1, pos + 1 + len))].add(
                slots_from(payload, pos + 1 + len, count + 1),
            )
        } else {
            seq![]
        }
    }
}

/// The snapshot names in a 0x27 response packet: the bytes between the two header bytes
/// and the checksum are read slot by slot. Anything else gives no names.
pub open spec fn snapshot_names_of(data: Seq<u8>) -> Seq<Option<Seq<char>>> {
    if data.len() < 3 || data[0] != SNAPSHOT_RESPONSE_TYPE {
        seq![]
    } else {
        slots_from(data.subrange(2, data.len() - 1), 0, 0)
    }
}

pub open spec fn names_view(v: Seq<Option<String>>) -> Seq<Option<Seq<char>>> {
    v.map_values(|o: Option<String>| match o {
        Some(s) => Some(s@),
        None => None,
    })
}

/// Reads the snapshot names from a 0x27 response of the mixer.
pub fn parse_snapshot_names(data: &[u8]) -> (names: Vec<Option<String>>)
    ensures
        names_view(names@) == snapshot_names_of(data@),
{
    let mut names: Vec<Option<String>> = Vec::new();
    if data.len() < 3 || data[0] != SNAPSHOT_RESPONSE_TYPE {
        assert(names_view(names@) =~= snapshot_names_of(data@));
        return names;
    }
    let payload = vstd::slice::slice_subrange(data, 2, data.len() - 1);
    let ghost total = slots_from(payload@, 0, 0);
    let mut pos: usize = 0;
    while pos < payload.len() && names.len() < 15
        invariant
            pos <= payload.len(),
            names.len() <= 15,
            total == names_view(names@) + slots_from(payload@, pos as int, names.len() as nat),
        ensures
            total == names_view(names@),
        decreases payload.len() - pos,
    {
        let len = payload[pos] as usize;
        let ghost count = names.len() as nat;
        let ghost before = names_view(names@);
        if len == 0 {
            names.push(None);
            pos = pos + 1;
            assert(names_view(names@) =~= before + seq![None]);
            assert(total =~= names_view(names@) + slots_from(payload@, pos as int, names.len() as nat));
        } else if len < payload.len() - pos {
            let bytes = vstd::slice::slice_subrange(payload, pos + 1, pos + 1 + len);
            let entry = match decode_utf8_str(bytes) {
                Some(s) => {
                    let t = trim_str(s);
                    if t.is_empty() {
                        None
                    } else {
                        Some(String::from_str(t))
                    }
                },
                None => None,
            };
            names.push(entry);
            pos = pos + 1 + len;
            assert(names_view(names@) =~= before + seq![slot_name(bytes@)]);
            assert(total =~= names_view(names@) + slots_from(payload@, pos as int, names.len() as nat));
        } else {
            assert(slots_from(payload@, pos as int, count) == Seq::<Option<Seq<char>>>::empty());
            assert(names_view(names@) + slots_from(payload@, pos as int, count) =~= names_view(names@));
            break;
        }
        if !(pos < payload.len() && names.len() < 15) {
            assert(names_view(names@) + slots_from(payload@, pos as int, names.len() as nat) =~= names_view(names@));
        }
    }
    names
}


// ── Decisions of the link's scan and snapshot fetch ─────────────────────

/// What the scan learned of one device that answered with its properties.
#[derive(Debug)]
pub struct ScannedDevice {
    pub local_name: Option<String>,
    pub advertises_service: bool,
}

/// Whether a scanned device is taken for the mixer: its name holds "FLOW" in any case, or
/// it advertises the mixer's service.
pub open spec fn is_mixer_device(d: ScannedDevice) -> bool {
    (d.local_name matches Some(n) && crate::midi_devices::is_flow8_ble_name(n@)) || d.advertises_service
}

/// The first scanned device taken for the mixer.
pub fn pick_flow8_device(devices: &Vec<ScannedDevice>) -> (r: Option<usize>)
    ensures
        r matches Some(k) ==> k < devices@.len() && is_mixer_device(devices@[k as int]) && forall|j: int|
            0 <= j < k ==> !is_mixer_device(#[trigger] devices@[j]),
        r is None ==> forall|j: int| 0 <= j < devices@.len() ==> !is_mixer_device(#[trigger] devices@[j]),
{
    let mut k: usize = 0;
    while k < devices.len()
        invariant
            k <= devices@.len(),
            forall|j: int| 0 <= j < k ==> !is_mixer_device(#[trigger] devices@[j]),
        decreases devices@.len() - k,
    {
        let d = &devices[k];
        let by_name = match &d.local_name {
            Some(n) => crate::midi_devices::is_flow8_ble_device(n.as_str()),
            None => false,
        };
        if by_name || d.advertises_service {
            return Some(k);
        }
        k = k + 1;
    }
    None
}

/// How many times the snapshot fetch tries to subscribe to notifications.
pub const SUBSCRIBE_ATTEMPTS: u64 = 3;

/// Whether subscription attempt `attempt` (counted from 0) is made, and how long to wait
/// before it: each retry waits half a second longer than the one before.
pub fn subscribe_retry_delay(attempt: u64) -> (r: Option<u64>)
    ensures
        r == (if attempt < SUBSCRIBE_ATTEMPTS { Some((500 * attempt) as u64) } else { None }),
{
    if attempt < SUBSCRIBE_ATTEMPTS {
        Some(500 * attempt)
    } else {
        None
    }
}

/// How many chunks of the state dump the fetch waits for before asking for the names.
pub const STATE_DUMP_CHUNKS: u32 = 4;

/// The count of state dump chunks after a notification, and whether the wait is over.
pub fn count_dump_chunk(chunks: u32, notification: &[u8]) -> (r: (u32, bool))
    requires
        chunks < STATE_DUMP_CHUNKS,
    ensures
        r.0 == chunks + (if notification@.len() > 0 && notification@[0] == STATE_DUMP_TYPE { 1int } else { 0int }),
        r.1 == (r.0 >= STATE_DUMP_CHUNKS),
{
    let n = if notification.len() > 0 && notification[0] == STATE_DUMP_TYPE {
        chunks + 1
    } else {
        chunks
    };
    (n, n >= STATE_DUMP_CHUNKS)
}

/// The snapshot names a notification carries, when it is the answer to the names request.
pub fn snapshot_response(notification: &[u8]) -> (r: Option<Vec<Option<String>>>)
    ensures
        match r {
            Some(names) => notification@.len() > 0 && notification@[0] == SNAPSHOT_RESPONSE_TYPE && names_view(names@)
                == snapshot_names_of(notification@),
            None => !(notification@.len() > 0 && notification@[0] == SNAPSHOT_RESPONSE_TYPE),
        },
{
    if notification.len() > 0 && notification[0] == SNAPSHOT_RESPONSE_TYPE {
        Some(parse_snapshot_names(notification))
    } else {
        None
    }
}

} // verus!
