//! BLE advertising and connection control through raw HCI command packets.
//!
//! Every packet uses H4 transport framing: the first byte is 0x01
//! (HCI Command Packet), followed by the little-endian opcode, the
//! parameter length and the parameters.
use vstd::prelude::*;
use vstd::string::StringSliceAdditionalSpecFns;

verus! {

/// ASCII upper-case hexadecimal digit for a value below 16.
pub open spec fn hex_upper(v: u8) -> u8 {
    if v < 10 {
        (48 + v) as u8
    } else {
        (55 + v) as u8
    }
}

/// The usual text of a MAC address whose octets `a` are in little-endian
/// order: six upper-case two-digit groups, most significant octet first,
/// separated by `:`.
pub open spec fn mac_text(a: Seq<u8>) -> Seq<u8> {
    Seq::new(
        17,
        |i: int|
            if i % 3 == 2 {
                58u8
            } else if i % 3 == 0 {
                hex_upper(a[5 - i / 3] / 16)
            } else {
                hex_upper(a[5 - i / 3] % 16)
            },
    )
}

/// Value of one ASCII hexadecimal digit, either case.
pub open spec fn hex_value(c: u8) -> Option<u8> {
    if 48 <= c <= 57 {
        Some((c - 48) as u8)
    } else if 97 <= c <= 102 {
        Some((c - 97 + 10) as u8)
    } else if 65 <= c <= 70 {
        Some((c - 65 + 10) as u8)
    } else {
        None
    }
}

/// `b` is a MAC address written as six two-digit hexadecimal groups
/// separated by `:`, e.g. `AA:BB:CC:DD:EE:FF`, and nothing else.
pub open spec fn is_mac_text(b: Seq<u8>) -> bool {
    &&& b.len() == 17
    &&& forall|k: int| 0 <= k < 6 ==> (#[trigger] hex_value(b[3 * k])) is Some
    &&& forall|k: int| 0 <= k < 6 ==> (#[trigger] hex_value(b[3 * k + 1])) is Some
    &&& forall|k: int| 0 <= k < 5 ==> #[trigger] b[3 * k + 2] == 58
}

/// The `k`-th octet as written in the text (the leftmost group is `k == 0`).
pub open spec fn mac_text_octet(b: Seq<u8>, k: int) -> u8 {
    (hex_value(b[3 * k])->0 * 16 + hex_value(b[3 * k + 1])->0) as u8
}

/// Value of an ASCII hexadecimal digit (`0-9`, `a-f`, `A-F`), `None` for
/// any other byte.
pub fn hex_nibble(c: u8) -> (res: Option<u8>)
    ensures
        res == hex_value(c),
{
    if 48 <= c && c <= 57 {
        // '0'..='9'
        Some(c - 48)
    } else if 97 <= c && c <= 102 {
        // 'a'..='f'
        Some(c - 97 + 10)
    } else if 65 <= c && c <= 70 {
        // 'A'..='F'
        Some(c - 65 + 10)
    } else {
        None
    }
}

/// Parses a BLE MAC address from `AA:BB:CC:DD:EE:FF` text.
/// Returns the octets in little-endian order, as HCI commands expect them:
/// the last group of the text is the first byte of the result.
pub fn parse_peer_addr(s: &str) -> (res: Option<[u8; 6]>)
    ensures
        res is Some <==> is_mac_text(s.spec_bytes()),
        res matches Some(a) ==> forall|j: int|
            0 <= j < 6 ==> #[trigger] a@[j] == mac_text_octet(s.spec_bytes(), 5 - j),
{
    let mut out = [0u8; 6];
    let mut idx = 0usize;
    let bytes = s.as_bytes();
    let mut i = 0usize;
    let ghost b = bytes@;

    while i + 1 < bytes.len() && idx < 6
        invariant
            b == bytes@,
            b == s.spec_bytes(),
            idx <= 6,
            i == 3 * idx || (idx == 6 && i == 17),
            idx < 6 ==> i == 3 * idx,
            idx == 6 ==> i == 17,
            forall|k: int| 0 <= k < idx ==> (#[trigger] hex_value(b[3 * k])) is Some,
            forall|k: int| 0 <= k < idx ==> (#[trigger] hex_value(b[3 * k + 1])) is Some,
            forall|k: int| 0 <= k < idx && k < 5 ==> #[trigger] b[3 * k + 2] == 58,
            forall|j: int| 5 - idx < j < 6 ==> #[trigger] out@[j] == mac_text_octet(b, 5 - j),
        decreases b.len() - i,
    {
        let hi = match hex_nibble(bytes[i]) {
            Some(v) => v,
            None => return None,
        };
        let lo = match hex_nibble(bytes[i + 1]) {
            Some(v) => v,
            None => return None,
        };
        assert((hi << 4u8) | lo == hi * 16 + lo) by (bit_vector)
            requires
                hi < 16,
                lo < 16,
        ;
        out[5 - idx] = (hi << 4) | lo;
        idx += 1;
        i += 2;
        if idx < 6 {
            if i >= bytes.len() || bytes[i] != 58 /* ':' */ {
                return None;
            }
            i += 1;
        }
    }

    if idx == 6 && i == bytes.len() {
        Some(out)
    } else {
        None
    }
}


/// The name the watch advertises, as ASCII bytes ("Rust Watch").
pub open spec fn adv_name() -> Seq<u8> {
    seq![82u8, 117, 115, 116, 32, 87, 97, 116, 99, 104]
}

/// LE Set Advertising Parameters (opcode 0x2006): interval 0x0800 for both
/// bounds (1.28 s, slow to save power), ADV_IND, public own address, all
/// three channels, no filter.
pub open spec fn adv_params_packet() -> Seq<u8> {
    seq![
        1u8, 0x06, 0x20, 15,
        0x00, 0x08, 0x00, 0x08,
        0x00, 0x00, 0x00,
        0, 0, 0, 0, 0, 0,
        0x07, 0x00,
    ]
}

/// LE Set Advertising Data (opcode 0x2008): always 32 parameter bytes, the
/// significant-octet count, a Flags AD (General Discoverable, BR/EDR not
/// supported), a Complete Local Name AD holding [`adv_name`], zero padding.
pub open spec fn adv_data_packet() -> Seq<u8> {
    seq![1u8, 0x08, 0x20, 32, 15, 2, 0x01, 0x06, 11, 0x09] + adv_name()
        + Seq::new(16, |i: int| 0u8)
}

/// LE Set Advertising Enable (opcode 0x200A) with the given flag.
pub open spec fn adv_enable_packet(enable: bool) -> Seq<u8> {
    seq![1u8, 0x0A, 0x20, 1, if enable { 1u8 } else { 0u8 }]
}

/// LE Create Connection (opcode 0x200D) to `addr` (little-endian octets):
/// scan interval and window 10 ms, peer address used directly, public own
/// address, connection interval 30..50 ms, no latency, 2 s supervision
/// timeout.
pub open spec fn create_connection_packet(addr: Seq<u8>, random: bool) -> Seq<u8> {
    seq![1u8, 0x0D, 0x20, 25, 0x10, 0x00, 0x10, 0x00, 0x00, if random { 1u8 } else { 0u8 }]
        + addr
        + seq![0x00u8, 0x18, 0x00, 0x28, 0x00, 0x00, 0x00, 0xC8, 0x00, 0x00, 0x00, 0x00, 0x00]
}

/// LE Create Connection Cancel (opcode 0x200E), no parameters.
pub open spec fn create_connection_cancel_packet() -> Seq<u8> {
    seq![1u8, 0x0E, 0x20, 0]
}

/// Parsing gives back the address that was written: the text of any
/// address is accepted by [`parse_peer_addr`], which returns its octets in
/// the order they were given.
pub proof fn lemma_parse_mac_text(a: Seq<u8>)
    requires
        a.len() == 6,
    ensures
        is_mac_text(mac_text(a)),
        forall|j: int| 0 <= j < 6 ==> #[trigger] mac_text_octet(mac_text(a), 5 - j) == a[j],
{
    let t = mac_text(a);
    assert forall|k: int| 0 <= k < 6 implies (#[trigger] hex_value(t[3 * k])) is Some
        && hex_value(t[3 * k + 1]) is Some
        && mac_text_octet(t, k) == a[5 - k] by {
        assert((3 * k) % 3 == 0 && (3 * k) / 3 == k);
        assert((3 * k + 1) % 3 == 1 && (3 * k + 1) / 3 == k);
        let v = a[5 - k];
        assert(v / 16 < 16 && v % 16 < 16 && (v / 16) * 16 + v % 16 == v) by (nonlinear_arith);
    }
    assert forall|k: int| 0 <= k < 6 implies (#[trigger] hex_value(t[3 * k + 1])) is Some by {
        assert(hex_value(t[3 * k]) is Some);
    }
    assert forall|k: int| 0 <= k < 5 implies #[trigger] t[3 * k + 2] == 58 by {
        assert((3 * k + 2) % 3 == 2);
    }
    assert forall|j: int| 0 <= j < 6 implies #[trigger] mac_text_octet(t, 5 - j) == a[j] by {
        assert(hex_value(t[3 * (5 - j)]) is Some);
    }
}

/// The text with every ASCII upper-case letter made lower-case.
pub open spec fn ascii_lower(t: Seq<u8>) -> Seq<u8> {
    t.map_values(|b: u8| if 65 <= b <= 90 { (b + 32) as u8 } else { b })
}

/// Hexadecimal digits read as their value in either case: `0`-`9` are
/// 0-9, and `a`-`f` stand for 10-15 just as `A`-`F` do; every value below
/// 16 is read back from its digit in both cases.
pub proof fn lemma_hex_digits_either_case(c: u8, v: u8)
    ensures
        48 <= c <= 57 ==> hex_value(c) == Some((c - 48) as u8),
        65 <= c <= 70 ==> hex_value(c) == Some((c - 55) as u8),
        65 <= c <= 70 ==> hex_value((c + 32) as u8) == hex_value(c),
        97 <= c <= 102 ==> hex_value(c) == Some((c - 87) as u8),
        v < 16 ==> hex_value(hex_upper(v)) == Some(v),
        v < 16 ==> hex_value(ascii_lower(seq![hex_upper(v)])[0]) == Some(v),
        !(48 <= c <= 57 || 65 <= c <= 70 || 97 <= c <= 102) ==> hex_value(c) is None,
{
}

/// The lower-case text of an address parses back to that address, just as
/// its upper-case text does.
pub proof fn lemma_parse_lower_mac_text(a: Seq<u8>)
    requires
        a.len() == 6,
    ensures
        is_mac_text(ascii_lower(mac_text(a))),
        forall|j: int|
            0 <= j < 6 ==> #[trigger] mac_text_octet(ascii_lower(mac_text(a)), 5 - j) == a[j],
{
    lemma_parse_mac_text(a);
    let t = mac_text(a);
    let l = ascii_lower(t);
    assert forall|i: int| 0 <= i < 17 implies #[trigger] hex_value(l[i]) == hex_value(t[i]) && (
    t[i] == 58 ==> l[i] == 58) by {
        let b = t[i];
        assert(l[i] == (if 65 <= b <= 90 {
            (b + 32) as u8
        } else {
            b
        }));
    }
    assert forall|k: int| 0 <= k < 6 implies (#[trigger] hex_value(l[3 * k])) is Some && hex_value(
        l[3 * k + 1],
    ) is Some && mac_text_octet(l, k) == mac_text_octet(t, k) by {
        assert(hex_value(l[3 * k]) == hex_value(t[3 * k]));
        assert(hex_value(l[3 * k + 1]) == hex_value(t[3 * k + 1]));
        assert(hex_value(t[3 * k]) is Some);
        assert(hex_value(t[3 * k + 1]) is Some);
    }
    assert forall|k: int| 0 <= k < 6 implies (#[trigger] hex_value(l[3 * k + 1])) is Some by {
        assert(hex_value(l[3 * k]) is Some);
    }
    assert forall|k: int| 0 <= k < 5 implies #[trigger] l[3 * k + 2] == 58 by {
        assert(t[3 * k + 2] == 58);
        assert(hex_value(l[3 * k + 2]) == hex_value(t[3 * k + 2]));
    }
    assert forall|j: int| 0 <= j < 6 implies #[trigger] mac_text_octet(l, 5 - j) == a[j] by {
        assert(hex_value(l[3 * (5 - j)]) is Some);
        assert(mac_text_octet(t, 5 - j) == a[j]);
    }
}

/// The first packet of starting advertising: LE Set Advertising Parameters.
pub fn adv_params_cmd() -> (res: [u8; 19])
    ensures
        res@ == adv_params_packet(),
{
    let res: [u8; 19] = [
        0x01, // H4: HCI command
        0x06, 0x20, // opcode: LE Set Advertising Parameters
        15, // param length
        0x00, 0x08, // interval min: 0x0800
        0x00, 0x08, // interval max: 0x0800
        0x00, // type: ADV_IND
        0x00, // own addr type: public
        0x00, // peer addr type
        0, 0, 0, 0, 0, 0, // peer addr (unused)
        0x07, // channel map: all
        0x00, // filter policy: any
    ];
    assert(res@ =~= adv_params_packet());
    res
}

/// The second packet of starting advertising: LE Set Advertising Data with
/// the Flags and Complete Local Name AD structures.
pub fn adv_data_cmd() -> (res: [u8; 36])
    ensures
        res@ == adv_data_packet(),
{
    let name: [u8; 10] = [82, 117, 115, 116, 32, 87, 97, 116, 99, 104];
    let flags_len: u8 = 3;
    let name_ad_len: u8 = 1 + 10;
    let sig_octets: u8 = flags_len + 1 + name_ad_len;

    // 1 (H4) + 2 (opcode) + 1 (param length) + 32 (data)
    let mut cmd = [0u8; 36];
    cmd[0] = 0x01;
    cmd[1] = 0x08;
    cmd[2] = 0x20;
    cmd[3] = 32;
    cmd[4] = sig_octets;
    cmd[5] = 2;
    cmd[6] = 0x01;
    cmd[7] = 0x06;
    cmd[8] = name_ad_len;
    cmd[9] = 0x09;
    let mut k: usize = 0;
    while k < 10
        invariant
            k <= 10,
            name@ == adv_name(),
            cmd@.len() == 36,
            cmd@.subrange(0, 10) == seq![1u8, 0x08, 0x20, 32, 15, 2, 0x01, 0x06, 11, 0x09],
            forall|j: int| 0 <= j < k ==> #[trigger] cmd@[10 + j] == name@[j],
            forall|j: int| 20 <= j < 36 ==> #[trigger] cmd@[j] == 0,
        decreases 10 - k,
    {
        cmd[10 + k] = name[k];
        k += 1;
    }
    assert forall|j: int| 0 <= j < 36 implies #[trigger] cmd@[j] == adv_data_packet()[j] by {
        if j < 10 {
            assert(cmd@[j] == cmd@.subrange(0, 10)[j]);
        } else if j < 20 {
            assert(cmd@[10 + (j - 10)] == name@[j - 10]);
        }
    }
    assert(cmd@ =~= adv_data_packet());
    cmd
}

/// LE Set Advertising Enable: the last packet of starting advertising
/// (`enable == true`) and the only packet of stopping it.
pub fn adv_enable_cmd(enable: bool) -> (res: [u8; 5])
    ensures
        res@ == adv_enable_packet(enable),
{
    let res: [u8; 5] = [
        0x01, // H4
        0x0A, 0x20, // opcode: LE Set Advertising Enable
        1, // param length
        if enable { 0x01 } else { 0x00 },
    ];
    assert(res@ =~= adv_enable_packet(enable));
    res
}

/// LE Create Connection to a peer, whose address is given in little-endian
/// order (as [`parse_peer_addr`] returns it).
pub fn create_connection_cmd(peer_addr_le: [u8; 6], peer_is_random_addr: bool) -> (res: [u8; 29])
    ensures
        res@ == create_connection_packet(peer_addr_le@, peer_is_random_addr),
{
    let peer_addr_type: u8 = if peer_is_random_addr { 0x01 } else { 0x00 };
    let res: [u8; 29] = [
        0x01, // H4: command packet
        0x0D, 0x20, // LE Create Connection
        25, // param length
        0x10, 0x00, // scan interval (10 ms)
        0x10, 0x00, // scan window
        0x00, // initiator filter policy: use peer address below
        peer_addr_type,
        peer_addr_le[0],
        peer_addr_le[1],
        peer_addr_le[2],
        peer_addr_le[3],
        peer_addr_le[4],
        peer_addr_le[5],
        0x00, // own address type: public
        0x18, 0x00, // conn interval min (30 ms)
        0x28, 0x00, // conn interval max (50 ms)
        0x00, 0x00, // conn latency
        0xC8, 0x00, // supervision timeout (2 s)
        0x00, 0x00, // min CE length
        0x00, 0x00, // max CE length
    ];
    assert(res@ =~= create_connection_packet(peer_addr_le@, peer_is_random_addr));
    res
}

/// LE Create Connection Cancel: stops an ongoing connection procedure.
pub fn create_connection_cancel_cmd() -> (res: [u8; 4])
    ensures
        res@ == create_connection_cancel_packet(),
{
    let res: [u8; 4] = [0x01, 0x0E, 0x20, 0];
    assert(res@ =~= create_connection_cancel_packet());
    res
}

} // verus!
