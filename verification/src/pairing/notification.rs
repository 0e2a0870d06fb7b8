//! Decoding of raw receiver messages into pairing notifications.

pub mod id;

use vstd::prelude::*;

use crate::text::{string_from_utf8_lossy, utf8_lossy, ascii_chars};

verus! {

/// A raw HID++ message: the six bytes after the short report ID, or the
/// nineteen bytes after the long report ID.
#[derive(Clone, Copy, Debug, PartialEq, Eq)]
pub enum RawMessage {
    /// A short (7-byte) report.
    Short([u8; 6]),
    /// A long (20-byte) report.
    Long([u8; 19]),
}

/// A parsed receiver notification relevant to pairing.
#[derive(Clone, Debug, PartialEq, Eq)]
pub enum Notification {
    /// Bolt discovery address frame: kind, BTLE address, auth method.
    DiscoveryInfo { counter: u16, kind: u8, address: [u8; 6], authentication: u8 },
    /// Bolt discovery name frame.
    DiscoveryName { counter: u16, name: String },
    /// Bolt pairing completed; `slot` is the assigned device index.
    PairingSucceeded { slot: u8 },
    /// Bolt pairing/discovery failed with a receiver error code.
    PairingError(u8),
    /// Bolt passkey to present to the user: the digits shown by the device
    /// (validated ASCII digits) plus their numeric value for click rendering.
    Passkey { digits: String, value: u32 },
    /// A passkey notification whose payload was not ASCII digits; pairing
    /// must fail rather than present a bogus authentication sequence.
    MalformedPasskey,
    /// A device linked to the receiver (`slot` = its device index).
    Connected { slot: u8, established: bool },
    /// Unifying pairing lock changed state; `error` is non-zero on failure.
    UnifyingLock { open: bool, error: u8 },
}

/// The payload of a raw message: the bytes after device index and sub-ID,
/// zero-padded to seventeen.
pub open spec fn payload_of(msg: RawMessage) -> Seq<u8> {
    match msg {
        RawMessage::Short(d) => d@.subrange(2, 6) + Seq::new(13, |_i: int| 0u8),
        RawMessage::Long(d) => d@.subrange(2, 19),
    }
}

/// The device index and sub-ID of a raw message.
pub open spec fn header_of(msg: RawMessage) -> (u8, u8) {
    match msg {
        RawMessage::Short(d) => (d[0], d[1]),
        RawMessage::Long(d) => (d[0], d[1]),
    }
}

/// Decodes a raw message into `(device_index, sub_id, payload)`, where
/// `payload[0]` is the HID++ 1.0 notification address byte. Short payloads
/// are zero-padded.
pub fn decode(msg: &RawMessage) -> (r: (u8, u8, [u8; 17]))
    ensures
        (r.0, r.1) == header_of(*msg),
        r.2@ == payload_of(*msg),
{
    match msg {
        RawMessage::Short(d) => {
            let payload: [u8; 17] = [d[2], d[3], d[4], d[5], 0, 0, 0, 0, 0, 0, 0, 0, 0, 0, 0, 0, 0];
            assert(payload@ =~= payload_of(*msg));
            (d[0], d[1], payload)
        },
        RawMessage::Long(d) => {
            let payload: [u8; 17] = [
                d[2], d[3], d[4], d[5], d[6], d[7], d[8], d[9], d[10],
                d[11], d[12], d[13], d[14], d[15], d[16], d[17], d[18],
            ];
            assert(payload@ =~= payload_of(*msg));
            (d[0], d[1], payload)
        },
    }
}

/// The length of `s` up to (not including) its first NUL byte.
pub open spec fn nul_terminated_len(s: Seq<u8>) -> nat
    decreases s.len(),
{
    if s.len() == 0 || s[0] == 0 {
        0
    } else {
        1 + nul_terminated_len(s.drop_first())
    }
}

/// Whether every byte is an ASCII decimal digit.
pub open spec fn all_ascii_digits(s: Seq<u8>) -> bool {
    forall|i: int| 0 <= i < s.len() ==> 48 <= #[trigger] s[i] <= 57
}

/// The numeric value of a sequence of ASCII decimal digits.
pub open spec fn digits_value(s: Seq<u8>) -> nat
    decreases s.len(),
{
    if s.len() == 0 {
        0
    } else {
        digits_value(s.drop_last()) * 10 + (s.last() - 48) as nat
    }
}

/// `10` to the power `n`.
pub open spec fn pow10(n: nat) -> nat
    decreases n,
{
    if n == 0 { 1 } else { 10 * pow10((n - 1) as nat) }
}

/// The passkey digits of a passkey-request payload: bytes 1 to 6, up to the
/// first NUL.
pub open spec fn passkey_digits(p: Seq<u8>) -> Seq<u8> {
    p.subrange(1, 1 + nul_terminated_len(p.subrange(1, 7)) as int)
}

/// The name bytes of a discovery name frame: byte 3 gives the length, capped
/// at the thirteen bytes the payload holds after it.
pub open spec fn discovery_name_bytes(p: Seq<u8>) -> Seq<u8> {
    let len: int = if p[3] <= 13 { p[3] as int } else { 13 };
    p.subrange(4, 4 + len)
}

/// What `parse_notification` yields for sub-ID `sub_id`, device index
/// `device_index` and payload `p`.
pub open spec fn parsed_as(sub_id: u8, device_index: u8, p: Seq<u8>, r: Option<Notification>) -> bool {
    if sub_id == id::DEVICE_CONNECTION {
        r == Some(Notification::Connected { slot: device_index, established: p[1] & 0x40 == 0 })
    } else if sub_id == id::DEVICE_DISCOVERY {
        let counter = p[0] + p[1] * 256;
        if p[2] == 0 {
            &&& r matches Some(Notification::DiscoveryInfo { counter: c, kind, address, authentication })
            &&& c == counter
            &&& kind == p[4]
            &&& address@ == p.subrange(7, 13)
            &&& authentication == p[15]
        } else if p[2] == 1 {
            &&& r matches Some(Notification::DiscoveryName { counter: c, name })
            &&& c == counter
            &&& name@ == utf8_lossy(discovery_name_bytes(p))
        } else {
            r is None
        }
    } else if sub_id == id::DISCOVERY_STATUS {
        if p[1] != 0 { r == Some(Notification::PairingError(p[1])) } else { r is None }
    } else if sub_id == id::PAIRING_STATUS {
        if p[1] != 0 {
            r == Some(Notification::PairingError(p[1]))
        } else if p[0] == 2 {
            r == Some(Notification::PairingSucceeded { slot: p[8] })
        } else {
            r is None
        }
    } else if sub_id == id::PASSKEY_REQUEST {
        let digits = passkey_digits(p);
        if digits.len() == 0 || !all_ascii_digits(digits) {
            r == Some(Notification::MalformedPasskey)
        } else {
            &&& r matches Some(Notification::Passkey { digits: text, value })
            &&& text@ == ascii_chars(digits)
            &&& value == digits_value(digits)
        }
    } else if sub_id == id::UNIFYING_LOCK {
        r == Some(Notification::UnifyingLock { open: p[0] & 1 != 0, error: p[1] })
    } else {
        r is None
    }
}

proof fn lemma_digits_value_bound(s: Seq<u8>)
    requires
        all_ascii_digits(s),
    ensures
        digits_value(s) < pow10(s.len()),
    decreases s.len(),
{
    if s.len() > 0 {
        lemma_digits_value_bound(s.drop_last());
    }
}

/// Parses a payload into a pairing [`Notification`], if it is one.
pub fn parse_notification(sub_id: u8, device_index: u8, p: [u8; 17]) -> (r: Option<Notification>)
    ensures
        parsed_as(sub_id, device_index, p@, r),
{
    if sub_id == id::DEVICE_CONNECTION {
        // bit 6 of the flags byte set => link not established (offline).
        Some(Notification::Connected { slot: device_index, established: p[1] & 0x40 == 0 })
    } else if sub_id == id::DEVICE_DISCOVERY {
        let counter: u16 = p[0] as u16 + p[1] as u16 * 256;
        if p[2] == 0 {
            let address: [u8; 6] = [p[7], p[8], p[9], p[10], p[11], p[12]];
            assert(address@ =~= p@.subrange(7, 13));
            Some(Notification::DiscoveryInfo { counter, kind: p[4], address, authentication: p[15] })
        } else if p[2] == 1 {
            let len: usize = if p[3] <= 13 { p[3] as usize } else { 13 };
            let mut bytes: Vec<u8> = Vec::new();
            let mut i: usize = 0;
            while i < len
                invariant
                    len <= 13,
                    i <= len,
                    bytes@ == p@.subrange(4, 4 + i),
                decreases len - i,
            {
                bytes.push(p[4 + i]);
                assert(bytes@ =~= p@.subrange(4, 4 + i + 1));
                i = i + 1;
            }
            let name = string_from_utf8_lossy(bytes.as_slice());
            Some(Notification::DiscoveryName { counter, name })
        } else {
            None
        }
    } else if sub_id == id::DISCOVERY_STATUS {
        let error = p[1];
        if error != 0 { Some(Notification::PairingError(error)) } else { None }
    } else if sub_id == id::PAIRING_STATUS {
        let error = p[1];
        if error != 0 {
            Some(Notification::PairingError(error))
        } else if p[0] == 0x02 {
            // address 0x02 with no error => paired; the slot is byte 8.
            Some(Notification::PairingSucceeded { slot: p[8] })
        } else {
            None
        }
    } else if sub_id == id::PASSKEY_REQUEST {
        parse_passkey(p)
    } else if sub_id == id::UNIFYING_LOCK {
        Some(Notification::UnifyingLock { open: p[0] & 0x01 != 0, error: p[1] })
    } else {
        None
    }
}

/// The passkey notification carried by payload `p`: six digit bytes from
/// byte 1, NUL-padded when the passkey is shorter.
fn parse_passkey(p: [u8; 17]) -> (r: Option<Notification>)
    ensures
        parsed_as(id::PASSKEY_REQUEST, 0, p@, r),
{
    let ghost window = p@.subrange(1, 7);
    let mut len: usize = 0;
    assert(window.subrange(0, 6) =~= window);
    while len < 6 && p[1 + len] != 0
        invariant
            len <= 6,
            window == p@.subrange(1, 7),
            nul_terminated_len(window) == len + nul_terminated_len(window.subrange(len as int, 6)),
        decreases 6 - len,
    {
        assert(window.subrange(len as int, 6).drop_first() =~= window.subrange(len + 1, 6));
        len = len + 1;
    }
    proof {
        if len < 6 {
            assert(window.subrange(len as int, 6)[0] == 0);
        }
        assert(nul_terminated_len(window) == len);
    }
    let ghost digits = passkey_digits(p@);
    assert(digits =~= p@.subrange(1, 1 + len));
    let mut bytes: Vec<u8> = Vec::new();
    let mut value: u32 = 0;
    let mut i: usize = 0;
    while i < len
        invariant
            len <= 6,
            i <= len,
            digits == p@.subrange(1, 1 + len),
            digits == passkey_digits(p@),
            bytes@ == digits.subrange(0, i as int),
            all_ascii_digits(bytes@),
            value == digits_value(bytes@),
            value < pow10(i as nat),
        decreases len - i,
    {
        let b = p[1 + i];
        if b < 48 || b > 57 {
            assert(digits[i as int] == b);
            return Some(Notification::MalformedPasskey);
        }
        proof {
            reveal_with_fuel(pow10, 7);
            assert(pow10(6) == 1_000_000);
            assert(pow10((i + 1) as nat) == 10 * pow10(i as nat));
            assert(pow10(i as nat) <= 100_000);
        }
        let ghost before = bytes@;
        bytes.push(b);
        assert(bytes@.drop_last() =~= before);
        value = value * 10 + (b - 48) as u32;
        assert(bytes@ =~= digits.subrange(0, i + 1));
        i = i + 1;
    }
    assert(bytes@ =~= digits);
    if len == 0 {
        return Some(Notification::MalformedPasskey);
    }
    let text = string_from_utf8_lossy(bytes.as_slice());
    proof {
        assert forall|k: int| 0 <= k < bytes@.len() implies bytes@[k] < 128 by {
            assert(48 <= bytes@[k] <= 57);
        }
    }
    Some(Notification::Passkey { digits: text, value })
}

} // verus!
