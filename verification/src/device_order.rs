//! Canonical device ordering shared by the GUI carousel and the agent's
//! no-selection fallback.
//!
//! HID enumeration order shifts as devices wake, sleep, or are reselected, so
//! devices are ordered by a stable, route-derived identity instead, and
//! persisted per-device settings are keyed by the physical part of it.

use vstd::prelude::*;

use crate::chars::{
    all_digits, all_hex, all_hex_chars, is_last_match, lemma_split_once_concat,
    lemma_strip_prefix_concat, matches_at, unsigned_digits, chars_eq_str, is_hex_word, is_hex_word_chars, parses_as_u8,
    parses_as_u8_chars, rsplit_once, rsplit_once_chars, split_once, split_once_chars,
    strip_prefix, strip_prefix_chars,
};
use crate::hid::route::DeviceRoute;
use crate::text::{
    chars_of, decimal, decimal_value, has_prefix, hex2, hex4, hex_char, is_digit_char, is_hex_char,
    lemma_decimal_round_trip, lemma_hex_char, lower_seq, push_decimal_u8, push_hex2, push_hex4,
    push_str, to_ascii_lowercase,
};

verus! {

/// A configuration key backed by enough information to identify one
/// physical device across inventory snapshots and process restarts.
#[derive(Debug, Clone, PartialEq, Eq, PartialOrd, Ord, Hash)]
pub struct PhysicalDeviceKey(String);

impl View for PhysicalDeviceKey {
    type V = Seq<char>;

    /// The serialized configuration key.
    closed spec fn view(&self) -> Seq<char> {
        self.0@
    }
}

/// A device's own identity, used to disambiguate two same-model direct
/// devices.
#[derive(Debug, Clone, PartialEq, Eq, PartialOrd, Ord)]
pub enum DeviceIdentity {
    /// Case-folded serial number.
    Serial(String),
    /// Raw HID++ unit id, used when no serial is reported.
    Unit([u8; 4]),
}

/// A route-derived identity used to order devices deterministically.
///
/// Receiver UID + slot and serial/non-zero unit identities are stable and
/// unique. OS-node identities on raw HID routes are retained only so a
/// transient inventory record can still be ordered; they never become a
/// [`PhysicalDeviceKey`].
#[derive(Debug, Clone, PartialEq, Eq, PartialOrd, Ord)]
pub enum DeviceStableId {
    /// Paired to a receiver; Bolt and Unifying share this variant.
    Bolt {
        /// Case-folded receiver unique id.
        receiver_uid: String,
        /// Pairing slot on the receiver.
        slot: u8,
    },
    /// Attached straight to the host, disambiguated by its own identity.
    Direct {
        /// USB vendor id.
        vendor_id: u16,
        /// USB product id.
        product_id: u16,
        /// Disambiguates two same-model direct devices.
        identity: DeviceIdentity,
    },
    /// A standalone raw-HID device.
    RawHid {
        /// USB vendor id.
        vendor_id: u16,
        /// USB product id.
        product_id: u16,
        /// HID usage page.
        usage_page: u16,
        /// HID usage id.
        usage_id: u16,
        /// Case-folded OS-node- or serial-derived identity.
        identity: String,
    },
    /// No route was reported; ordered by pairing slot plus its own identity.
    Unknown {
        /// Pairing slot, when known.
        slot: u8,
        /// Disambiguates two same-model routeless devices.
        identity: DeviceIdentity,
    },
}

/// Whether `id` is the identity built from `serial` and `unit_id`: the
/// lower-cased serial when there is a non-empty one, else the unit id.
pub open spec fn identity_from(id: DeviceIdentity, serial: Option<&str>, unit_id: [u8; 4]) -> bool {
    match serial {
        Some(s) if s@.len() > 0 => id matches DeviceIdentity::Serial(x) && x@ == lower_seq(s@),
        _ => id == DeviceIdentity::Unit(unit_id),
    }
}

/// Whether `id` is the stable id built from `route`, `slot`, `serial` and
/// `unit_id`.
pub open spec fn stable_id_from(
    id: DeviceStableId,
    route: Option<&DeviceRoute>,
    slot: u8,
    serial: Option<&str>,
    unit_id: [u8; 4],
) -> bool {
    match route {
        Some(DeviceRoute::Bolt { receiver_uid, slot: s }) | Some(DeviceRoute::Unifying { receiver_uid, slot: s }) => {
            id matches DeviceStableId::Bolt { receiver_uid: uid, slot: t } && uid@ == lower_seq(receiver_uid@) && t == s
        },
        Some(DeviceRoute::Direct { vendor_id, product_id }) => {
            id matches DeviceStableId::Direct { vendor_id: v, product_id: p, identity }
                && v == vendor_id && p == product_id && identity_from(identity, serial, unit_id)
        },
        Some(DeviceRoute::RawHid { vendor_id, product_id, usage_page, usage_id, identity }) => {
            id matches DeviceStableId::RawHid { vendor_id: v, product_id: p, usage_page: up, usage_id: ui, identity: x }
                && v == vendor_id && p == product_id && up == usage_page && ui == usage_id
                && x@ == lower_seq(identity@)
        },
        None => {
            id matches DeviceStableId::Unknown { slot: t, identity }
                && t == slot && identity_from(identity, serial, unit_id)
        },
    }
}

/// A unit id as eight lower-case hexadecimal digits.
pub open spec fn unit_hex(unit: [u8; 4]) -> Seq<char> {
    hex2(unit@[0]) + hex2(unit@[1]) + hex2(unit@[2]) + hex2(unit@[3])
}

/// An identity as a bare `serial:`/`unit:` fragment.
pub open spec fn identity_key(id: DeviceIdentity) -> Seq<char> {
    match id {
        DeviceIdentity::Serial(serial) => "serial:"@ + serial@,
        DeviceIdentity::Unit(unit) => "unit:"@ + unit_hex(unit),
    }
}

/// Whether an identity is non-trivial: a non-empty serial, or a unit id that
/// is not all-zero.
pub open spec fn identity_is_physical(id: DeviceIdentity) -> bool {
    match id {
        DeviceIdentity::Serial(serial) => serial@.len() > 0,
        DeviceIdentity::Unit(unit) => !(unit@[0] == 0 && unit@[1] == 0 && unit@[2] == 0 && unit@[3] == 0),
    }
}

/// The runtime key of a stable id.
pub open spec fn runtime_key(id: DeviceStableId) -> Seq<char> {
    match id {
        DeviceStableId::Bolt { receiver_uid, slot } => "receiver:"@ + receiver_uid@ + ":slot:"@ + decimal(slot as nat),
        DeviceStableId::Direct { vendor_id, product_id, identity } => "direct:"@ + hex4(vendor_id) + ":"@ + hex4(product_id) + ":"@ + identity_key(identity),
        DeviceStableId::RawHid { vendor_id, product_id, usage_page, usage_id, identity } => "raw:"@ + hex4(vendor_id) + ":"@ + hex4(product_id) + ":"@ + hex4(usage_page) + ":"@ + hex4(usage_id) + ":"@ + identity@,
        DeviceStableId::Unknown { slot, identity } => "unknown:slot:"@ + decimal(slot as nat) + ":"@ + identity_key(identity),
    }
}

/// The route key of a stable id: a direct device's key without its identity;
/// every other key unchanged.
pub open spec fn route_key(id: DeviceStableId) -> Seq<char> {
    match id {
        DeviceStableId::Direct { vendor_id, product_id, .. } => "direct:"@ + hex4(vendor_id) + ":"@ + hex4(product_id),
        _ => runtime_key(id),
    }
}

/// Whether a raw-HID route identity is backed by a serial or another stable
/// identity rather than an OS node.
pub open spec fn raw_identity_is_physical(v: Seq<char>) -> bool {
    ||| (strip_prefix(v, "serial:"@) matches Some(r) && r.len() > 0)
    ||| (strip_prefix(v, "stable:"@) matches Some(r) && r.len() > 0)
}

/// Whether a stable id has a key for persisted configuration: a
/// receiver-connected device names its receiver by a non-empty uid.
pub open spec fn has_physical_key(id: DeviceStableId) -> bool {
    match id {
        DeviceStableId::Bolt { receiver_uid, .. } => receiver_uid@.len() > 0,
        DeviceStableId::Direct { identity, .. } => identity_is_physical(identity),
        DeviceStableId::Unknown { identity, .. } => identity_is_physical(identity),
        DeviceStableId::RawHid { identity, .. } => raw_identity_is_physical(identity@),
    }
}

/// Whether `v` is a receiver key: `receiver:<uid>:slot:<u8>` with a
/// non-empty uid.
pub open spec fn receiver_key_is_valid(v: Seq<char>) -> bool {
    match strip_prefix(v, "receiver:"@) {
        Some(rest) => match rsplit_once(rest, ":slot:"@) {
            Some((uid, slot)) => uid.len() > 0 && parses_as_u8(slot),
            None => false,
        },
        None => false,
    }
}

/// The identity fragment of a `direct:<hex4>:<hex4>:<identity>` key.
pub open spec fn direct_identity_fragment(v: Seq<char>) -> Option<Seq<char>> {
    match strip_prefix(v, "direct:"@) {
        Some(rest) => match split_once(rest, ':') {
            Some((vendor, r1)) => match split_once(r1, ':') {
                Some((product, identity)) => if is_hex_word(vendor) && is_hex_word(product) {
                    Some(identity)
                } else {
                    None
                },
                None => None,
            },
            None => None,
        },
        None => None,
    }
}

/// The non-empty identity fragment of a
/// `raw:<hex4>:<hex4>:<hex4>:<hex4>:<identity>` key.
pub open spec fn raw_identity_fragment(v: Seq<char>) -> Option<Seq<char>> {
    match strip_prefix(v, "raw:"@) {
        Some(rest) => match split_once(rest, ':') {
            Some((vendor, r1)) => match split_once(r1, ':') {
                Some((product, r2)) => match split_once(r2, ':') {
                    Some((page, r3)) => match split_once(r3, ':') {
                        Some((usage, identity)) => if is_hex_word(vendor) && is_hex_word(product)
                            && is_hex_word(page) && is_hex_word(usage) && identity.len() > 0 {
                            Some(identity)
                        } else {
                            None
                        },
                        None => None,
                    },
                    None => None,
                },
                None => None,
            },
            None => None,
        },
        None => None,
    }
}

/// The identity fragment of an `unknown:slot:<u8>:<identity>` key.
pub open spec fn unknown_identity_fragment(v: Seq<char>) -> Option<Seq<char>> {
    match strip_prefix(v, "unknown:slot:"@) {
        Some(rest) => match split_once(rest, ':') {
            Some((slot, identity)) => if parses_as_u8(slot) { Some(identity) } else { None },
            None => None,
        },
        None => None,
    }
}

/// Whether an identity fragment names a physical identity: a non-empty
/// serial, or eight hexadecimal unit digits that are not all zero.
pub open spec fn identity_fragment_is_physical(v: Seq<char>) -> bool {
    ||| (strip_prefix(v, "serial:"@) matches Some(r) && r.len() > 0)
    ||| (strip_prefix(v, "unit:"@) matches Some(u) && u.len() == 8 && all_hex(u) && u != "00000000"@)
}

/// Whether `v` is a key that [`PhysicalDeviceKey::parse`] accepts.
pub open spec fn is_physical_key_text(v: Seq<char>) -> bool {
    ||| receiver_key_is_valid(v)
    ||| (direct_identity_fragment(v) matches Some(i) && identity_fragment_is_physical(i))
    ||| (raw_identity_fragment(v) matches Some(i) && raw_identity_is_physical(i))
    ||| (unknown_identity_fragment(v) matches Some(i) && identity_fragment_is_physical(i))
    ||| identity_fragment_is_physical(v)
}

/// Whether `v` is a runtime key whose only device identity is transient:
/// an all-zero unit id, or an OS-node raw identity.
pub open spec fn is_transient_key_text(v: Seq<char>) -> bool {
    let fragment = match direct_identity_fragment(v) {
        Some(i) => Some(i),
        None => unknown_identity_fragment(v),
    };
    ||| (fragment matches Some(i) && i == "unit:00000000"@)
    ||| (raw_identity_fragment(v) matches Some(i) && (has_prefix(i, "id:"@) || i.len() == 0))
}

impl DeviceIdentity {
    /// Prefer the serial number (case-folded) when present, else the unit id.
    pub fn from_parts(serial: Option<&str>, unit_id: [u8; 4]) -> (id: Self)
        ensures
            identity_from(id, serial, unit_id),
    {
        match serial {
            Some(s) if s.unicode_len() > 0 => DeviceIdentity::Serial(to_ascii_lowercase(s)),
            _ => DeviceIdentity::Unit(unit_id),
        }
    }

    /// Whether this identity is non-trivial.
    pub fn is_physical(&self) -> (b: bool)
        ensures
            b == identity_is_physical(*self),
    {
        match self {
            DeviceIdentity::Serial(serial) => serial.as_str().unicode_len() > 0,
            DeviceIdentity::Unit(unit) => !(unit[0] == 0 && unit[1] == 0 && unit[2] == 0 && unit[3] == 0),
        }
    }

    /// Append this identity as a bare `serial:`/`unit:` fragment.
    fn push_key(&self, s: &mut String)
        ensures
            final(s)@ == old(s)@ + identity_key(*self),
    {
        match self {
            DeviceIdentity::Serial(serial) => {
                push_str(s, "serial:");
                push_str(s, serial.as_str());
                assert(final(s)@ =~= old(s)@ + identity_key(*self));
            },
            DeviceIdentity::Unit(unit) => {
                push_str(s, "unit:");
                push_hex2(s, unit[0]);
                push_hex2(s, unit[1]);
                push_hex2(s, unit[2]);
                push_hex2(s, unit[3]);
                assert(final(s)@ =~= old(s)@ + identity_key(*self));
            },
        }
    }

    /// This identity as a bare `serial:`/`unit:` fragment.
    pub fn key(&self) -> (k: String)
        ensures
            k@ == identity_key(*self),
    {
        let mut k = String::new();
        self.push_key(&mut k);
        k
    }
}

impl DeviceStableId {
    /// Build the stable id from a device's route plus its identity fields.
    /// `slot` is only consulted for a routeless device.
    pub fn from_parts(route: Option<&DeviceRoute>, slot: u8, serial: Option<&str>, unit_id: [u8; 4]) -> (id: Self)
        ensures
            stable_id_from(id, route, slot, serial, unit_id),
    {
        match route {
            Some(DeviceRoute::Bolt { receiver_uid, slot }) => DeviceStableId::Bolt {
                receiver_uid: to_ascii_lowercase(receiver_uid.as_str()),
                slot: *slot,
            },
            Some(DeviceRoute::Unifying { receiver_uid, slot }) => DeviceStableId::Bolt {
                receiver_uid: to_ascii_lowercase(receiver_uid.as_str()),
                slot: *slot,
            },
            Some(DeviceRoute::Direct { vendor_id, product_id }) => DeviceStableId::Direct {
                vendor_id: *vendor_id,
                product_id: *product_id,
                identity: DeviceIdentity::from_parts(serial, unit_id),
            },
            Some(DeviceRoute::RawHid { vendor_id, product_id, usage_page, usage_id, identity }) => DeviceStableId::RawHid {
                vendor_id: *vendor_id,
                product_id: *product_id,
                usage_page: *usage_page,
                usage_id: *usage_id,
                identity: to_ascii_lowercase(identity.as_str()),
            },
            None => DeviceStableId::Unknown { slot, identity: DeviceIdentity::from_parts(serial, unit_id) },
        }
    }

    /// Route-derived key used while a device is present in a runtime
    /// snapshot. Receiver-connected devices are keyed by receiver UID and
    /// pairing slot, so two identical mice on one receiver differ.
    pub fn runtime_key(&self) -> (k: String)
        ensures
            k@ == runtime_key(*self),
    {
        let mut k = String::new();
        match self {
            DeviceStableId::Bolt { receiver_uid, slot } => {
                push_str(&mut k, "receiver:");
                push_str(&mut k, receiver_uid.as_str());
                push_str(&mut k, ":slot:");
                push_decimal_u8(&mut k, *slot);
            },
            DeviceStableId::Direct { vendor_id, product_id, identity } => {
                push_str(&mut k, "direct:");
                push_hex4(&mut k, *vendor_id);
                push_str(&mut k, ":");
                push_hex4(&mut k, *product_id);
                push_str(&mut k, ":");
                identity.push_key(&mut k);
            },
            DeviceStableId::RawHid { vendor_id, product_id, usage_page, usage_id, identity } => {
                push_str(&mut k, "raw:");
                push_hex4(&mut k, *vendor_id);
                push_str(&mut k, ":");
                push_hex4(&mut k, *product_id);
                push_str(&mut k, ":");
                push_hex4(&mut k, *usage_page);
                push_str(&mut k, ":");
                push_hex4(&mut k, *usage_id);
                push_str(&mut k, ":");
                push_str(&mut k, identity.as_str());
            },
            DeviceStableId::Unknown { slot, identity } => {
                push_str(&mut k, "unknown:slot:");
                push_decimal_u8(&mut k, *slot);
                push_str(&mut k, ":");
                identity.push_key(&mut k);
            },
        }
        k
    }

    /// Key naming the path a device was reached by, with the device's own
    /// identity removed: only a direct device's key changes.
    pub fn route_key(&self) -> (k: String)
        ensures
            k@ == route_key(*self),
    {
        match self {
            DeviceStableId::Direct { vendor_id, product_id, .. } => {
                let mut k = String::new();
                push_str(&mut k, "direct:");
                push_hex4(&mut k, *vendor_id);
                push_str(&mut k, ":");
                push_hex4(&mut k, *product_id);
                k
            },
            _ => self.runtime_key(),
        }
    }

    /// Stable key for persisted per-physical-device configuration: the
    /// runtime key, for receiver-connected devices whose receiver uid is
    /// known (an empty uid names no receiver), for direct and routeless
    /// devices with a non-empty serial or non-zero unit id, and for raw
    /// devices with a serial-backed identity.
    pub fn physical_key(&self) -> (k: Option<PhysicalDeviceKey>)
        ensures
            k is Some <==> has_physical_key(*self),
            k matches Some(key) ==> key@ == runtime_key(*self),
            k matches Some(key) ==> is_physical_key_text(key@),
    {
        proof {
            if has_physical_key(*self) {
                lemma_physical_keys_parse(*self);
            }
        }
        let physical = match self {
            DeviceStableId::Bolt { receiver_uid, .. } => receiver_uid.as_str().unicode_len() > 0,
            DeviceStableId::Direct { identity, .. } => identity.is_physical(),
            DeviceStableId::Unknown { identity, .. } => identity.is_physical(),
            DeviceStableId::RawHid { identity, .. } => {
                let v = chars_of(identity.as_str());
                raw_identity_is_physical_chars(v.as_slice())
            },
        };
        if physical {
            Some(PhysicalDeviceKey(self.runtime_key()))
        } else {
            None
        }
    }
}

fn raw_identity_is_physical_chars(v: &[char]) -> (b: bool)
    ensures
        b == raw_identity_is_physical(v@),
{
    let serial = match strip_prefix_chars(v, "serial:") {
        Some(r) => r.len() > 0,
        None => false,
    };
    serial || match strip_prefix_chars(v, "stable:") {
        Some(r) => r.len() > 0,
        None => false,
    }
}

fn receiver_key_is_valid_chars(v: &[char]) -> (b: bool)
    ensures
        b == receiver_key_is_valid(v@),
{
    match strip_prefix_chars(v, "receiver:") {
        Some(rest) => match rsplit_once_chars(rest.as_slice(), ":slot:") {
            Some((uid, slot)) => uid.len() > 0 && parses_as_u8_chars(slot.as_slice()),
            None => false,
        },
        None => false,
    }
}

fn direct_identity_fragment_chars(v: &[char]) -> (r: Option<Vec<char>>)
    ensures
        r matches Some(i) ==> direct_identity_fragment(v@) == Some(i@),
        r is None ==> direct_identity_fragment(v@) is None,
{
    let rest = match strip_prefix_chars(v, "direct:") {
        Some(rest) => rest,
        None => return None,
    };
    let (vendor, r1) = match split_once_chars(rest.as_slice(), ':') {
        Some(parts) => parts,
        None => return None,
    };
    let (product, identity) = match split_once_chars(r1.as_slice(), ':') {
        Some(parts) => parts,
        None => return None,
    };
    if is_hex_word_chars(vendor.as_slice()) && is_hex_word_chars(product.as_slice()) {
        Some(identity)
    } else {
        None
    }
}

fn raw_identity_fragment_chars(v: &[char]) -> (r: Option<Vec<char>>)
    ensures
        r matches Some(i) ==> raw_identity_fragment(v@) == Some(i@),
        r is None ==> raw_identity_fragment(v@) is None,
{
    let rest = match strip_prefix_chars(v, "raw:") {
        Some(rest) => rest,
        None => return None,
    };
    let (vendor, r1) = match split_once_chars(rest.as_slice(), ':') {
        Some(parts) => parts,
        None => return None,
    };
    let (product, r2) = match split_once_chars(r1.as_slice(), ':') {
        Some(parts) => parts,
        None => return None,
    };
    let (page, r3) = match split_once_chars(r2.as_slice(), ':') {
        Some(parts) => parts,
        None => return None,
    };
    let (usage, identity) = match split_once_chars(r3.as_slice(), ':') {
        Some(parts) => parts,
        None => return None,
    };
    if is_hex_word_chars(vendor.as_slice()) && is_hex_word_chars(product.as_slice())
        && is_hex_word_chars(page.as_slice()) && is_hex_word_chars(usage.as_slice()) && identity.len() > 0 {
        Some(identity)
    } else {
        None
    }
}

fn unknown_identity_fragment_chars(v: &[char]) -> (r: Option<Vec<char>>)
    ensures
        r matches Some(i) ==> unknown_identity_fragment(v@) == Some(i@),
        r is None ==> unknown_identity_fragment(v@) is None,
{
    let rest = match strip_prefix_chars(v, "unknown:slot:") {
        Some(rest) => rest,
        None => return None,
    };
    match split_once_chars(rest.as_slice(), ':') {
        Some((slot, identity)) => if parses_as_u8_chars(slot.as_slice()) { Some(identity) } else { None },
        None => None,
    }
}

fn identity_fragment_is_physical_chars(v: &[char]) -> (b: bool)
    ensures
        b == identity_fragment_is_physical(v@),
{
    let serial = match strip_prefix_chars(v, "serial:") {
        Some(r) => r.len() > 0,
        None => false,
    };
    serial || match strip_prefix_chars(v, "unit:") {
        Some(u) => u.len() == 8 && all_hex_chars(u.as_slice()) && !chars_eq_str(u.as_slice(), "00000000"),
        None => false,
    }
}

impl PhysicalDeviceKey {
    /// Parse a key emitted by [`DeviceStableId::physical_key`]. Legacy
    /// model-scoped keys return `None`.
    pub fn parse(value: &str) -> (k: Option<Self>)
        ensures
            k is Some <==> is_physical_key_text(value@),
            k matches Some(key) ==> key@ == value@,
    {
        let v = chars_of(value);
        let s = v.as_slice();
        let accepted = receiver_key_is_valid_chars(s)
            || match direct_identity_fragment_chars(s) {
                Some(i) => identity_fragment_is_physical_chars(i.as_slice()),
                None => false,
            }
            || match raw_identity_fragment_chars(s) {
                Some(i) => raw_identity_is_physical_chars(i.as_slice()),
                None => false,
            }
            || match unknown_identity_fragment_chars(s) {
                Some(i) => identity_fragment_is_physical_chars(i.as_slice()),
                None => false,
            }
            || identity_fragment_is_physical_chars(s);
        if accepted {
            let mut text = String::new();
            push_str(&mut text, value);
            assert(text@ =~= value@);
            Some(PhysicalDeviceKey(text))
        } else {
            None
        }
    }

    /// Whether `value` is a structurally valid runtime key whose only device
    /// identity is the all-zero unit id (or an OS-node raw identity).
    pub fn is_transient(value: &str) -> (b: bool)
        ensures
            b == is_transient_key_text(value@),
    {
        let v = chars_of(value);
        let s = v.as_slice();
        let fragment = match direct_identity_fragment_chars(s) {
            Some(i) => Some(i),
            None => unknown_identity_fragment_chars(s),
        };
        let zero_unit = match fragment {
            Some(i) => chars_eq_str(i.as_slice(), "unit:00000000"),
            None => false,
        };
        zero_unit || match raw_identity_fragment_chars(s) {
            Some(i) => {
                let id_prefixed = match strip_prefix_chars(i.as_slice(), "id:") {
                    Some(_) => true,
                    None => false,
                };
                id_prefixed || i.len() == 0
            },
            None => false,
        }
    }

    /// Borrow the serialized configuration key.
    pub fn as_str(&self) -> (s: &str)
        ensures
            s@ == self@,
    {
        self.0.as_str()
    }

    /// Consume the wrapper and return its serialized configuration key.
    pub fn into_string(self) -> (s: String)
        ensures
            s@ == self@,
    {
        self.0
    }
}

proof fn lemma_hex4_word(x: u16)
    ensures
        is_hex_word(hex4(x)),
        forall|i: int| 0 <= i < hex4(x).len() ==> #[trigger] hex4(x)[i] != ':',
{
    lemma_hex_char(x as int / 4096);
    lemma_hex_char((x as int / 256) % 16);
    lemma_hex_char((x as int / 16) % 16);
    lemma_hex_char(x as int % 16);
}

proof fn lemma_decimal_u8(n: u8)
    ensures
        parses_as_u8(decimal(n as nat)),
        forall|i: int| 0 <= i < decimal(n as nat).len() ==> #[trigger] decimal(n as nat)[i] != ':',
{
    lemma_decimal_round_trip(n as nat);
    let d = decimal(n as nat);
    assert(is_digit_char(d[0]));
    assert(unsigned_digits(d) == d);
    assert(all_digits(d));
}

proof fn lemma_identity_key_physical(id: DeviceIdentity)
    requires
        identity_is_physical(id),
    ensures
        identity_fragment_is_physical(identity_key(id)),
{
    match id {
        DeviceIdentity::Serial(serial) => {
            lemma_strip_prefix_concat("serial:"@, serial@);
        },
        DeviceIdentity::Unit(unit) => {
            let u = unit_hex(unit);
            lemma_strip_prefix_concat("unit:"@, u);
            lemma_hex_char(unit@[0] as int / 16);
            lemma_hex_char(unit@[0] as int % 16);
            lemma_hex_char(unit@[1] as int / 16);
            lemma_hex_char(unit@[1] as int % 16);
            lemma_hex_char(unit@[2] as int / 16);
            lemma_hex_char(unit@[2] as int % 16);
            lemma_hex_char(unit@[3] as int / 16);
            lemma_hex_char(unit@[3] as int % 16);
            assert(u.len() == 8);
            assert(all_hex(u));
            reveal_strlit("00000000");
            if u == "00000000"@ {
                assert(u[0] == '0' && u[1] == '0' && u[2] == '0' && u[3] == '0');
                assert(u[4] == '0' && u[5] == '0' && u[6] == '0' && u[7] == '0');
                assert(false);
            }
        },
    }
}

proof fn lemma_slot_separator_is_last(uid: Seq<char>, dec: Seq<char>)
    requires
        dec.len() > 0,
        all_digits(dec),
    ensures
        is_last_match(uid + ":slot:"@ + dec, ":slot:"@, uid.len() as int),
{
    let pat = ":slot:"@;
    reveal_strlit(":slot:");
    let rest = uid + pat + dec;
    let i0 = uid.len() as int;
    assert(rest.subrange(i0, i0 + 6) =~= pat);
    assert forall|j: int| i0 < j implies !#[trigger] matches_at(rest, pat, j) by {
        if matches_at(rest, pat, j) {
            let w = rest.subrange(j, j + 6);
            assert(w[0] == rest[j]);
            assert(w[1] == rest[j + 1]);
            assert(pat[0] == ':' && pat[1] == 's');
            if j < i0 + 5 {
                assert(rest[j] == pat[j - i0]);
            } else if j == i0 + 5 {
                assert(rest[j + 1] == dec[0]);
                assert(is_digit_char(dec[0]));
            } else {
                assert(rest[j] == dec[j - i0 - 6]);
                assert(is_digit_char(dec[j - i0 - 6]));
            }
        }
    }
}

proof fn lemma_receiver_key_parses(uid: Seq<char>, slot: u8)
    requires
        uid.len() > 0,
    ensures
        receiver_key_is_valid("receiver:"@ + uid + ":slot:"@ + decimal(slot as nat)),
{
    let dec = decimal(slot as nat);
    let pat = ":slot:"@;
    reveal_strlit(":slot:");
    let rest = uid + pat + dec;
    assert("receiver:"@ + uid + pat + dec =~= "receiver:"@ + rest);
    lemma_strip_prefix_concat("receiver:"@, rest);
    lemma_decimal_u8(slot);
    lemma_decimal_round_trip(slot as nat);
    let i0 = uid.len() as int;
    lemma_slot_separator_is_last(uid, dec);
    let k = choose|k: int| is_last_match(rest, pat, k);
    assert(k == i0) by {
        if k < i0 {
            assert(!matches_at(rest, pat, i0));
        } else if k > i0 {
            assert(!matches_at(rest, pat, k));
        }
    }
    assert(rest.subrange(0, i0) =~= uid);
    assert(rest.subrange(i0 + 6, rest.len() as int) =~= dec);
}

proof fn lemma_direct_key_parses(vendor_id: u16, product_id: u16, identity: DeviceIdentity)
    requires
        identity_is_physical(identity),
    ensures
        direct_identity_fragment("direct:"@ + hex4(vendor_id) + ":"@ + hex4(product_id) + ":"@ + identity_key(identity))
            == Some(identity_key(identity)),
        identity_fragment_is_physical(identity_key(identity)),
{
    reveal_strlit(":");
    let key = identity_key(identity);
    let b = hex4(product_id) + seq![':'] + key;
    let rest = hex4(vendor_id) + seq![':'] + b;
    assert("direct:"@ + hex4(vendor_id) + ":"@ + hex4(product_id) + ":"@ + key =~= "direct:"@ + rest);
    lemma_strip_prefix_concat("direct:"@, rest);
    lemma_hex4_word(vendor_id);
    lemma_hex4_word(product_id);
    lemma_split_once_concat(hex4(vendor_id), ':', b);
    lemma_split_once_concat(hex4(product_id), ':', key);
    lemma_identity_key_physical(identity);
}

proof fn lemma_raw_key_parses(vendor_id: u16, product_id: u16, usage_page: u16, usage_id: u16, identity: Seq<char>)
    requires
        identity.len() > 0,
    ensures
        raw_identity_fragment(
            "raw:"@ + hex4(vendor_id) + ":"@ + hex4(product_id) + ":"@ + hex4(usage_page) + ":"@ + hex4(usage_id) + ":"@ + identity,
        ) == Some(identity),
{
    reveal_strlit(":");
    let r3 = hex4(usage_id) + seq![':'] + identity;
    let r2 = hex4(usage_page) + seq![':'] + r3;
    let r1 = hex4(product_id) + seq![':'] + r2;
    let rest = hex4(vendor_id) + seq![':'] + r1;
    assert("raw:"@ + hex4(vendor_id) + ":"@ + hex4(product_id) + ":"@ + hex4(usage_page) + ":"@ + hex4(usage_id) + ":"@ + identity
        =~= "raw:"@ + rest);
    lemma_strip_prefix_concat("raw:"@, rest);
    lemma_hex4_word(vendor_id);
    lemma_hex4_word(product_id);
    lemma_hex4_word(usage_page);
    lemma_hex4_word(usage_id);
    lemma_split_once_concat(hex4(vendor_id), ':', r1);
    lemma_split_once_concat(hex4(product_id), ':', r2);
    lemma_split_once_concat(hex4(usage_page), ':', r3);
    lemma_split_once_concat(hex4(usage_id), ':', identity);
}

proof fn lemma_unknown_key_parses(slot: u8, identity: DeviceIdentity)
    requires
        identity_is_physical(identity),
    ensures
        unknown_identity_fragment("unknown:slot:"@ + decimal(slot as nat) + ":"@ + identity_key(identity))
            == Some(identity_key(identity)),
        identity_fragment_is_physical(identity_key(identity)),
{
    reveal_strlit(":");
    let key = identity_key(identity);
    let dec = decimal(slot as nat);
    let rest = dec + seq![':'] + key;
    assert("unknown:slot:"@ + dec + ":"@ + key =~= "unknown:slot:"@ + rest);
    lemma_strip_prefix_concat("unknown:slot:"@, rest);
    lemma_decimal_u8(slot);
    lemma_split_once_concat(dec, ':', key);
    lemma_identity_key_physical(identity);
}

/// Every key that [`DeviceStableId::physical_key`] emits is accepted by
/// [`PhysicalDeviceKey::parse`], which gives the same text back.
pub proof fn lemma_physical_keys_parse(id: DeviceStableId)
    requires
        has_physical_key(id),
    ensures
        is_physical_key_text(runtime_key(id)),
{
    match id {
        DeviceStableId::Bolt { receiver_uid, slot } => {
            lemma_receiver_key_parses(receiver_uid@, slot);
        },
        DeviceStableId::Direct { vendor_id, product_id, identity } => {
            lemma_direct_key_parses(vendor_id, product_id, identity);
        },
        DeviceStableId::RawHid { vendor_id, product_id, usage_page, usage_id, identity } => {
            lemma_raw_key_parses(vendor_id, product_id, usage_page, usage_id, identity@);
        },
        DeviceStableId::Unknown { slot, identity } => {
            lemma_unknown_key_parses(slot, identity);
        },
    }
}

/// Text that starts with `p` does not start with a `q` that differs from
/// `p` at a position both reach.
proof fn lemma_prefix_clash(v: Seq<char>, p: Seq<char>, q: Seq<char>, k: int)
    requires
        has_prefix(v, p),
        0 <= k < p.len(),
        k < q.len(),
        p[k] != q[k],
    ensures
        !has_prefix(v, q),
{
    assert(v.subrange(0, p.len() as int)[k] == v[k]);
    if has_prefix(v, q) {
        assert(v.subrange(0, q.len() as int)[k] == v[k]);
    }
}

/// A runtime key whose only identity is transient never parses as a
/// physical key: [`PhysicalDeviceKey::is_transient`] and
/// [`PhysicalDeviceKey::parse`] never both accept the same text.
pub proof fn lemma_transient_keys_never_parse(v: Seq<char>)
    requires
        is_transient_key_text(v),
    ensures
        !is_physical_key_text(v),
{
    reveal_strlit("receiver:");
    reveal_strlit("direct:");
    reveal_strlit("raw:");
    reveal_strlit("unknown:slot:");
    reveal_strlit("serial:");
    reveal_strlit("stable:");
    reveal_strlit("unit:");
    reveal_strlit("unit:00000000");
    reveal_strlit("00000000");
    reveal_strlit("id:");
    if direct_identity_fragment(v) is Some {
        let i = direct_identity_fragment(v)->0;
        assert(has_prefix(v, "direct:"@));
        lemma_prefix_clash(v, "direct:"@, "receiver:"@, 0);
        lemma_prefix_clash(v, "direct:"@, "raw:"@, 0);
        lemma_prefix_clash(v, "direct:"@, "unknown:slot:"@, 0);
        lemma_prefix_clash(v, "direct:"@, "serial:"@, 0);
        lemma_prefix_clash(v, "direct:"@, "unit:"@, 0);
        if i == "unit:00000000"@ {
            assert(i.subrange(0, 5) =~= "unit:"@);
            lemma_prefix_clash(i, "unit:"@, "serial:"@, 0);
            assert(i.subrange(5, 13) =~= "00000000"@);
        } else {
            assert(raw_identity_fragment(v) is None);
        }
    } else if unknown_identity_fragment(v) is Some && unknown_identity_fragment(v)->0 == "unit:00000000"@ {
        let i = unknown_identity_fragment(v)->0;
        assert(has_prefix(v, "unknown:slot:"@));
        lemma_prefix_clash(v, "unknown:slot:"@, "receiver:"@, 0);
        lemma_prefix_clash(v, "unknown:slot:"@, "raw:"@, 0);
        lemma_prefix_clash(v, "unknown:slot:"@, "serial:"@, 0);
        lemma_prefix_clash(v, "unknown:slot:"@, "unit:"@, 2);
        assert(i.subrange(0, 5) =~= "unit:"@);
        lemma_prefix_clash(i, "unit:"@, "serial:"@, 0);
        assert(i.subrange(5, 13) =~= "00000000"@);
    } else {
        let i = raw_identity_fragment(v)->0;
        assert(has_prefix(v, "raw:"@));
        lemma_prefix_clash(v, "raw:"@, "receiver:"@, 1);
        lemma_prefix_clash(v, "raw:"@, "direct:"@, 0);
        lemma_prefix_clash(v, "raw:"@, "unknown:slot:"@, 0);
        lemma_prefix_clash(v, "raw:"@, "serial:"@, 0);
        lemma_prefix_clash(v, "raw:"@, "unit:"@, 0);
        assert(has_prefix(i, "id:"@));
        lemma_prefix_clash(i, "id:"@, "serial:"@, 0);
        lemma_prefix_clash(i, "id:"@, "stable:"@, 0);
    }
}

} // verus!
