//! Which unsolicited HID++ messages ask for another inventory reconciliation.
//!
//! Each inventory-owned channel keeps, per device index, the runtime feature
//! indexes whose events matter: wireless (re)connection and unified battery.
//! Receiver connection notifications count too, except while the enumerator
//! itself triggered them for a snapshot. Decoding a message's payload is the
//! HID++ layer's job; this module decides from its outcome.

use vstd::prelude::*;

use crate::registry::ReceiverProtocol;

verus! {

/// HID++ feature ID of `WirelessDeviceStatus`.
pub const WIRELESS_DEVICE_STATUS_ID: u16 = 0x1d4b;

/// HID++ feature ID of `UnifiedBattery`.
pub const UNIFIED_BATTERY_ID: u16 = 0x1004;

/// A HID++ lifecycle source that requested authoritative inventory
/// reconciliation.
#[derive(Clone, Copy, Debug, PartialEq, Eq, Structural)]
pub enum HidppEventSource {
    /// A receiver reported a paired slot connecting or disconnecting.
    ReceiverConnection,
    /// A device's `WirelessDeviceStatus` feature reported reconnection.
    WirelessDeviceStatus,
    /// A device's event-capable `UnifiedBattery` feature reported a change.
    UnifiedBattery,
}

/// Runtime feature indexes whose unsolicited events affect inventory.
#[derive(Clone, Copy, Debug, PartialEq, Eq, Structural)]
pub struct EventFeatureIndices {
    /// Index of `WirelessDeviceStatus`, if the device has it.
    pub wireless_status: Option<u8>,
    /// Index of `UnifiedBattery`, if the device has it.
    pub unified_battery: Option<u8>,
}

/// The runtime index of feature `id` in a feature table listed from index 1:
/// the position (plus one) of its last occurrence among the first `n`
/// entries, when that fits a byte.
pub open spec fn table_index(ids: Seq<u16>, id: u16, n: nat) -> Option<u8>
    decreases n,
{
    if n == 0 {
        None
    } else if n <= 255 && ids[n - 1] == id {
        Some(n as u8)
    } else {
        table_index(ids, id, (n - 1) as nat)
    }
}

impl Default for EventFeatureIndices {
    fn default() -> (r: Self)
        ensures
            r == (EventFeatureIndices { wireless_status: None, unified_battery: None }),
    {
        EventFeatureIndices { wireless_status: None, unified_battery: None }
    }
}

impl EventFeatureIndices {
    /// The event feature indexes of a feature table listed in index order
    /// from index 1; entries past index 255 have no byte index and are
    /// ignored.
    pub fn from_feature_ids(ids: &[u16]) -> (r: Self)
        ensures
            r.wireless_status == table_index(ids@, WIRELESS_DEVICE_STATUS_ID, ids@.len()),
            r.unified_battery == table_index(ids@, UNIFIED_BATTERY_ID, ids@.len()),
    {
        let mut indices = EventFeatureIndices { wireless_status: None, unified_battery: None };
        let mut position: usize = 0;
        while position < ids.len()
            invariant
                position <= ids.len(),
                position <= 255,
                indices.wireless_status == table_index(ids@, WIRELESS_DEVICE_STATUS_ID, position as nat),
                indices.unified_battery == table_index(ids@, UNIFIED_BATTERY_ID, position as nat),
            decreases ids.len() - position,
        {
            if position >= 255 {
                proof {
                    lemma_table_index_stops(ids@, WIRELESS_DEVICE_STATUS_ID, ids@.len());
                    lemma_table_index_stops(ids@, UNIFIED_BATTERY_ID, ids@.len());
                }
                return indices;
            }
            let index = (position + 1) as u8;
            let id = ids[position];
            if id == WIRELESS_DEVICE_STATUS_ID {
                indices.wireless_status = Some(index);
            } else if id == UNIFIED_BATTERY_ID {
                indices.unified_battery = Some(index);
            }
            position += 1;
        }
        indices
    }

    /// The source a device message names: a software-ID-zero event from the
    /// wireless-status feature index that decodes as a status broadcast, or
    /// from the unified-battery index that decodes as a battery update.
    pub fn recognizes(self, feature_index: u8, software_id: u8, wireless_event: bool, battery_event: bool) -> (r: Option<HidppEventSource>)
        ensures
            r == spec_recognizes(self, feature_index, software_id, wireless_event, battery_event),
    {
        if software_id != 0 {
            return None;
        }
        if self.wireless_status == Some(feature_index) && wireless_event {
            return Some(HidppEventSource::WirelessDeviceStatus);
        }
        if self.unified_battery == Some(feature_index) && battery_event {
            return Some(HidppEventSource::UnifiedBattery);
        }
        None
    }
}

/// The source a device message names, given whether its payload decodes as
/// a wireless-status or a battery event.
pub open spec fn spec_recognizes(f: EventFeatureIndices, feature_index: u8, software_id: u8, wireless_event: bool, battery_event: bool) -> Option<HidppEventSource> {
    if software_id != 0 {
        None
    } else if f.wireless_status == Some(feature_index) && wireless_event {
        Some(HidppEventSource::WirelessDeviceStatus)
    } else if f.unified_battery == Some(feature_index) && battery_event {
        Some(HidppEventSource::UnifiedBattery)
    } else {
        None
    }
}

/// Past byte range, later entries do not change a table index.
proof fn lemma_table_index_stops(ids: Seq<u16>, id: u16, n: nat)
    requires
        n >= 255,
    ensures
        table_index(ids, id, n) == table_index(ids, id, 255),
    decreases n,
{
    if n > 255 {
        lemma_table_index_stops(ids, id, (n - 1) as nat);
    }
}

/// An unsolicited HID++ message as the channel listener saw it, with its
/// payload already decoded by the HID++ layer.
#[derive(Clone, Copy, Debug, PartialEq, Eq, Structural)]
pub struct ObservedMessage {
    /// Whether the message answered a pending request.
    pub matched: bool,
    /// Whether it decodes as the receiver's slot connection notification.
    pub receiver_connection: bool,
    /// HID++ device index.
    pub device_index: u8,
    /// HID++ 2.0 feature index.
    pub feature_index: u8,
    /// HID++ 2.0 software ID.
    pub software_id: u8,
    /// Whether the payload decodes as a `WirelessDeviceStatus` event.
    pub wireless_event: bool,
    /// Whether the payload decodes as a `UnifiedBattery` event.
    pub battery_event: bool,
}

/// Whether no device index occurs twice.
pub open spec fn distinct_indices(s: Seq<(u8, EventFeatureIndices)>) -> bool {
    forall|i: int, j: int| 0 <= i < j < s.len() ==> (#[trigger] s[i]).0 != (#[trigger] s[j]).0
}

/// The entries as a map from device index.
pub open spec fn index_map(s: Seq<(u8, EventFeatureIndices)>) -> Map<u8, EventFeatureIndices> {
    Map::new(
        |d: u8| exists|i: int| 0 <= i < s.len() && s[i].0 == d,
        |d: u8| s[choose|i: int| 0 <= i < s.len() && s[i].0 == d].1,
    )
}

proof fn lemma_index_map_at(s: Seq<(u8, EventFeatureIndices)>, i: int)
    requires
        distinct_indices(s),
        0 <= i < s.len(),
    ensures
        index_map(s).contains_key(s[i].0),
        index_map(s)[s[i].0] == s[i].1,
{
    let d = s[i].0;
    assert(exists|k: int| 0 <= k < s.len() && s[k].0 == d);
    let k = choose|k: int| 0 <= k < s.len() && s[k].0 == d;
    assert(k == i) by {
        if k < i { assert(s[k].0 != s[i].0); }
        if k > i { assert(s[i].0 != s[k].0); }
    }
}

proof fn lemma_index_map_update(s: Seq<(u8, EventFeatureIndices)>, i: int, f: EventFeatureIndices)
    requires
        distinct_indices(s),
        0 <= i < s.len(),
    ensures
        distinct_indices(s.update(i, (s[i].0, f))),
        index_map(s.update(i, (s[i].0, f))) == index_map(s).insert(s[i].0, f),
{
    let t = s.update(i, (s[i].0, f));
    assert(distinct_indices(t)) by {
        assert forall|a: int, b: int| 0 <= a < b < t.len() implies (#[trigger] t[a]).0 != (#[trigger] t[b]).0 by {
            assert(s[a].0 != s[b].0);
        }
    }
    assert forall|d: u8| #[trigger] index_map(t).contains_key(d) == index_map(s).insert(s[i].0, f).contains_key(d) by {
        if index_map(s).contains_key(d) {
            let k = choose|k: int| 0 <= k < s.len() && s[k].0 == d;
            assert(t[k].0 == d);
        }
        if index_map(t).contains_key(d) {
            let k = choose|k: int| 0 <= k < t.len() && t[k].0 == d;
            assert(s[k].0 == d);
        }
        if d == s[i].0 {
            assert(t[i].0 == d);
        }
    }
    assert forall|d: u8| #[trigger] index_map(t).contains_key(d) implies index_map(t)[d] == index_map(s).insert(s[i].0, f)[d] by {
        let k = choose|k: int| 0 <= k < t.len() && t[k].0 == d;
        lemma_index_map_at(t, k);
        if k != i {
            lemma_index_map_at(s, k);
        }
    }
    assert(index_map(t) =~= index_map(s).insert(s[i].0, f));
}

proof fn lemma_index_map_push(s: Seq<(u8, EventFeatureIndices)>, d: u8, f: EventFeatureIndices)
    requires
        distinct_indices(s),
        forall|k: int| 0 <= k < s.len() ==> s[k].0 != d,
    ensures
        distinct_indices(s.push((d, f))),
        index_map(s.push((d, f))) == index_map(s).insert(d, f),
{
    let t = s.push((d, f));
    assert(distinct_indices(t)) by {
        assert forall|a: int, b: int| 0 <= a < b < t.len() implies (#[trigger] t[a]).0 != (#[trigger] t[b]).0 by {
            if b < s.len() {
                assert(s[a].0 != s[b].0);
            }
        }
    }
    assert forall|e: u8| #[trigger] index_map(t).contains_key(e) == index_map(s).insert(d, f).contains_key(e) by {
        if index_map(s).contains_key(e) {
            let k = choose|k: int| 0 <= k < s.len() && s[k].0 == e;
            assert(t[k].0 == e);
        }
        if index_map(t).contains_key(e) {
            let k = choose|k: int| 0 <= k < t.len() && t[k].0 == e;
            if k < s.len() {
                assert(s[k].0 == e);
            }
        }
        if e == d {
            assert(t[s.len() as int].0 == e);
        }
    }
    assert forall|e: u8| #[trigger] index_map(t).contains_key(e) implies index_map(t)[e] == index_map(s).insert(d, f)[e] by {
        let k = choose|k: int| 0 <= k < t.len() && t[k].0 == e;
        lemma_index_map_at(t, k);
        if k < s.len() {
            lemma_index_map_at(s, k);
        }
    }
    assert(index_map(t) =~= index_map(s).insert(d, f));
}

/// The event feature indexes registered per device index, the receiver
/// protocol of the channel, and how many enumerator snapshots are
/// suppressing receiver connection notifications.
pub struct SubscriptionState {
    protocol: Option<ReceiverProtocol>,
    devices: Vec<(u8, EventFeatureIndices)>,
    receiver_snapshot_depth: usize,
}

impl SubscriptionState {
    /// No device index is registered twice.
    #[verifier::type_invariant]
    closed spec fn inv(self) -> bool {
        distinct_indices(self.devices@)
    }

    /// The registered feature indexes, by device index.
    pub closed spec fn registered(self) -> Map<u8, EventFeatureIndices> {
        index_map(self.devices@)
    }

    /// The receiver protocol whose connection notifications count, if any.
    pub closed spec fn spec_protocol(self) -> Option<ReceiverProtocol> {
        self.protocol
    }

    /// How many enumerator snapshots are suppressing receiver connection
    /// notifications.
    pub closed spec fn snapshot_depth(self) -> usize {
        self.receiver_snapshot_depth
    }

    /// A state with nothing registered and no snapshot in progress.
    pub fn new(protocol: Option<ReceiverProtocol>) -> (s: Self)
        ensures
            s.registered() == Map::<u8, EventFeatureIndices>::empty(),
            s.spec_protocol() == protocol,
            s.snapshot_depth() == 0,
    {
        let s = SubscriptionState { protocol, devices: Vec::new(), receiver_snapshot_depth: 0 };
        assert(s.registered() =~= Map::<u8, EventFeatureIndices>::empty());
        s
    }

    /// Replace the event feature indexes of `device_index`.
    pub fn register_device(&mut self, device_index: u8, features: EventFeatureIndices)
        ensures
            final(self).registered() == old(self).registered().insert(device_index, features),
            final(self).spec_protocol() == old(self).spec_protocol(),
            final(self).snapshot_depth() == old(self).snapshot_depth(),
    {
        proof { use_type_invariant(&*self); }
        let ghost before = self.devices@;
        let mut devices: Vec<(u8, EventFeatureIndices)> = Vec::new();
        std::mem::swap(&mut devices, &mut self.devices);
        let mut i: usize = 0;
        while i < devices.len()
            invariant
                devices@ == before,
                distinct_indices(before),
                index_map(before) == old(self).registered(),
                self.spec_protocol() == old(self).spec_protocol(),
                self.snapshot_depth() == old(self).snapshot_depth(),
                i <= devices.len(),
                forall|k: int| 0 <= k < i ==> devices@[k].0 != device_index,
            decreases devices.len() - i,
        {
            if devices[i].0 == device_index {
                proof { lemma_index_map_update(before, i as int, features); }
                devices.set(i, (device_index, features));
                assert(devices@ == before.update(i as int, (before[i as int].0, features)));
                self.devices = devices;
                return;
            }
            i += 1;
        }
        proof { lemma_index_map_push(before, device_index, features); }
        devices.push((device_index, features));
        self.devices = devices;
    }

    /// The registered feature indexes of `device_index`.
    pub fn features_of(&self, device_index: u8) -> (f: Option<EventFeatureIndices>)
        ensures
            f == (if self.registered().contains_key(device_index) { Some(self.registered()[device_index]) } else { None::<EventFeatureIndices> }),
    {
        proof { use_type_invariant(self); }
        let mut i: usize = 0;
        while i < self.devices.len()
            invariant
                i <= self.devices.len(),
                distinct_indices(self.devices@),
                forall|k: int| 0 <= k < i ==> self.devices@[k].0 != device_index,
            decreases self.devices.len() - i,
        {
            if self.devices[i].0 == device_index {
                proof { lemma_index_map_at(self.devices@, i as int); }
                return Some(self.devices[i].1);
            }
            i += 1;
        }
        None
    }

    /// Start suppressing receiver connection notifications for one
    /// enumerator snapshot.
    pub fn begin_receiver_snapshot(&mut self)
        ensures
            final(self).registered() == old(self).registered(),
            final(self).spec_protocol() == old(self).spec_protocol(),
            final(self).snapshot_depth() == (if old(self).snapshot_depth() == usize::MAX { 0 } else { (old(self).snapshot_depth() + 1) as usize }),
    {
        proof { use_type_invariant(&*self); }
        self.receiver_snapshot_depth = self.receiver_snapshot_depth.wrapping_add(1);
    }

    /// End one enumerator snapshot.
    pub fn end_receiver_snapshot(&mut self)
        ensures
            final(self).registered() == old(self).registered(),
            final(self).spec_protocol() == old(self).spec_protocol(),
            final(self).snapshot_depth() == (if old(self).snapshot_depth() == 0 { usize::MAX } else { (old(self).snapshot_depth() - 1) as usize }),
    {
        proof { use_type_invariant(&*self); }
        self.receiver_snapshot_depth = self.receiver_snapshot_depth.wrapping_sub(1);
    }

    /// The reconciliation source an unsolicited message names, if any: none
    /// for a reply to a request; a receiver connection notification (on a
    /// receiver channel) unless a snapshot is suppressing them; otherwise
    /// the event of a registered device's feature.
    pub fn decode(&self, message: &ObservedMessage) -> (r: Option<HidppEventSource>)
        ensures
            r == (if message.matched {
                None
            } else if self.spec_protocol() is Some && message.receiver_connection {
                if self.snapshot_depth() == 0 { Some(HidppEventSource::ReceiverConnection) } else { None }
            } else if self.registered().contains_key(message.device_index) {
                spec_recognizes(self.registered()[message.device_index], message.feature_index, message.software_id,
                    message.wireless_event, message.battery_event)
            } else {
                None
            }),
    {
        if message.matched {
            return None;
        }
        if self.protocol.is_some() && message.receiver_connection {
            return if self.receiver_snapshot_depth == 0 { Some(HidppEventSource::ReceiverConnection) } else { None };
        }
        match self.features_of(message.device_index) {
            Some(features) => features.recognizes(message.feature_index, message.software_id, message.wireless_event, message.battery_event),
            None => None,
        }
    }
}

} // verus!
