//! How to reach a controllable HID++ device — addressing data only.

use vstd::prelude::*;

use crate::device::DeviceInventory;
use crate::registry::{
    find_receiver, spec_find_receiver, ReceiverBrand, ReceiverProtocol, LOGITECH_VENDOR_ID,
};
use crate::text::{
    decimal, eq_ignore_ascii_case, hex4, lower_seq, push_decimal_u8, push_hex4, push_str,
};

verus! {

/// HID++ device index that addresses a directly-attached device's own
/// features (USB cable or Bluetooth, no receiver indirection).
pub const DIRECT_DEVICE_INDEX: u8 = 0xff;

/// How to reach a controllable HID++ device.
#[derive(Debug, Clone, PartialEq, Eq)]
pub enum DeviceRoute {
    /// Paired to a Logi Bolt receiver at a pairing slot.
    Bolt {
        /// Receiver unique ID used to select the physical Bolt receiver.
        receiver_uid: String,
        /// Pairing slot of the target device on that receiver.
        slot: u8,
    },
    /// Paired to a Unifying-protocol receiver at a pairing slot.
    Unifying {
        /// Receiver unique ID used to select the physical Unifying receiver.
        receiver_uid: String,
        /// Pairing slot of the target device on that receiver.
        slot: u8,
    },
    /// Attached straight to the host, addressed at the HID++ self-index.
    Direct {
        /// USB/HID vendor ID of the direct device.
        vendor_id: u16,
        /// USB/HID product ID of the direct device.
        product_id: u16,
    },
    /// Standalone raw-HID device, such as a Litra light.
    RawHid {
        /// HID vendor ID.
        vendor_id: u16,
        /// HID product ID.
        product_id: u16,
        /// HID usage page.
        usage_page: u16,
        /// HID usage ID.
        usage_id: u16,
        /// Stable/opaque device identity selected during enumeration.
        identity: String,
    },
}

/// Whether `product_id` is a receiver that speaks the Unifying register
/// protocol.
pub open spec fn spec_speaks_unifying(product_id: u16) -> bool {
    spec_find_receiver(LOGITECH_VENDOR_ID, product_id) matches Some(d) && d.protocol == ReceiverProtocol::Unifying
}

/// Whether `product_id` is a known Logitech receiver dongle of any family.
pub fn speaks_unifying_protocol(product_id: u16) -> (b: bool)
    ensures
        b == spec_speaks_unifying(product_id),
{
    match find_receiver(LOGITECH_VENDOR_ID, product_id) {
        Some(receiver) => receiver.protocol == ReceiverProtocol::Unifying,
        None => false,
    }
}

/// Whether `product_id` is a known Logitech receiver dongle of any family.
pub fn is_receiver_pid(product_id: u16) -> (b: bool)
    ensures
        b == (spec_find_receiver(LOGITECH_VENDOR_ID, product_id) is Some),
{
    find_receiver(LOGITECH_VENDOR_ID, product_id).is_some()
}

/// The inventory label of a receiver: Lightspeed receivers keep their own
/// name although they share the Unifying protocol path.
pub open spec fn spec_receiver_display_name(product_id: u16) -> Seq<char> {
    if spec_find_receiver(LOGITECH_VENDOR_ID, product_id) matches Some(d) && d.brand == ReceiverBrand::Lightspeed {
        "Lightspeed Receiver"@
    } else {
        "Unifying Receiver"@
    }
}

/// Human-readable name for a receiver identified by `product_id`.
pub fn receiver_display_name(product_id: u16) -> (name: &'static str)
    ensures
        name@ == spec_receiver_display_name(product_id),
{
    let lightspeed = match find_receiver(LOGITECH_VENDOR_ID, product_id) {
        Some(receiver) => receiver.brand == ReceiverBrand::Lightspeed,
        None => false,
    };
    if lightspeed {
        "Lightspeed Receiver"
    } else {
        "Unifying Receiver"
    }
}

impl DeviceRoute {
    /// Whether two routes name the same path, field by field.
    pub open spec fn same(self, other: Self) -> bool {
        match (self, other) {
            (DeviceRoute::Bolt { receiver_uid: a, slot: s }, DeviceRoute::Bolt { receiver_uid: b, slot: t }) =>
                a@ == b@ && s == t,
            (DeviceRoute::Unifying { receiver_uid: a, slot: s }, DeviceRoute::Unifying { receiver_uid: b, slot: t }) =>
                a@ == b@ && s == t,
            (DeviceRoute::Direct { vendor_id: v, product_id: p }, DeviceRoute::Direct { vendor_id: w, product_id: q }) =>
                v == w && p == q,
            (
                DeviceRoute::RawHid { vendor_id: v, product_id: p, usage_page: u, usage_id: i, identity: a },
                DeviceRoute::RawHid { vendor_id: w, product_id: q, usage_page: x, usage_id: j, identity: b },
            ) => v == w && p == q && u == x && i == j && a@ == b@,
            _ => false,
        }
    }

    /// Route equality on field values.
    pub fn same_route(&self, other: &Self) -> (b: bool)
        ensures
            b == self.same(*other),
    {
        match (self, other) {
            (DeviceRoute::Bolt { receiver_uid: a, slot: s }, DeviceRoute::Bolt { receiver_uid: b, slot: t }) =>
                *s == *t && a.eq(b),
            (DeviceRoute::Unifying { receiver_uid: a, slot: s }, DeviceRoute::Unifying { receiver_uid: b, slot: t }) =>
                *s == *t && a.eq(b),
            (DeviceRoute::Direct { vendor_id: v, product_id: p }, DeviceRoute::Direct { vendor_id: w, product_id: q }) =>
                *v == *w && *p == *q,
            (
                DeviceRoute::RawHid { vendor_id: v, product_id: p, usage_page: u, usage_id: i, identity: a },
                DeviceRoute::RawHid { vendor_id: w, product_id: q, usage_page: x, usage_id: j, identity: b },
            ) => *v == *w && *p == *q && *u == *x && *i == *j && a.eq(b),
            _ => false,
        }
    }

    /// Whether two receiver routes name the same receiver, ignoring ASCII case.
    pub open spec fn spec_shares_transport(self, other: Self) -> bool {
        match (self, other) {
            (DeviceRoute::Bolt { receiver_uid: a, .. }, DeviceRoute::Bolt { receiver_uid: b, .. }) =>
                lower_seq(a@) == lower_seq(b@),
            (DeviceRoute::Unifying { receiver_uid: a, .. }, DeviceRoute::Unifying { receiver_uid: b, .. }) =>
                lower_seq(a@) == lower_seq(b@),
            _ => false,
        }
    }

    /// Whether two receiver routes use the same physical HID transport.
    /// Direct routes cannot prove identity because they carry only VID/PID.
    pub fn shares_transport(&self, other: &Self) -> (b: bool)
        ensures
            b == self.spec_shares_transport(*other),
    {
        match (self, other) {
            (DeviceRoute::Bolt { receiver_uid: left, .. }, DeviceRoute::Bolt { receiver_uid: right, .. }) =>
                eq_ignore_ascii_case(left.as_str(), right.as_str()),
            (DeviceRoute::Unifying { receiver_uid: left, .. }, DeviceRoute::Unifying { receiver_uid: right, .. }) =>
                eq_ignore_ascii_case(left.as_str(), right.as_str()),
            _ => false,
        }
    }

    /// The HID++ device index of this route: the pairing slot behind a
    /// receiver, the self-index otherwise.
    pub open spec fn spec_device_index(self) -> u8 {
        match self {
            DeviceRoute::Bolt { slot, .. } | DeviceRoute::Unifying { slot, .. } => slot,
            DeviceRoute::Direct { .. } | DeviceRoute::RawHid { .. } => DIRECT_DEVICE_INDEX,
        }
    }

    /// The HID++ device index features are addressed at for this route.
    pub fn device_index(&self) -> (i: u8)
        ensures
            i == self.spec_device_index(),
    {
        match self {
            DeviceRoute::Bolt { slot, .. } | DeviceRoute::Unifying { slot, .. } => *slot,
            DeviceRoute::Direct { .. } | DeviceRoute::RawHid { .. } => DIRECT_DEVICE_INDEX,
        }
    }

    /// Build the route that reaches a paired device from a receiver inventory.
    ///
    /// A receiver that speaks the Unifying protocol yields a Unifying route;
    /// any other receiver with a unique ID (known Bolt or not yet registered)
    /// yields a Bolt route; a direct device (no UID, self-index slot) yields a
    /// direct route; anything else has no route.
    pub fn device_route_for(inv: &DeviceInventory, slot: u8) -> (route: Option<Self>)
        ensures
            match inv.receiver.unique_id {
                Some(uid) => if spec_speaks_unifying(inv.receiver.product_id) {
                    route matches Some(DeviceRoute::Unifying { receiver_uid, slot: s })
                        && receiver_uid@ == uid@ && s == slot
                } else {
                    route matches Some(DeviceRoute::Bolt { receiver_uid, slot: s })
                        && receiver_uid@ == uid@ && s == slot
                },
                None => if slot == DIRECT_DEVICE_INDEX {
                    route == Some(DeviceRoute::Direct {
                        vendor_id: inv.receiver.vendor_id,
                        product_id: inv.receiver.product_id,
                    })
                } else {
                    route is None
                },
            },
    {
        match &inv.receiver.unique_id {
            Some(uid) => {
                if speaks_unifying_protocol(inv.receiver.product_id) {
                    Some(DeviceRoute::Unifying { receiver_uid: uid.clone(), slot })
                } else {
                    Some(DeviceRoute::Bolt { receiver_uid: uid.clone(), slot })
                }
            },
            None => {
                if slot == DIRECT_DEVICE_INDEX {
                    Some(DeviceRoute::Direct {
                        vendor_id: inv.receiver.vendor_id,
                        product_id: inv.receiver.product_id,
                    })
                } else {
                    None
                }
            },
        }
    }

    /// The human-readable rendering of a route used in logs and device locks.
    pub open spec fn spec_display(self) -> Seq<char> {
        match self {
            DeviceRoute::Bolt { receiver_uid, slot } | DeviceRoute::Unifying { receiver_uid, slot } =>
                "slot "@ + decimal(slot as nat) + " on receiver "@ + receiver_uid@,
            DeviceRoute::Direct { vendor_id, product_id } =>
                "direct "@ + hex4(vendor_id) + ":"@ + hex4(product_id),
            DeviceRoute::RawHid { vendor_id, product_id, usage_page, usage_id, identity } =>
                "raw "@ + hex4(vendor_id) + ":"@ + hex4(product_id) + " usage "@ + hex4(usage_page)
                    + ":"@ + hex4(usage_id) + " ("@ + identity@ + ")"@,
        }
    }

    /// Render the route as text.
    pub fn to_string(&self) -> (s: String)
        ensures
            s@ == self.spec_display(),
    {
        let mut s = String::new();
        match self {
            DeviceRoute::Bolt { receiver_uid, slot } | DeviceRoute::Unifying { receiver_uid, slot } => {
                push_str(&mut s, "slot ");
                push_decimal_u8(&mut s, *slot);
                push_str(&mut s, " on receiver ");
                push_str(&mut s, receiver_uid.as_str());
            },
            DeviceRoute::Direct { vendor_id, product_id } => {
                push_str(&mut s, "direct ");
                push_hex4(&mut s, *vendor_id);
                push_str(&mut s, ":");
                push_hex4(&mut s, *product_id);
            },
            DeviceRoute::RawHid { vendor_id, product_id, usage_page, usage_id, identity } => {
                push_str(&mut s, "raw ");
                push_hex4(&mut s, *vendor_id);
                push_str(&mut s, ":");
                push_hex4(&mut s, *product_id);
                push_str(&mut s, " usage ");
                push_hex4(&mut s, *usage_page);
                push_str(&mut s, ":");
                push_hex4(&mut s, *usage_id);
                push_str(&mut s, " (");
                push_str(&mut s, identity.as_str());
                push_str(&mut s, ")");
            },
        }
        s
    }
}

} // verus!
