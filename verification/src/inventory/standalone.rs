//! Discovery of standalone raw-HID devices, such as Litra lights.
//!
//! A raw device has no HID++ pairing slot: it is routed by its full HID
//! identity tuple, and two nodes the tuple cannot tell apart are refused.

use vstd::prelude::*;

use crate::backend::{node_identity, BackendError, NodeInfo};
use crate::device::LightCapabilities;
use crate::registry::{find_litra, litra_registry_model_id, spec_litra_model, LITRA_DRIVER_ID};
use crate::text::{has_prefix, starts_with};
use crate::write::litra::{is_litra_brightness, is_litra_temperature, litra_capabilities};

verus! {

/// Why an inventory pass failed.
#[derive(Debug, Clone)]
pub enum InventoryError {
    /// The HID backend failed.
    Backend(BackendError),
    /// Several raw-HID nodes share one route and cannot be told apart.
    AmbiguousRawDevice,
}

/// The full HID identity a raw device is routed by.
#[derive(Debug, Clone)]
pub struct RawDeviceAddress {
    /// HID vendor ID.
    pub vendor_id: u16,
    /// HID product ID.
    pub product_id: u16,
    /// HID usage page.
    pub usage_page: u16,
    /// HID usage ID.
    pub usage_id: u16,
    /// `serial:<serial>` when the device has a serial, else the transient
    /// `id:<node>`.
    pub identity: String,
}

/// A recognized standalone device.
#[derive(Debug, Clone)]
pub struct StandaloneDevice {
    /// Where the device is reached.
    pub address: RawDeviceAddress,
    /// Human-readable name.
    pub display_name: String,
    /// Manufacturer, when reported.
    pub manufacturer: Option<String>,
    /// Serial number, when reported.
    pub serial_number: Option<String>,
    /// HID++ unit ID; raw devices have none and report zeros.
    pub unit_id: [u8; 4],
    /// Whether the device is online.
    pub online: bool,
    /// The light controls the device offers.
    pub light_capabilities: Option<LightCapabilities>,
    /// Standalone-driver family identifier.
    pub driver_id: String,
    /// Asset-registry model identifier.
    pub registry_model_id: Option<String>,
}

/// Whether two addresses share the HID tuple (vendor, product, usage page,
/// usage).
pub open spec fn same_tuple(a: RawDeviceAddress, b: RawDeviceAddress) -> bool {
    a.vendor_id == b.vendor_id && a.product_id == b.product_id && a.usage_page == b.usage_page && a.usage_id == b.usage_id
}

/// Whether an identity is backed by a device serial.
pub open spec fn serial_backed(identity: Seq<char>) -> bool {
    has_prefix(identity, "serial:"@)
}

/// Whether two devices sharing a HID tuple cannot be told apart: their
/// identities coincide, or either is only a transient node identity.
pub open spec fn indistinguishable(a: RawDeviceAddress, b: RawDeviceAddress) -> bool {
    same_tuple(a, b) && (a.identity@ == b.identity@ || !serial_backed(a.identity@) || !serial_backed(b.identity@))
}

/// Whether some two of `devices` cannot be told apart.
pub open spec fn ambiguous(devices: Seq<StandaloneDevice>) -> bool {
    exists|i: int, j: int| 0 <= i < j < devices.len() && indistinguishable(#[trigger] devices[i].address, #[trigger] devices[j].address)
}

/// Reject nodes the route cannot distinguish. Two serial-backed nodes stay
/// distinguishable even when identical lights share a HID tuple; an OS-node
/// identity is only a transient re-find hint, so it cannot separate two
/// nodes with the same tuple.
pub fn validate_no_ambiguous_nodes(devices: &[StandaloneDevice]) -> (r: Result<(), InventoryError>)
    ensures
        r is Err <==> ambiguous(devices@),
        r matches Err(e) ==> e is AmbiguousRawDevice,
{
    let n = devices.len();
    let mut i: usize = 0;
    while i < n
        invariant
            n == devices@.len(),
            i <= n,
            forall|a: int, b: int| 0 <= a < i && a < b < n ==> !indistinguishable(#[trigger] devices@[a].address, #[trigger] devices@[b].address),
        decreases n - i,
    {
        let mut j: usize = i + 1;
        while j < n
            invariant
                n == devices@.len(),
                i < n,
                i + 1 <= j <= n,
                forall|a: int, b: int| 0 <= a < i && a < b < n ==> !indistinguishable(#[trigger] devices@[a].address, #[trigger] devices@[b].address),
                forall|b: int| i < b < j ==> !indistinguishable(devices@[i as int].address, #[trigger] devices@[b].address),
            decreases n - j,
        {
            if indistinguishable_exec(&devices[i].address, &devices[j].address) {
                return Err(InventoryError::AmbiguousRawDevice);
            }
            j += 1;
        }
        i += 1;
    }
    Ok(())
}

fn indistinguishable_exec(a: &RawDeviceAddress, b: &RawDeviceAddress) -> (r: bool)
    ensures
        r == indistinguishable(*a, *b),
{
    let same = a.vendor_id == b.vendor_id && a.product_id == b.product_id && a.usage_page == b.usage_page && a.usage_id == b.usage_id;
    if !same {
        return false;
    }
    a.identity.eq(&b.identity) || !starts_with(a.identity.as_str(), "serial:") || !starts_with(b.identity.as_str(), "serial:")
}

/// The standalone device a HID node is, when it is a recognized Litra:
/// addressed by its HID tuple and identity, online, with the model's light
/// capabilities and registry identifiers.
pub fn standalone_device(node: &NodeInfo) -> (d: Option<StandaloneDevice>)
    ensures
        d is Some <==> spec_litra_model(node.vendor_id, node.product_id, node.usage_page, node.usage_id) is Some,
        d matches Some(dev) ==> describes(dev, *node),
{
    let descriptor = match find_litra(node.vendor_id, node.product_id, node.usage_page, node.usage_id) {
        Some(d) => d,
        None => return None,
    };
    let identity = node.identity();
    let unit_id: [u8; 4] = [0, 0, 0, 0];
    assert(unit_id@ =~= seq![0u8, 0u8, 0u8, 0u8]);
    Some(StandaloneDevice {
        address: RawDeviceAddress {
            vendor_id: node.vendor_id,
            product_id: node.product_id,
            usage_page: node.usage_page,
            usage_id: node.usage_id,
            identity,
        },
        display_name: node.name.clone(),
        manufacturer: copy_text(&node.manufacturer),
        serial_number: copy_text(&node.serial_number),
        unit_id,
        online: true,
        light_capabilities: Some(litra_capabilities(descriptor.model)),
        driver_id: descriptor.driver_id.to_string(),
        registry_model_id: Some(descriptor.registry_model_id.to_string()),
    })
}

/// Whether `dev` is the standalone device that the Litra node `node` is:
/// addressed by its HID tuple and identity, online, with the model's light
/// capabilities and registry identifiers.
pub open spec fn describes(dev: StandaloneDevice, node: NodeInfo) -> bool {
    &&& dev.address.vendor_id == node.vendor_id && dev.address.product_id == node.product_id
    &&& dev.address.usage_page == node.usage_page && dev.address.usage_id == node.usage_id
    &&& dev.address.identity@ == node_identity(node.serial_number, node.id@)
    &&& dev.display_name@ == node.name@
    &&& dev.manufacturer == node.manufacturer
    &&& dev.serial_number == node.serial_number
    &&& dev.unit_id@ == seq![0u8, 0u8, 0u8, 0u8]
    &&& dev.online
    &&& dev.light_capabilities matches Some(c) && (c.power && !c.color && !c.zones
        && (c.brightness matches Some(b) && is_litra_brightness(b))
        && (c.temperature matches Some(t) && is_litra_temperature(t)))
    &&& dev.driver_id@ == LITRA_DRIVER_ID@
    &&& dev.registry_model_id matches Some(m) && m@ == litra_registry_model_id(
            spec_litra_model(node.vendor_id, node.product_id, node.usage_page, node.usage_id)->0)
}

/// Whether a HID node is a recognized Litra.
pub open spec fn is_litra_node(node: NodeInfo) -> bool {
    spec_litra_model(node.vendor_id, node.product_id, node.usage_page, node.usage_id) is Some
}

/// The standalone devices among `nodes`, in order, provided no two of them
/// are indistinguishable: the computation behind a standalone enumeration,
/// on the nodes the backend enumerated.
pub fn standalone_devices(nodes: &[NodeInfo]) -> (r: Result<Vec<StandaloneDevice>, InventoryError>)
    ensures
        ({
            let litras = nodes@.filter(|n: NodeInfo| is_litra_node(n));
            match r {
                Ok(v) => v@.len() == litras.len() && !ambiguous(v@)
                    && forall|k: int| 0 <= k < v@.len() ==> describes(#[trigger] v@[k], litras[k]),
                Err(e) => e is AmbiguousRawDevice,
            }
        }),
        r is Err ==> exists|v: Seq<StandaloneDevice>| v.len() == nodes@.filter(|n: NodeInfo| is_litra_node(n)).len()
            && (forall|k: int| 0 <= k < v.len() ==> describes(#[trigger] v[k], nodes@.filter(|n: NodeInfo| is_litra_node(n))[k]))
            && ambiguous(v),
{
    let ghost pred = |n: NodeInfo| is_litra_node(n);
    let mut devices: Vec<StandaloneDevice> = Vec::new();
    let mut i: usize = 0;
    while i < nodes.len()
        invariant
            i <= nodes.len(),
            pred == (|n: NodeInfo| is_litra_node(n)),
            devices@.len() == nodes@.take(i as int).filter(pred).len(),
            forall|k: int| 0 <= k < devices@.len() ==> describes(#[trigger] devices@[k], nodes@.take(i as int).filter(pred)[k]),
        decreases nodes.len() - i,
    {
        proof {
            reveal(Seq::filter);
            assert(nodes@.take(i + 1).drop_last() =~= nodes@.take(i as int));
            assert(nodes@.take(i + 1).last() == nodes@[i as int]);
        }
        match standalone_device(&nodes[i]) {
            Some(d) => {
                devices.push(d);
            },
            None => {},
        }
        i += 1;
    }
    proof {
        assert(nodes@.take(nodes@.len() as int) =~= nodes@);
    }
    match validate_no_ambiguous_nodes(devices.as_slice()) {
        Ok(()) => Ok(devices),
        Err(e) => Err(e),
    }
}

/// A copy of an optional text.
fn copy_text(text: &Option<String>) -> (c: Option<String>)
    ensures
        c == *text,
{
    match text {
        Some(t) => Some(t.clone()),
        None => None,
    }
}

} // verus!
