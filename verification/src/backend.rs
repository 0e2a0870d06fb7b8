//! The vocabulary shared between the HID++ layer and the HID stack beneath
//! it: node identities, backend failures and hotplug events.

use vstd::prelude::*;

use crate::text::{lower_seq, push_str, to_ascii_lowercase};

verus! {

/// A failure raised by the HID backend beneath the HID++ channel layer:
/// either the device is gone, or anything else, carried as its message.
#[derive(Debug, Clone)]
pub enum BackendError {
    /// The device is unreachable: it vanished after being opened, or was
    /// already gone when the open was attempted.
    Disconnected,
    /// Any other backend failure, carried as its message.
    Backend(String),
}

/// The message a backend failure is shown with.
pub open spec fn backend_error_message(e: BackendError) -> Seq<char> {
    match e {
        BackendError::Disconnected => "the HID device is not connected"@,
        BackendError::Backend(message) => message@,
    }
}

impl BackendError {
    /// The human-readable message of this failure.
    pub fn to_string(&self) -> (s: String)
        ensures
            s@ == backend_error_message(*self),
    {
        match self {
            BackendError::Disconnected => {
                let mut s = String::new();
                push_str(&mut s, "the HID device is not connected");
                s
            },
            BackendError::Backend(message) => message.clone(),
        }
    }
}

/// A HID node appeared on or vanished from the OS device tree.
#[derive(Debug, Clone, Copy, PartialEq, Eq, Structural)]
pub enum HotplugEvent {
    /// A device node was connected.
    Connected,
    /// A device node was disconnected.
    Disconnected,
}

/// Opaque identity of one HID node, as the backend that enumerated it names
/// it. Distinct per OS device node while that node exists; never persisted.
#[derive(Clone, Debug, PartialEq, Eq, Hash)]
pub struct NodeId(String);

impl View for NodeId {
    type V = Seq<char>;

    /// The backend's text for this node.
    closed spec fn view(&self) -> Seq<char> {
        self.0@
    }
}

impl From<String> for NodeId {
    fn from(id: String) -> (n: Self)
        ensures
            n@ == id@,
    {
        NodeId(id)
    }
}

impl vstd::std_specs::convert::FromSpecImpl<String> for NodeId {
    open spec fn obeys_from_spec() -> bool {
        true
    }

    closed spec fn from_spec(v: String) -> NodeId {
        NodeId(v)
    }
}

impl NodeId {
    /// Whether two ids name the same node.
    pub fn same_as(&self, other: &NodeId) -> (b: bool)
        ensures
            b == (self@ == other@),
    {
        self.0 == other.0
    }

    /// A copy of this id.
    pub fn copy(&self) -> (c: NodeId)
        ensures
            c@ == self@,
    {
        NodeId(self.0.clone())
    }

    /// The backend's text for this node.
    pub fn as_str(&self) -> (s: &str)
        ensures
            s@ == self@,
    {
        self.0.as_str()
    }
}

/// One HID node as the backend reports it, before anything is opened.
#[derive(Clone, Debug)]
pub struct NodeInfo {
    /// Backend-assigned identity of this node.
    pub id: NodeId,
    /// HID vendor id of the device's manufacturer.
    pub vendor_id: u16,
    /// HID product id.
    pub product_id: u16,
    /// HID usage page of this node's top-level collection.
    pub usage_page: u16,
    /// HID usage id of this node's top-level collection.
    pub usage_id: u16,
    /// Human-readable device name.
    pub name: String,
    /// Human-readable manufacturer, when the backend reports one.
    pub manufacturer: Option<String>,
    /// Device serial number, when the device has one and the backend can
    /// read it.
    pub serial_number: Option<String>,
}

/// The identity of a node with serial `serial` and backend id `id`: the
/// lower-cased serial when there is a non-empty one, else the backend id.
pub open spec fn node_identity(serial: Option<String>, id: Seq<char>) -> Seq<char> {
    match serial {
        Some(s) if s@.len() > 0 => "serial:"@ + lower_seq(s@),
        _ => "id:"@ + id,
    }
}

impl NodeInfo {
    /// Stable opaque identity used by raw-device routes: the HID serial when
    /// there is one, else the backend's node id as a runtime identity.
    pub fn identity(&self) -> (s: String)
        ensures
            s@ == node_identity(self.serial_number, self.id@),
    {
        let mut s = String::new();
        match &self.serial_number {
            Some(serial) if serial.as_str().unicode_len() > 0 => {
                push_str(&mut s, "serial:");
                let lower = to_ascii_lowercase(serial.as_str());
                push_str(&mut s, lower.as_str());
            },
            _ => {
                push_str(&mut s, "id:");
                push_str(&mut s, self.id.as_str());
            },
        }
        s
    }
}

} // verus!
