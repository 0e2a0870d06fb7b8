//! Hardware identities: Logitech receivers and Litra raw-HID lights.

use vstd::prelude::*;

verus! {

/// Logitech's USB/Bluetooth vendor ID.
pub const LOGITECH_VENDOR_ID: u16 = 0x046d;

/// Stable driver-family identifier carried by standalone Litra inventory.
pub const LITRA_DRIVER_ID: &'static str = "litra";
/// Litra Glow product ID.
pub const LITRA_GLOW_PRODUCT_ID: u16 = 0xc900;
/// Litra Beam product ID.
pub const LITRA_BEAM_PRODUCT_ID: u16 = 0xc901;
/// Litra vendor usage page.
pub const LITRA_USAGE_PAGE: u16 = 0xff43;
/// Litra vendor usage ID.
pub const LITRA_USAGE_ID: u16 = 0x0202;

/// Logitech receiver product family, independent of its wire protocol.
#[derive(Clone, Copy, Debug, PartialEq, Eq, Structural)]
pub enum ReceiverBrand {
    /// Logi Bolt receiver.
    Bolt,
    /// Logitech Unifying receiver.
    Unifying,
    /// Logitech Nano receiver.
    Nano,
    /// Logitech Lightspeed receiver.
    Lightspeed,
}

/// Receiver protocol implementation used to enumerate and address devices.
#[derive(Clone, Copy, Debug, PartialEq, Eq, Structural)]
pub enum ReceiverProtocol {
    /// Logi Bolt receiver registers and pairing flow.
    Bolt,
    /// HID++ 1.0 Unifying-compatible receiver registers and pairing flow.
    Unifying,
}

/// A known receiver's USB identity and the behavior assigned to it.
#[derive(Clone, Copy, Debug, PartialEq, Eq, Structural)]
pub struct ReceiverDescriptor {
    /// USB vendor ID.
    pub vendor_id: u16,
    /// USB product ID.
    pub product_id: u16,
    /// Receiver's marketed product family.
    pub brand: ReceiverBrand,
    /// Protocol implementation used for receiver operations.
    pub protocol: ReceiverProtocol,
}

impl ReceiverDescriptor {
    /// A Logitech receiver entry.
    pub open spec fn logitech_spec(product_id: u16, brand: ReceiverBrand, protocol: ReceiverProtocol) -> Self {
        ReceiverDescriptor { vendor_id: LOGITECH_VENDOR_ID, product_id, brand, protocol }
    }

    fn logitech(product_id: u16, brand: ReceiverBrand, protocol: ReceiverProtocol) -> (d: Self)
        ensures
            d == Self::logitech_spec(product_id, brand, protocol),
    {
        ReceiverDescriptor { vendor_id: LOGITECH_VENDOR_ID, product_id, brand, protocol }
    }
}

/// Every supported receiver identity, in table order.
pub open spec fn receiver_table() -> Seq<ReceiverDescriptor> {
    seq![
        ReceiverDescriptor::logitech_spec(0xc52b, ReceiverBrand::Unifying, ReceiverProtocol::Unifying),
        ReceiverDescriptor::logitech_spec(0xc532, ReceiverBrand::Unifying, ReceiverProtocol::Unifying),
        ReceiverDescriptor::logitech_spec(0xc537, ReceiverBrand::Nano, ReceiverProtocol::Unifying),
        ReceiverDescriptor::logitech_spec(0xc539, ReceiverBrand::Lightspeed, ReceiverProtocol::Unifying),
        ReceiverDescriptor::logitech_spec(0xc53f, ReceiverBrand::Lightspeed, ReceiverProtocol::Unifying),
        ReceiverDescriptor::logitech_spec(0xc547, ReceiverBrand::Lightspeed, ReceiverProtocol::Unifying),
        ReceiverDescriptor::logitech_spec(0xc548, ReceiverBrand::Bolt, ReceiverProtocol::Bolt),
        ReceiverDescriptor::logitech_spec(0xc54d, ReceiverBrand::Lightspeed, ReceiverProtocol::Unifying),
    ]
}

/// All receiver identities supported, in table order.
///
/// Each entry is a protocol claim; Nano and Lightspeed receivers use the
/// Unifying protocol.
pub fn receivers() -> (table: Vec<ReceiverDescriptor>)
    ensures
        table@ == receiver_table(),
{
    let table = vec![
        ReceiverDescriptor::logitech(0xc52b, ReceiverBrand::Unifying, ReceiverProtocol::Unifying),
        ReceiverDescriptor::logitech(0xc532, ReceiverBrand::Unifying, ReceiverProtocol::Unifying),
        ReceiverDescriptor::logitech(0xc537, ReceiverBrand::Nano, ReceiverProtocol::Unifying),
        ReceiverDescriptor::logitech(0xc539, ReceiverBrand::Lightspeed, ReceiverProtocol::Unifying),
        ReceiverDescriptor::logitech(0xc53f, ReceiverBrand::Lightspeed, ReceiverProtocol::Unifying),
        ReceiverDescriptor::logitech(0xc547, ReceiverBrand::Lightspeed, ReceiverProtocol::Unifying),
        ReceiverDescriptor::logitech(0xc548, ReceiverBrand::Bolt, ReceiverProtocol::Bolt),
        ReceiverDescriptor::logitech(0xc54d, ReceiverBrand::Lightspeed, ReceiverProtocol::Unifying),
    ];
    assert(table@ =~= receiver_table());
    table
}

/// The first entry of `table` with the given identity.
pub open spec fn first_receiver(table: Seq<ReceiverDescriptor>, vendor_id: u16, product_id: u16) -> Option<ReceiverDescriptor>
    decreases table.len(),
{
    if table.len() == 0 {
        None
    } else if table[0].vendor_id == vendor_id && table[0].product_id == product_id {
        Some(table[0])
    } else {
        first_receiver(table.drop_first(), vendor_id, product_id)
    }
}

/// The receiver entry for an exact USB identity, if the table has one.
pub open spec fn spec_find_receiver(vendor_id: u16, product_id: u16) -> Option<ReceiverDescriptor> {
    first_receiver(receiver_table(), vendor_id, product_id)
}

/// A lookup in `table` finds an entry exactly when one matches, and the entry
/// it finds carries the requested identity.
pub proof fn lemma_first_receiver(table: Seq<ReceiverDescriptor>, vendor_id: u16, product_id: u16)
    ensures
        first_receiver(table, vendor_id, product_id) is Some <==> exists|i: int|
            0 <= i < table.len() && table[i].vendor_id == vendor_id && table[i].product_id == product_id,
        first_receiver(table, vendor_id, product_id) matches Some(d) ==>
            d.vendor_id == vendor_id && d.product_id == product_id && table.contains(d),
    decreases table.len(),
{
    if table.len() > 0 {
        lemma_first_receiver(table.drop_first(), vendor_id, product_id);
        if table[0].vendor_id == vendor_id && table[0].product_id == product_id {
            assert(table.contains(table[0]));
        } else {
            assert forall|i: int|
                0 <= i < table.len() && table[i].vendor_id == vendor_id && table[i].product_id == product_id
                implies exists|j: int| 0 <= j < table.drop_first().len()
                    && table.drop_first()[j].vendor_id == vendor_id
                    && table.drop_first()[j].product_id == product_id by {
                assert(table.drop_first()[i - 1] == table[i]);
            }
            if first_receiver(table.drop_first(), vendor_id, product_id) is Some {
                let d = first_receiver(table.drop_first(), vendor_id, product_id)->0;
                let j = choose|j: int| 0 <= j < table.drop_first().len() && table.drop_first()[j] == d;
                assert(table[j + 1] == d);
            }
        }
    }
}

/// A receiver's protocol follows its brand: every Logi Bolt receiver speaks
/// the Bolt protocol, and every other receiver (Unifying, Nano, Lightspeed)
/// the Unifying protocol, whatever identity it is looked up by.
pub proof fn lemma_protocol_follows_brand(vendor_id: u16, product_id: u16)
    ensures
        spec_find_receiver(vendor_id, product_id) matches Some(d) ==> (d.brand == ReceiverBrand::Bolt
            <==> d.protocol == ReceiverProtocol::Bolt),
{
    lemma_first_receiver(receiver_table(), vendor_id, product_id);
    if spec_find_receiver(vendor_id, product_id) is Some {
        let d = spec_find_receiver(vendor_id, product_id)->0;
        let t = receiver_table();
        let i = choose|i: int| 0 <= i < t.len() && t[i] == d;
        assert(0 <= i < 8);
        assert(i == 0 || i == 1 || i == 2 || i == 3 || i == 4 || i == 5 || i == 6 || i == 7);
    }
}

/// The Logi Bolt receiver (USB `046d:c548`) is known, as a Bolt receiver
/// speaking the Bolt protocol.
pub proof fn lemma_bolt_receiver()
    ensures
        spec_find_receiver(LOGITECH_VENDOR_ID, 0xc548) == Some(ReceiverDescriptor {
            vendor_id: 0x046d,
            product_id: 0xc548,
            brand: ReceiverBrand::Bolt,
            protocol: ReceiverProtocol::Bolt,
        }),
{
    reveal_with_fuel(first_receiver, 8);
}

/// Finds the descriptor for an exact USB vendor/product identity.
pub fn find_receiver(vendor_id: u16, product_id: u16) -> (found: Option<ReceiverDescriptor>)
    ensures
        found == spec_find_receiver(vendor_id, product_id),
{
    let table = receivers();
    assert(table@.skip(0) =~= table@);
    let mut i: usize = 0;
    while i < table.len()
        invariant
            table@ == receiver_table(),
            i <= table@.len(),
            spec_find_receiver(vendor_id, product_id) == first_receiver(table@.skip(i as int), vendor_id, product_id),
        decreases table@.len() - i,
    {
        let entry = table[i];
        assert(table@.skip(i as int)[0] == entry);
        if entry.vendor_id == vendor_id && entry.product_id == product_id {
            return Some(entry);
        }
        assert(table@.skip(i as int).drop_first() =~= table@.skip(i + 1));
        i = i + 1;
    }
    None
}

/// A supported Litra product model.
#[derive(Debug, Clone, Copy, PartialEq, Eq, Structural)]
pub enum LitraModel {
    /// Logitech Litra Glow.
    Glow,
    /// Logitech Litra Beam.
    Beam,
}

/// A known Litra raw-HID identity and its static product metadata.
#[derive(Debug, Clone, Copy)]
pub struct LitraDescriptor {
    /// USB vendor ID.
    pub vendor_id: u16,
    /// USB product ID.
    pub product_id: u16,
    /// HID usage page of the writable vendor collection.
    pub usage_page: u16,
    /// HID usage ID of the writable vendor collection.
    pub usage_id: u16,
    /// Product model selected by this identity.
    pub model: LitraModel,
    /// Stable standalone-driver family identifier.
    pub driver_id: &'static str,
    /// Exact model identifier used by the asset registry.
    pub registry_model_id: &'static str,
}

/// Whether a raw-HID identity is exactly the one a Litra product advertises,
/// and if so which model.
pub open spec fn spec_litra_model(vendor_id: u16, product_id: u16, usage_page: u16, usage_id: u16) -> Option<LitraModel> {
    if vendor_id == LOGITECH_VENDOR_ID && usage_page == LITRA_USAGE_PAGE && usage_id == LITRA_USAGE_ID {
        if product_id == LITRA_GLOW_PRODUCT_ID {
            Some(LitraModel::Glow)
        } else if product_id == LITRA_BEAM_PRODUCT_ID {
            Some(LitraModel::Beam)
        } else {
            None
        }
    } else {
        None
    }
}

/// The asset-registry model identifier of each Litra model.
pub open spec fn litra_registry_model_id(model: LitraModel) -> Seq<char> {
    match model {
        LitraModel::Glow => "8c900"@,
        LitraModel::Beam => "8c901"@,
    }
}

/// Finds a Litra descriptor by its complete writable raw-HID identity.
pub fn find_litra(vendor_id: u16, product_id: u16, usage_page: u16, usage_id: u16) -> (found: Option<LitraDescriptor>)
    ensures
        found is Some <==> spec_litra_model(vendor_id, product_id, usage_page, usage_id) is Some,
        found matches Some(d) ==> {
            &&& Some(d.model) == spec_litra_model(vendor_id, product_id, usage_page, usage_id)
            &&& d.vendor_id == vendor_id && d.product_id == product_id
            &&& d.usage_page == usage_page && d.usage_id == usage_id
            &&& d.driver_id@ == LITRA_DRIVER_ID@
            &&& d.registry_model_id@ == litra_registry_model_id(d.model)
        },
{
    if vendor_id != LOGITECH_VENDOR_ID || usage_page != LITRA_USAGE_PAGE || usage_id != LITRA_USAGE_ID {
        return None;
    }
    if product_id == LITRA_GLOW_PRODUCT_ID {
        Some(LitraDescriptor {
            vendor_id,
            product_id,
            usage_page,
            usage_id,
            model: LitraModel::Glow,
            driver_id: LITRA_DRIVER_ID,
            registry_model_id: "8c900",
        })
    } else if product_id == LITRA_BEAM_PRODUCT_ID {
        Some(LitraDescriptor {
            vendor_id,
            product_id,
            usage_page,
            usage_id,
            model: LitraModel::Beam,
            driver_id: LITRA_DRIVER_ID,
            registry_model_id: "8c901",
        })
    } else {
        None
    }
}

/// The Litra identities this library drives, with their metadata: exactly
/// the descriptors [`find_litra`] returns, one per model.
pub fn litra_devices() -> (table: Vec<LitraDescriptor>)
    ensures
        table@.len() == 2,
        forall|i: int| 0 <= i < table@.len() ==> {
            let d = #[trigger] table@[i];
            &&& spec_litra_model(d.vendor_id, d.product_id, d.usage_page, d.usage_id) == Some(d.model)
            &&& d.driver_id@ == LITRA_DRIVER_ID@
            &&& d.registry_model_id@ == litra_registry_model_id(d.model)
        },
        forall|i: int, j: int| 0 <= i < j < table@.len() ==> (#[trigger] table@[i]).product_id != (#[trigger] table@[j]).product_id,
{
    let mut table: Vec<LitraDescriptor> = Vec::new();
    match find_litra(LOGITECH_VENDOR_ID, LITRA_GLOW_PRODUCT_ID, LITRA_USAGE_PAGE, LITRA_USAGE_ID) {
        Some(d) => table.push(d),
        None => {},
    }
    match find_litra(LOGITECH_VENDOR_ID, LITRA_BEAM_PRODUCT_ID, LITRA_USAGE_PAGE, LITRA_USAGE_ID) {
        Some(d) => table.push(d),
        None => {},
    }
    table
}

/// Whether an HID descriptor identifies a supported Litra interface.
pub fn matches_litra(vendor_id: u16, product_id: u16, usage_page: u16, usage_id: u16) -> (m: bool)
    ensures
        m == (spec_litra_model(vendor_id, product_id, usage_page, usage_id) is Some),
{
    find_litra(vendor_id, product_id, usage_page, usage_id).is_some()
}

} // verus!
