//! Receiver pairing: decoding of the notifications a Bolt or Unifying
//! receiver emits while it discovers and pairs devices.

pub mod notification;

use vstd::prelude::*;

use crate::hid::pairing::Click;
use crate::registry::{find_receiver, spec_find_receiver, ReceiverProtocol, LOGITECH_VENDOR_ID};

verus! {

/// The register protocol a pairing session speaks to a receiver.
#[derive(Clone, Copy, Debug, PartialEq, Eq, Structural)]
pub enum ReceiverFamily {
    /// Logi Bolt registers and pairing flow.
    Bolt,
    /// Unifying-compatible registers and pairing flow.
    Unifying,
}

/// The pairing family of a Logitech receiver product, as the shared
/// receiver registry records its protocol; unknown products have none.
pub fn family_for(product_id: u16) -> (f: Option<ReceiverFamily>)
    ensures
        f == (match spec_find_receiver(LOGITECH_VENDOR_ID, product_id) {
            Some(d) => Some(match d.protocol {
                ReceiverProtocol::Bolt => ReceiverFamily::Bolt,
                ReceiverProtocol::Unifying => ReceiverFamily::Unifying,
            }),
            None => None,
        }),
{
    match find_receiver(LOGITECH_VENDOR_ID, product_id) {
        Some(d) => Some(match d.protocol {
            ReceiverProtocol::Bolt => ReceiverFamily::Bolt,
            ReceiverProtocol::Unifying => ReceiverFamily::Unifying,
        }),
        None => None,
    }
}

/// The click for bit `i` (from the most significant of ten) of a passkey:
/// right for a one, left for a zero.
pub open spec fn passkey_click(passkey: u32, i: int) -> Click {
    if (passkey as int / pow2_int(9 - i)) % 2 == 1 { Click::Right } else { Click::Left }
}

/// `2` to the power `n`.
pub open spec fn pow2_int(n: int) -> int
    decreases n,
{
    if n <= 0 { 1 } else { 2 * pow2_int(n - 1) }
}

/// The pointer click sequence for a passkey: its low ten bits, most
/// significant first, a one as a right click and a zero as a left click.
pub fn passkey_to_clicks(passkey: u32) -> (clicks: Vec<Click>)
    ensures
        clicks@.len() == 10,
        forall|i: int| 0 <= i < 10 ==> #[trigger] clicks@[i] == passkey_click(passkey, i),
{
    let mut clicks: Vec<Click> = Vec::new();
    let mut shift: u32 = 10;
    let mut divisor: u32 = 512;
    assert(pow2_int(9) == 512) by {
        reveal_with_fuel(pow2_int, 10);
    }
    while shift > 0
        invariant
            shift <= 10,
            clicks@.len() == 10 - shift,
            shift > 0 ==> divisor == pow2_int(shift - 1),
            forall|i: int| 0 <= i < clicks@.len() ==> #[trigger] clicks@[i] == passkey_click(passkey, i),
        decreases shift,
    {
        proof {
            reveal_with_fuel(pow2_int, 10);
        }
        let bit = (passkey / divisor) % 2;
        let ghost i = clicks@.len() as int;
        assert(9 - i == shift - 1);
        clicks.push(if bit == 1 { Click::Right } else { Click::Left });
        shift = shift - 1;
        if shift > 0 {
            divisor = divisor / 2;
            assert(pow2_int(shift as int) == 2 * pow2_int(shift - 1));
        }
    }
    clicks
}

} // verus!
