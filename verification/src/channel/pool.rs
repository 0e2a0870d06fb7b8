//! The reuse decision of the shared channel pool: a route is served by an
//! already open channel of any route on the same receiver.

use vstd::prelude::*;

use crate::hid::route::DeviceRoute;

verus! {

/// Whether pooled entry `i` can serve `route`: its channel is still open
/// and its route shares the physical transport.
pub open spec fn serves(routes: Seq<DeviceRoute>, open: Seq<bool>, route: DeviceRoute, i: int) -> bool {
    open[i] && routes[i].spec_shares_transport(route)
}

/// The first pooled entry whose channel is still open and whose route
/// shares a transport with `route`; `None` when a new channel must be
/// opened. Entries whose channel has closed are never reused.
pub fn reusable_entry(routes: &[DeviceRoute], open: &[bool], route: &DeviceRoute) -> (r: Option<usize>)
    requires
        routes@.len() == open@.len(),
    ensures
        match r {
            Some(i) => i < routes@.len() && serves(routes@, open@, *route, i as int)
                && forall|j: int| 0 <= j < i ==> !#[trigger] serves(routes@, open@, *route, j),
            None => forall|j: int| 0 <= j < routes@.len() ==> !#[trigger] serves(routes@, open@, *route, j),
        },
{
    let mut i: usize = 0;
    while i < routes.len()
        invariant
            routes@.len() == open@.len(),
            i <= routes@.len(),
            forall|j: int| 0 <= j < i ==> !#[trigger] serves(routes@, open@, *route, j),
        decreases routes.len() - i,
    {
        if open[i] && routes[i].shares_transport(route) {
            return Some(i);
        }
        i += 1;
    }
    None
}

} // verus!
