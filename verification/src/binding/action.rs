//! The actions a binding can fire.

use vstd::prelude::*;

verus! {

/// An action fired by a button or gesture.
#[derive(Clone, Copy, Debug, PartialEq, Eq, Hash, Structural)]
pub enum Action {
    /// Do nothing.
    Nothing,
    /// Navigate back in the browser.
    BrowserBack,
}

} // verus!
