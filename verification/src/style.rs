//! Visual roles of the shell's toolbar buttons.

use vstd::prelude::*;

verus! {

/// Role of a button in the shell's toolbar. The presentation layer maps each
/// role to its concrete colors; the role itself is the only part the logic
/// decides on.
#[derive(Clone, Copy, Debug, PartialEq, Eq, Structural)]
pub enum Button {
    Primary,
    Secondary,
    Destructive,
}

} // verus!
