use vstd::prelude::*;

verus! {

/// The interaction mode: browsing messages, or editing one.
#[derive(Clone, Copy, Debug, PartialEq, Eq, Hash, Structural)]
pub enum Mode {
    Normal,
    Edit,
}

} // verus!
