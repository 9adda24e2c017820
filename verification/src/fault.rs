use vstd::prelude::*;

verus! {

/// The conditions under which an access to the modelled machine fails.
#[derive(Clone, Copy, Debug, PartialEq, Eq, Structural)]
pub enum Fault {
    /// The address names no register, or a write went to a read-only register.
    InvalidAddress,
    /// The address lies in a band that the architecture reserves but that this
    /// model does not implement.
    UnimplementedRegion,
    /// A word of an exception frame lies where it cannot be stacked or unstacked.
    StackAccessFault,
}

} // verus!
