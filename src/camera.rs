use vstd::prelude::*;

verus! {

/// A camera that leaves coordinates as they are: its view and projection
/// are both the identity.
#[derive(Copy, Clone, Debug, PartialEq, Eq, Structural)]
pub struct NoCamera {}

impl NoCamera {
    pub fn new() -> (r: NoCamera)
        ensures
            r == (NoCamera {}),
    {
        NoCamera {}
    }
}

} // verus!
