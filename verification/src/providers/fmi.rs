use vstd::prelude::*;

verus! {

/// The FMI (Finland) provider.
#[derive(Clone, Copy, Debug)]
pub struct FmiProvider;

impl FmiProvider {
    /// The provider's display name.
    pub fn name(&self) -> (s: &'static str)
        ensures
            s@ == "FMI (Finland)"@,
    {
        "FMI (Finland)"
    }
}

} // verus!
