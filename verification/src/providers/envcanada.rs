use vstd::prelude::*;

verus! {

/// The Environment Canada provider.
#[derive(Clone, Copy, Debug)]
pub struct EnvCanadaProvider;

impl EnvCanadaProvider {
    /// The provider's display name.
    pub fn name(&self) -> (s: &'static str)
        ensures
            s@ == "Environment Canada"@,
    {
        "Environment Canada"
    }
}

} // verus!
