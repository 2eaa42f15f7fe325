use vstd::prelude::*;

verus! {

/// The Meteostat provider.
#[derive(Clone, Copy, Debug)]
pub struct MeteostatProvider;

impl MeteostatProvider {
    /// The provider's display name.
    pub fn name(&self) -> (s: &'static str)
        ensures
            s@ == "Meteostat"@,
    {
        "Meteostat"
    }
}

} // verus!
