//! The synthetic-data generator's configuration. Laying files out on disk
//! belongs to the surrounding system; the core only carries the base path.

use vstd::prelude::*;

verus! {

/// Where generated cohort data is rooted.
#[derive(Debug)]
pub struct SyntheticDataGenerator {
    pub base_data_path: String,
}

impl SyntheticDataGenerator {
    pub fn new(base_data_path: String) -> (g: SyntheticDataGenerator)
        ensures
            g.base_data_path@ == base_data_path@,
    {
        SyntheticDataGenerator { base_data_path }
    }
}

} // verus!
