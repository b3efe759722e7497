//! Validation of command-line arguments once the file system has been asked.

use vstd::prelude::*;

verus! {

/// The arguments of a run.
pub struct CliArgs {
    /// Path of the input.
    pub input: String,
    /// Interval between two runs; must be positive.
    pub interval: u64,
    /// Separator between fields of the output.
    pub separator: String,
    /// Name to report under, if not the default.
    pub custom_name: Option<String>,
}

/// What is wrong with the arguments, if anything: a missing input is
/// reported before a zero interval.
pub open spec fn complaint(input_exists: bool, interval: u64) -> Option<Seq<char>> {
    if !input_exists {
        Some("Input doesn't exist"@)
    } else if interval == 0 {
        Some("Interval must be positive"@)
    } else {
        None
    }
}

impl CliArgs {
    /// Accepts the arguments if the input exists and the interval is
    /// positive. `input_exists` is what the file system said of `input`.
    pub fn validate(&self, input_exists: bool) -> (r: Result<(), &'static str>)
        ensures
            match r {
                Ok(_) => complaint(input_exists, self.interval).is_none(),
                Err(message) => complaint(input_exists, self.interval) == Some(message@),
            },
    {
        // Naming every field here makes a new field a compile error until
        // it has been considered.
        let Self { input: _, interval, separator: _, custom_name: _ } = self;

        if !input_exists {
            return Err("Input doesn't exist");
        }
        if *interval == 0 {
            return Err("Interval must be positive");
        }
        Ok(())
    }
}

} // verus!
