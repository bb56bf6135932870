//! Where a design's files go: one directory per run, named after the time
//! the run started.

use vstd::prelude::*;
use crate::text::{decimal, push_decimal};

verus! {

/// The name of the output directory of a run that started `seconds` after
/// the Unix epoch, or at an unknown time (a clock set before the epoch),
/// which counts as 0.
pub open spec fn output_dir_name_spec(seconds: Option<u64>) -> Seq<char> {
    "conveyor_"@ + decimal(
        match seconds {
            Some(s) => s as nat,
            None => 0,
        },
    )
}

/// The name of the output directory of a run, such as `conveyor_1700000000`.
pub fn output_dir_name(seconds: Option<u64>) -> (name: String)
    ensures
        name@ == output_dir_name_spec(seconds),
{
    let secs: u64 = match seconds {
        Some(s) => s,
        None => 0,
    };
    let mut name = String::from_str("conveyor_");
    push_decimal(&mut name, secs);
    name
}

} // verus!
