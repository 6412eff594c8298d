//! The folders that the converter remembers between runs.

use vstd::prelude::*;

verus! {

/// The folder that presets are read from and the folder that converted presets are
/// written to.
pub struct Configuration {
    pub input_directory: String,
    pub output_directory: String,
}

} // verus!
