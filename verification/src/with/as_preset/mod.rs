//! Ready-made strategies for types of other crates.

pub mod interned;
pub mod json_value;
pub mod resolver;
pub mod serde_value;
pub mod smol_string;
pub mod source;
pub mod utf8_path;

use vstd::prelude::*;

verus! {

/// Archives a value of another crate in the way that suits its type.
pub struct AsPreset;

} // verus!
