use vstd::prelude::*;

verus! {

/// Generation parameters handed into every request, unchanged.
///
/// The sampling temperature is kept as the bit pattern of its IEEE-754 single
/// precision value, so that it travels through the library untouched.
#[derive(Clone, Copy, Debug, PartialEq, Eq)]
pub struct CompletionOptions {
    pub max_decoding_tokens: i32,
    pub sampling_temperature_bits: u32,
}

} // verus!
