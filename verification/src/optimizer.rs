//! The bytecode optimization pass's decision logic. The optimizer itself
//! is an external collaborator consumed through its parse/optimize/
//! serialize contract; what is decided here is the deliberate fallback:
//! when the optimizer rejects the binary, the build carries the
//! unoptimized bytes through unchanged and records a warning rather than
//! failing.

use vstd::prelude::*;

verus! {

/// Chooses the bytes written to the output binary: the optimizer's
/// serialized result when the pass succeeded, the original bytes
/// unchanged when it failed. The second component records whether the
/// fallback was taken, so a warning can be reported.
pub fn choose_binary_output(original: Vec<u8>, optimized: Option<Vec<u8>>) -> (r: (Vec<u8>, bool))
    ensures
        optimized matches Some(o) ==> r.0@ == o@ && r.1 == false,
        optimized is None ==> r.0@ == original@ && r.1 == true,
{
    match optimized {
        Some(o) => (o, false),
        None => (original, true),
    }
}

} // verus!
