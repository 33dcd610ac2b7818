//! A constant greeting, for a host to check that it reaches the bindings.

use vstd::prelude::*;

verus! {

/// The text that [`mopro_uniffi_hello_world`] answers with.
pub const GREETING: &'static str = "Hello, World!";

/// Returns the greeting, the same on every call.
pub fn mopro_uniffi_hello_world() -> (greeting: String)
    ensures
        greeting@ == GREETING@,
{
    GREETING.to_string()
}

} // verus!
