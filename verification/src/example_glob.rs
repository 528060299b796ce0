//! Placeholder functions from the module-system example. Each does
//! nothing and returns nothing; they exist to be imported and called.

use vstd::prelude::*;

verus! {

/// Does nothing.
pub fn function_a() {
}

/// Does nothing.
pub fn function_b() {
}

/// Does nothing.
pub fn function_c() {
}

} // verus!
