//! Typed bindings over a managed runtime's native function table.
#![allow(non_camel_case_types)]

pub mod cstr;
pub mod env;
pub mod handle;
pub mod layout;
pub mod round_trip;

use vstd::prelude::*;

verus! {

/// A 32-bit signed integer as the runtime passes it.
pub type jint = i32;

} // verus!
