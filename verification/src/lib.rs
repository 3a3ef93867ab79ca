//! Verified decisions behind calling named OCaml closures from Rust.
//!
//! The OCaml runtime itself (registered values, heap headers, callbacks) is
//! reached through raw pointers and stays outside this crate; what is decided
//! about the values it hands back is stated and proved here.
use vstd::prelude::*;

pub mod callback;
pub mod closure;

verus! {

/// Entry point of the bundled program; the bundle itself has nothing to do on start.
pub fn run_main() {
}

} // verus!
