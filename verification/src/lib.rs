//! Decides whether a standard output stream is an interactive, VT100-capable
//! terminal, so a command-line tool knows whether to emit colored output.
//!
//! The crate verifies the decision logic: the four-way discrimination between
//! a native VT-capable console, a legacy console, a plain file redirection,
//! and a pseudo-console emulator pipe; the bounds-checked extraction of a pipe
//! name from a length-prefixed wide-character buffer; and the once-per-process
//! memoization of each stream's result. The operating-system queries that feed
//! these decisions are performed by the embedding program, which hands their
//! outcomes to this crate as plain values.

use vstd::prelude::*;

pub mod memo;
pub mod name_buf;
pub mod probe;

verus! {

/// One of the two standard output streams whose interactivity can be queried.
#[derive(Clone, Copy, Debug, PartialEq, Eq, Structural)]
pub enum Stream {
    Stdout,
    Stderr,
}

} // verus!
