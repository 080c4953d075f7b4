//! Scaffolding planner for a modular mobile-app source layout.
//!
//! The crate turns a parsed command (generate a feature, a subfeature, a
//! library, or write a configuration file) into a concrete plan: the set of
//! files to render, the textual edits to apply to existing registry files,
//! and the lines of the configuration file.  Every computation here is pure;
//! the thin binary around the crate performs the actual file input/output.

pub mod args_parser;
pub mod generation;
pub mod helpers;

use vstd::prelude::*;

verus! {

/// Relies on `String::push` of std: appends the given character to the end
/// of the string.
pub assume_specification[ String::push ](s: &mut String, c: char)
    ensures
        final(s)@ == old(s)@.push(c),
;

} // verus!
