//! Integration shim for driving the Sorbet language server from a code
//! editor: resolves the server executable (honouring user overrides) and
//! renders symbols and completion items into presentation-ready labels.

use vstd::prelude::*;

pub mod labels;
pub mod resolve;

verus! {

/// The stateless extension. Every entry point is a pure function of its
/// arguments; the host supplies settings, search results and the process
/// environment as plain values.
pub struct SorbetExtension;

impl SorbetExtension {
    pub fn new() -> SorbetExtension {
        SorbetExtension
    }
}

} // verus!
