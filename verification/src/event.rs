//! What a call site can say about its event.

use vstd::prelude::*;

verus! {

/// The identity that a call site gives its event: the provider it goes to,
/// its name and its keyword mask.
#[allow(non_camel_case_types)]
#[derive(Clone, Copy, Debug)]
pub struct meta {
    pub provider: &'static str,
    pub event_name: &'static str,
    pub keyword: u64,
}

} // verus!
