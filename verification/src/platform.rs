//! The kind of host that the shell runs on.

use vstd::prelude::*;

verus! {

/// The kind of host that the shell was built for.
#[derive(Clone, Copy, Debug, PartialEq, Eq, Structural)]
pub enum Platform {
    Desktop,
    Mobile,
}

} // verus!
