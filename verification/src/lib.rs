//! Permission profiles of the v2 app-server protocol, their conversion to and from the
//! core permission model, and the safety assessment of file patches.
use vstd::prelude::*;

pub mod apply_patch;
pub mod path;
pub mod permissions;
pub mod protocol;
pub mod safety;
pub mod sandboxing;

verus! {
}
