//! Session controller and wire protocol for a remote music-daemon control panel.
use vstd::prelude::*;

pub mod address;
pub mod codec;
pub mod laws;
pub mod session;
pub mod view;

verus! {

} // verus!
