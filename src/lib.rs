use vstd::prelude::*;

pub mod control;
pub mod error;
pub mod protocol;
pub mod tray_client;
pub mod tray_manager;

verus! {

} // verus!
