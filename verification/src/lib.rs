//! Verified core of a terminal launcher for Minecraft profiles.
use vstd::prelude::*;

pub mod cache;
pub mod components;
pub mod console_log;
pub mod launch;
pub mod logic;
pub mod profiles;
pub mod screens;
pub mod table_order;
pub mod text;
pub mod utils;

verus! {

} // verus!
