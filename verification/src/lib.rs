use vstd::prelude::*;

pub mod text;
pub mod command;
pub mod room;
pub mod registry;
pub mod broker;
pub mod session;

verus! {

} // verus!
