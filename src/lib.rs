use vstd::prelude::*;

pub mod cache;
pub mod command;
pub mod credential;
pub mod error;
pub mod platform;
pub mod release;
pub mod resolve;
pub mod wrapper;

verus! {

} // verus!
