use vstd::prelude::*;

pub mod text;
pub mod error;
pub mod pow;
pub mod work;
pub mod network;
pub mod chain;
pub mod client;
pub mod api;
pub mod messages;

verus! {

} // verus!
