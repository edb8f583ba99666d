use vstd::prelude::*;

pub mod ap;
pub mod charclass;
pub mod db;
pub mod feed;
pub mod httpsig;
pub mod markup;
pub mod session;
pub mod signature;
pub mod text;
pub mod web;

verus! {

} // verus!
