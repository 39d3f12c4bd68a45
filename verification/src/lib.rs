use vstd::prelude::*;

pub mod json;
pub mod decimal;
pub mod fields;
pub mod embedded;
pub mod lists;
pub mod foreign;
pub mod google;
pub mod protocol;

verus! {

} // verus!
