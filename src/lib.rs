use vstd::prelude::*;

pub mod client;
pub mod error;
pub mod height;
pub mod text;
pub mod upgrade;
pub mod validator;

verus! {

} // verus!
