use vstd::prelude::*;

pub mod cnpg;
pub mod error;
pub mod kubeflow;
pub mod resources;
pub mod string_map;
pub mod validation;

verus! {

} // verus!
