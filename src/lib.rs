use vstd::prelude::*;

pub mod container_spec;
pub mod error;
pub mod lifecycle;
pub mod line_buffer;
pub mod ports;
pub mod settings;
pub mod stop_future;
pub mod text;
pub mod verification;

verus! {

} // verus!
