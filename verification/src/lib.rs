//! The verified logic of the `warcrwlock` attribute: from a model of a
//! struct, a trait, an `impl` block or a module, the code that the attribute
//! expands it into, or the refusal and its message.
pub mod names;
pub mod text;
pub mod model;
pub mod errors;
pub mod wrapper_methods;
pub mod base_methods;
pub mod implementation;
pub mod traits;
pub mod structure;
pub mod root_file;
pub mod extend;
pub mod shared;
pub mod possible_struct;
pub mod wrapper_model;
pub mod test_in_model;
pub mod test_impl;
