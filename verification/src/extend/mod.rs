//! The expansion in which a struct `X` becomes `XBase` behind a wrapper `X`
//! that holds `Arc<RwLock<XBase>>`, and its `impl` blocks are split between
//! the two: methods that name the type among their parameters, or carry the
//! `wrapper_method` attribute, stay on the wrapper; the others move to the
//! base type and the wrapper forwards to them through the lock.
pub mod syntax;
pub mod impls;
pub mod methods;
pub mod attributes;
pub mod structs;
pub mod module;
