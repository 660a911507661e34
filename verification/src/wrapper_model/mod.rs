pub mod user_impls;
pub mod basic_impls;
