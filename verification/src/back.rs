pub mod env;
pub mod eval;
pub mod runtime_error;
