//! The names that most users of the library need.
pub use crate::context::{Meles, MelesMatShellContext, Opt};
pub use crate::error::Error;
pub use crate::MethodType;
