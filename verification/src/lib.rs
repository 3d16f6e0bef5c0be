//! Error-chaining helpers: error containers that pair a discriminated error
//! kind with an optional causal predecessor and a captured backtrace, result
//! combinators that wrap a failure while recording it as the cause of the new
//! one, and early-return helpers that build a failure from a kind.

pub mod control_flow;
pub mod diagnostics;
pub mod error;
pub mod fail;
pub mod laws;
pub mod result_ext;

pub use control_flow::{bail, bail_msg, ensure, ensure_msg};
pub use error::{BoxedError, ChainErrorKind, ErrorContainer, UnboxedError};
pub use fail::{Fail, PriorFailure};
pub use result_ext::ResultExt;

