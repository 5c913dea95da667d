//! File-system errors enriched with the trace of spans that were active
//! when the failure happened.

pub mod span;
pub mod stack;
pub mod error;

pub use span::{Span, SpanTrace, SpanView};
pub use stack::SpanStack;
pub use error::{Error, PrimitiveError};
