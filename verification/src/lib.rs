//! Exact line algebra and the input-driven dispatch around it.
//!
//! A line is the pair (slope m, intercept q) with y = m*x + q. Every number
//! is an exact rational, so the vertical-line and zero-slope guards, the
//! algebra, and the printed messages are all verified exactly.

pub mod algebra;
pub mod dispatch;
pub mod numstr;
pub mod rat;

pub use algebra::Line;
pub use algebra::QLine;
pub use dispatch::respond;
pub use dispatch::Element;
pub use dispatch::Inputs;
pub use rat::Q;
pub use rat::Rat;
