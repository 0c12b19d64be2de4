//! Safe marshalling for the TA-Lib technical-analysis routines.
//!
//! The numerical work of every indicator is done by TA-Lib itself. This
//! library holds the conventions for crossing into it and back: the sentinel
//! values that stand for "use the default", the index range handed to each
//! routine, the reading of its status code as a typed error, and the trimming
//! of an output buffer to the values the routine actually wrote.

pub mod status;
pub mod error;
pub mod args;
pub mod output;

pub use args::MovingAverageType;
pub use error::Error;
