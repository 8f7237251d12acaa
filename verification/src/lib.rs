//! A developer-utility core: a JSON formatter/minifier pipeline with an
//! ordered progress-event stream, and a timestamp / datetime conversion
//! layer with heuristic format inference.
//!
//! The GUI shell around this library is a collaborator only: it submits
//! jobs, replays the event streams produced here, and owns the timers.

pub mod numeric;
pub mod scan;
pub mod json;
pub mod time;
pub mod progress;

pub use crate::json::JsonLogic;
pub use crate::progress::ProcessUpdate;
pub use crate::time::TimeLogic;
