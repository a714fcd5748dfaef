//! A tri-state result type for handler pipelines.
//!
//! `Outcome<S, E, F>` extends the usual two-state result/error pattern with a
//! third state: a step can report that it succeeded (`Success`), that it
//! failed terminally (`Failure`), or that it declines to handle the input and
//! control should pass to the next eligible handler (`Forward`).

pub mod outcome;
pub mod render;

pub use outcome::IntoOutcome;
pub use outcome::Outcome;
pub use render::VariantColor;
