//! A single-student grade report library.
//!
//! A [`grade::Student`] holds a name, a total of marks in thousandths of a
//! mark, and a positive subject count. From those it derives an average, a
//! letter grade and a description, and renders a console summary, a boxed
//! plain-text report and a styled HTML report, each a pure function of the
//! model and a supplied timestamp.

pub mod grade;
pub mod numfmt;
pub mod parse;
pub mod render;
