//! Small building blocks for programs that hand data to several owners or
//! threads: a copy-out value container, the arithmetic mean of a slice, and
//! the text with which a thread announces itself.

pub mod cell;
pub mod mean;
pub mod report;

pub use cell::Cell;
pub use mean::average;
pub use report::{thread_lines, thread_report};
