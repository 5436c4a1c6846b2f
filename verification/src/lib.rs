//! A deny-list filter for the command lines of file-search tools, and the
//! decisions of the launchers that put it in front of `find` and `fd`.

pub mod denylist;
pub mod launcher;
pub mod text;

pub use denylist::{check_dangerous_options, FD_DANGEROUS_OPTIONS, FIND_DANGEROUS_OPTIONS};
pub use launcher::{InvocationOutcome, Tool};
