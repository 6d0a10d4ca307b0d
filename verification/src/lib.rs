//! Verified core of a submission-grading service.
//!
//! An HTTP shell accepts a user-supplied program together with a set of test
//! cases, compiles the program in an isolated working directory, executes it
//! under a timeout, and reports a per-test-case verdict.  This crate holds the
//! logic of that pipeline — harness assembly, parameter formatting, the
//! line-oriented result protocol, outcome classification, path scrubbing and
//! the error taxonomy — with contracts checked by Verus.  The process and
//! filesystem shell around it lives outside the library.

pub mod error;
pub mod log;
pub mod model;
pub mod response;
pub mod runner;
pub mod text;
