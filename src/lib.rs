//! Client side of a coding-exercise grading service: file checks, the
//! credential bundle handed out by the authentication service, upload jobs
//! for the object store, and the submission session that decides, step by
//! step, which request comes next.

pub mod authentication;
pub mod files;
pub mod session;
