//! Typed, scope-bound views over the records of endpoint security events,
//! with value semantics (debug rendering, equality, hashing) derived from each
//! view's ordered list of declared fields, and a per-type thread-safety
//! classification.

pub mod event_lw_session_unlock;
pub mod event_setextattr;
pub mod event_setgid;
pub mod file;
pub mod kind;
pub mod laws;
pub mod value;
