//! Verified core of a periodic job scheduler: exact time spans, the sleep that
//! aligns a job's wake-ups to its period, and the per-job loop as a state machine
//! that an async runtime drives.

pub mod span;
pub mod timing;
pub mod job_loop;
