//! Supervision of one local backend process on behalf of a desktop shell.
//!
//! The crate holds the decisions of the supervisor:
//!
//! - `paths`: where the backend lives, in a development checkout and in a
//!   packaged build;
//! - `guard`: which stale processes have to leave the backend's port;
//! - `launch`: in which order the steps of a launch follow each other, as a
//!   state machine that the caller drives;
//! - `course`: what a whole launch amounts to, proved of that machine;
//! - `slot`: what happens to the process handle when the window closes;
//! - `shared`: the slot behind the lock that lets threads share it.
//!
//! Whatever touches the operating system is left to the caller: it probes
//! the file system, runs the commands and spawns the process, and reports
//! back what it saw.

pub mod course;
pub mod guard;
pub mod launch;
pub mod paths;
pub mod shared;
pub mod slot;
