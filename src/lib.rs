//! A single-instance process supervisor with preemptive handoff.
//!
//! For a given target executable at most one supervised child runs at a time.
//! A newly launched supervisor asks the running one to stop its child, waits
//! for it to leave, and then takes over. The decisions are made by verified
//! code; the host program performs the waits, spawns and signals they call for.
pub mod channel;
pub mod invocation;
pub mod supervisor;
pub mod system;
