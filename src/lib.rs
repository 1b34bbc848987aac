//! Watches paths and restarts a script when they change: the decisions of
//! that loop, verified. Which changes count (ignore patterns and change
//! kinds), when a burst of changes has settled (debouncing), what command a
//! script type runs with which arguments, and which child process is the one
//! under supervision. Watching, spawning and printing are left to the caller.

pub mod command;
pub mod debounce;
pub mod events;
pub mod filter;
pub mod logger;
pub mod supervisor;
