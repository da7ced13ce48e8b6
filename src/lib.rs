//! Watches a named process and turns "is it running" samples into
//! tray-icon changes.
//!
//! The modules hold the verified logic: the edge-triggered icon state
//! machine, the polling loop's decisions, the process prober and the
//! resolution of the start-up options. Threads, channels, the tray widget
//! and argument parsing live in the program around the library.
pub mod coordinator;
pub mod prober;
pub mod poller;
pub mod config;
