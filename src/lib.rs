//! A helper that fetches package build scripts from a mirror repository,
//! builds them, and manages the cache of fetched sources.
//!
//! The library decides; the program around it performs each step (creating
//! directories, running the fetch, build, size-report and removal programs,
//! asking on the terminal) and reports the outcome back.
pub mod cleanup;
pub mod cli;
pub mod install;
pub mod paths;
pub mod text;
