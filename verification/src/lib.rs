//! A catalogue of small, independent, runnable lessons.

pub mod basics;
pub mod chance;
pub mod cli;
pub mod lesson;
pub mod outcome;
pub mod registry;
pub mod runner;
pub mod slug;
