//! Structured records and line parsers for each metric category.

pub mod cpu;
pub mod disk;
pub mod memory;
pub mod nvidia_gpu;
pub mod socket;
pub mod sys_stats_handler;
