//! Benchmark orchestration for zsh plugin managers.
//!
//! The library drives a benchmark of several interchangeable zsh plugin
//! managers, each running inside a container. It renders per-tool
//! configuration files from a shared plugin list, stages them as container
//! mounts, and builds the container and benchmark invocations that an
//! unverified front end executes.

pub mod batch;
pub mod command;
pub mod kind;
pub mod plan;
pub mod plugins;
pub mod registry;
pub mod render;
pub mod runner;
pub mod template;
pub mod text;
