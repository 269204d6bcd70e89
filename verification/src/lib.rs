//! Provisioning of unprivileged users for container workloads, and listing
//! of the running containers of the users a configuration file names.
//!
//! The library decides and never acts: it does not print, read a file or
//! start a process. [`run::start`] turns the arguments of the process into a
//! first [`step::Step`], which holds the lines to print and what has to
//! happen next. The program around the library prints the lines and then
//!
//! - runs the command of a [`step::Next::Run`] and calls [`run::resume`] with
//!   how it ended,
//! - reads and decodes the file of a [`step::Next::Load`] and calls
//!   [`ps::podman_ps`] with what it gave,
//! - ends the process at a [`step::Next::Exit`].
//!
//! Every function states in its contract exactly which step it gives.
//! [`laws`] holds what follows for whole runs.

pub mod adduser;
pub mod cli;
pub mod command;
pub mod config;
pub mod laws;
pub mod path;
pub mod ps;
pub mod run;
pub mod step;
pub mod text;
