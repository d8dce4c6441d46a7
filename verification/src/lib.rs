//! Adaptive control core of an idle-time performance booster.
//!
//! The crate holds the decisions of the booster: how a sample of the machine
//! is read from the kernel's text listings, how a cycle is classified as idle,
//! busy or paused, which tuning actions a cycle runs, and which notifications
//! reach the user.  Everything that touches the machine (files, processes,
//! the clock, the notification service, the sleep of the loop) is left to the
//! caller, which hands in plain values and carries out what comes back.
//!
//! Loads and load thresholds are fixed-point numbers: an integer counts
//! millionths of one fully busy core (see [`load::LOAD_SCALE`]).
//!
//! The modules, leaves first:
//!
//! - [`decimal`], [`text`], [`load`]: writing and reading numbers, scanning
//!   lines and tokens;
//! - [`icons`], [`config`], [`snapshot`]: the data of a run;
//! - [`sampler`]: the snapshot of a cycle, read from the kernel's listings;
//! - [`notifier`]: the notification gate, which holds repeats back;
//! - [`actuator`]: the tuning actions of a cycle and their commands;
//! - [`booster`]: the state machine, one decision per cycle;
//! - [`control`], [`tray`]: signals, the pause command, the tray menu;
//! - [`run`]: what holds over whole runs of the daemon;
//! - [`logger`], [`cli`]: lines of the log, the command surface;
//! - [`installer`], [`packages`]: installing the program and its service.

pub mod actuator;
pub mod booster;
pub mod cli;
pub mod config;
pub mod control;
pub mod decimal;
pub mod icons;
pub mod installer;
pub mod load;
pub mod logger;
pub mod notifier;
pub mod packages;
pub mod run;
pub mod sampler;
pub mod snapshot;
pub mod text;
pub mod tray;
