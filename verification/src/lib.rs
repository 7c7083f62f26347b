//! Core logic of a laboratory measurement data collector.
//!
//! The instrument ("the clicker") alternately reports a dynamic-resistance
//! value and a frequency value over an unreliable serial link. This crate
//! holds the hard parts of driving it, each with a verified contract:
//!
//! - a resynchronizing frame codec for the magic-byte-prefixed,
//!   length-delimited wire protocol ([`protobuf`]);
//! - the decision core of the polling loop that keeps one fresh reading
//!   available, with bounded retry and a fatal-after-three-failures policy
//!   ([`poller`]);
//! - the measurement-session state machine that detects mode switches,
//!   accumulates samples and terminates after a configured number of switch
//!   cycles or on cancellation ([`measure`], [`clicker_controller`]);
//! - box-plot statistics (quartiles, median, interquartile range) over the
//!   collected samples ([`box_plot`]).
//!
//! Input/output — the serial port, timers, channels and the web layer —
//! lives with the embedding application, which drives these state machines
//! and hands them plain values.
#![verifier::loop_isolation(false)]

pub mod box_plot;
pub mod clicker_controller;
pub mod clicker_interface;
pub mod config;
pub mod data_point;
pub mod fake_clicker;
pub mod measure;
pub mod poller;
pub mod protobuf;

pub use clicker_controller::{ClickerController, MeasureProcessStat, MeasureProcessState};
pub use config::Config;

