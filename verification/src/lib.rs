//! WatchDesk publishes the state of a Windows PC to Home Assistant over MQTT:
//! whether it is online, whether its monitor is on, and how busy and how warm
//! its CPU is.
//!
//! The library holds what the service decides and says. It takes events in and
//! hands actions out; what it says goes over the wire, into files and onto the
//! screen elsewhere.

pub mod broker;
pub mod config;
pub mod discovery;
pub mod install;
pub mod json;
pub mod laws;
pub mod metrics;
pub mod monitor;
pub mod mqtt;
pub mod service;
pub mod startup;
pub mod status;
pub mod text;
pub mod topics;
