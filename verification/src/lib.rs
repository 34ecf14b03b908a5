//! Provisioning and de-provisioning of a web application as a background
//! service managed by the operating system: systemd on Linux, the service
//! control manager (through `nssm`) on Windows, launchd on macOS.
//!
//! The two orchestrators, [`install`] and [`uninstall`], are state
//! machines. They never touch the host themselves: each step names one
//! command, and the program that drives them carries it out and answers
//! with an event. What the orchestrators promise about the host is stated
//! over the model in [`host`] and proved there and in their own modules.

pub mod text;
pub mod platform;
pub mod service;
pub mod secret;
pub mod credentials;
pub mod systemd;
pub mod nssm;
pub mod launchd;
pub mod registrar;
pub mod protocol;
pub mod commands;
pub mod host;
pub mod outcome;
pub mod report;
pub mod builder;
pub mod cleanup;
pub mod install;
pub mod uninstall;
pub mod messages;
