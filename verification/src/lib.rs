//! Remote-control commands for a desktop: pointer, keyboard and screen
//! capture. Each command is planned here as plain data; the caller performs
//! the native operations of the plan, in order, and stops at the first that
//! fails.

pub mod action;
pub mod error;
pub mod pointer;
pub mod text;
pub mod keyboard;
pub mod perform;
pub mod capture;
pub mod transport;
