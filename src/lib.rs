//! Native desktop shell around a web application: the menu bar it builds,
//! the script that bridges page notifications to the host, and the decisions
//! of its event loop.

pub mod config;
pub mod event_loop;
pub mod menu;
pub mod notification;
pub mod platform;
