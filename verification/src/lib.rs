//! Frame graph and GPU resource planning for a live-reloadable shader viewer.
//!
//! A frame consists of a compute dispatch, a full-screen fragment pass drawn
//! below a fixed strip reserved for the control panel, and an overlay pass for
//! that panel. This crate decides *what* is created and recorded: bind-group
//! layouts, buffers, pipelines, per-frame passes and surface configuration are
//! all described as plain values, each with a contract proved by Verus. The
//! host performs the described operations on a device.

pub mod app;
pub mod bind_group;
pub mod descriptor;
pub mod frame;
pub mod pipeline;
pub mod shader;
pub mod surface;
pub mod ui;
