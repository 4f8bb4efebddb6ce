//! Verified core of a user-space driver for a USB graphics tablet.
//!
//! The library decodes the tablet's raw reports and turns them into the input
//! events that a pen, a keyboard and a media keyboard have to send. It does no
//! I/O of its own: callers feed it bytes and descriptors, and carry out the
//! emissions it returns.

pub mod bindings;
pub mod dispatcher;
pub mod driver_loop;
pub mod event;
pub mod keys;
pub mod link;
pub mod pen;
pub mod report;
pub mod tablet;
pub mod virtual_device;
