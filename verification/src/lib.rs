//! Tunnel lifecycle for 6in4 (SIT) and 4in6 (IPIP6) interfaces.
//!
//! The library draws up the control blocks that the kernel's tunnel drivers
//! read, decides what a control channel does with each answer of the kernel,
//! and keeps the state of the handle that owns a tunnel. It makes no system
//! call itself: the caller performs each action and reports what came back.
//!
//! A tunnel is made in three steps. The caller resolves the master to its
//! index and hands it to [`tunnel::Sit::new`] or [`tunnel::IpIp6::new`], which
//! give an uncreated handle and a request. The caller serves the request
//! through a [`channel::ControlChannel`]: it asks the channel for the call
//! that is due, makes it, and tells the channel what the call returned, until
//! the channel gives a result. That result turns the handle into a created
//! one, or into the error.
//!
//! A tunnel is removed in the same way, with the request that the handle's
//! `do_delete` gives. Whatever the kernel says to it, `release` takes it
//! without an error.

pub mod channel;
pub mod descriptor;
pub mod error;
pub mod header;
pub mod name;
pub mod tunnel;
pub mod wire;
