//! Values of an embedded mruby virtual machine, and the protocol for calling
//! methods on them.
//!
//! The crate decides; the host acts. Every operation that needs the virtual
//! machine (calling a method, rendering a value, asking whether a value responds
//! to a method or has been freed) is a small state machine: it names the piece of
//! work that it waits for as a [`exchange::Request`], takes the host's answer as an
//! [`exchange::Reply`], and is either pending again or done with a result. The
//! host links the C library, performs the requests and drives the machine.

pub mod behaviour;
pub mod call;
pub mod error;
pub mod exchange;
pub mod laws;
pub mod liveness;
pub mod protect;
pub mod render;
pub mod respond_to;
pub mod sys;
pub mod types;
pub mod value;
