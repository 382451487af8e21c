//! A backend-neutral contract for driving a GPU: adapters that enumerate queue
//! families and open logical devices, command buffers that record work through an
//! explicit lifecycle, and queues that accept ended buffers in submission order.
//!
//! The native driver is never called from here. A backend performs each driver call
//! itself and reports the driver's result code; every decision around that call is
//! made, and proved, in this crate.

pub mod error;
pub mod adapter;
pub mod command;
pub mod device;
pub mod queue;
