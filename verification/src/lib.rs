//! Host-side driver core for an FPGA-hosted USB bulk data-acquisition device.
//!
//! The crate models the device session and its register/bulk protocol layer:
//! endpoint discovery over plain descriptor data, reversible kernel-driver
//! detachment bookkeeping, a vendor control-transfer register protocol,
//! chunked bulk transfers, and a telemetry-frame decoder.  All USB transport
//! primitives are reached through a transport trait, so the logic here is
//! independent of any particular USB backend.

pub mod aub;
pub mod axis_usb;
pub mod registers;
pub mod tart;
pub mod telemetry;
pub mod usb;
