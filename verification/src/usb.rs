//! The USB capability surface the driver core needs, and the plain-data
//! model of the descriptor tree it resolves endpoints from.
//!
//! The core never talks to a USB stack directly: every transport primitive
//! (control transfer, bulk transfer, interface claiming, kernel-driver
//! management) is a method of [`Transport`].  A real backend implements the
//! trait around its device handle; tests implement it with mock devices.

use vstd::prelude::*;

verus! {

/// Errors surfaced by the driver core.
#[derive(Debug, Copy, Clone, PartialEq, Eq, Structural)]
pub enum UsbError {
    /// No matching device or endpoint.
    NotFound,
    /// Insufficient privilege to open or claim the device.
    Access,
    /// A control or bulk operation did not complete in time.
    Timeout,
    /// The device answered a register access with an unexpected byte count.
    Protocol,
    /// A register access was requested with the invalid `Unset` width.
    InvalidWidth,
    /// A string descriptor was unreadable or not ASCII.
    InvalidString,
    /// Any other transport failure.
    Other,
}

/// The transfer type of one endpoint descriptor.
#[derive(Debug, Copy, Clone, PartialEq, Eq, Structural)]
pub enum TransferKind {
    Control,
    Isochronous,
    Bulk,
    Interrupt,
}

/// The direction of one endpoint descriptor.
#[derive(Debug, Copy, Clone, PartialEq, Eq, Structural)]
pub enum Direction {
    In,
    Out,
}

/// One endpoint descriptor, reduced to the fields the resolver reads.
#[derive(Debug, Copy, Clone, PartialEq, Eq, Structural)]
pub struct EndpointDesc {
    /// Endpoint address byte, direction bit included.
    pub address: u8,
    pub transfer: TransferKind,
    pub direction: Direction,
}

/// One interface alternate-setting descriptor with its endpoints.
#[derive(Debug, Clone)]
pub struct InterfaceDesc {
    pub number: u8,
    pub setting: u8,
    pub endpoints: Vec<EndpointDesc>,
}

/// One configuration descriptor that yielded interface descriptors.
#[derive(Debug, Clone)]
pub struct ConfigDesc {
    pub number: u8,
    pub interfaces: Vec<InterfaceDesc>,
}

/// One operation issued to the transport, as recorded in the session's
/// ghost transfer log.  The log makes the order and the arguments of the
/// issued claim/detach/attach calls and transfers part of the contracts;
/// verified code appends an entry beside each transport call it makes.
pub enum UsbOp {
    /// A device-to-host control transfer of at most `len` bytes.
    ControlRead { request_type: u8, request: u8, value: u16, index: u16, len: int },
    /// A host-to-device control transfer carrying `data`.
    ControlWrite { request_type: u8, request: u8, value: u16, index: u16, data: Seq<u8> },
    /// A bulk read of at most `max_len` bytes.
    BulkRead { address: u8, max_len: int },
    /// A bulk write carrying `data`.
    BulkWrite { address: u8, data: Seq<u8> },
    /// Detaching the native driver from an interface.
    Detach { interface: u8 },
    /// Reattaching the native driver to an interface; `ok` records whether
    /// the attempt succeeded.
    Attach { interface: u8, ok: bool },
    /// Selecting the active configuration.
    SetConfiguration { config: u8 },
    /// Claiming an interface.
    Claim { interface: u8 },
    /// Selecting an interface's alternate setting.
    SetAlternate { interface: u8, setting: u8 },
}

/// The USB transport primitives the driver core is built on.
///
/// A backend wraps an open device handle; the contracts state only what any
/// USB stack guarantees of the primitives (length bounds on transferred
/// data), never that an operation succeeds: the device and the host stack
/// decide that at run time.  The progress clause of `write_bulk` (a
/// successful non-empty write moves at least one byte) is what terminates
/// the session's retry loop: an implementation that returned `Ok(0)`
/// forever would make that loop spin, so a backend must uphold it.
pub trait Transport: Sized {
    /// Issue a device-to-host control transfer of at most `len` bytes.
    fn read_control(
        &mut self,
        request_type: u8,
        request: u8,
        value: u16,
        index: u16,
        len: usize,
        timeout_ms: u64,
    ) -> (r: Result<Vec<u8>, UsbError>)
        ensures
            r matches Ok(data) ==> data@.len() <= len,
    ;

    /// Issue a host-to-device control transfer carrying `data`; returns the
    /// number of bytes the device accepted.
    fn write_control(
        &mut self,
        request_type: u8,
        request: u8,
        value: u16,
        index: u16,
        data: &[u8],
        timeout_ms: u64,
    ) -> (r: Result<usize, UsbError>)
        ensures
            r matches Ok(n) ==> n <= data@.len(),
    ;

    /// Read at most `max_len` bytes from a bulk IN endpoint.
    fn read_bulk(&mut self, address: u8, max_len: usize, timeout_ms: u64) -> (r: Result<
        Vec<u8>,
        UsbError,
    >)
        ensures
            r matches Ok(data) ==> data@.len() <= max_len,
    ;

    /// Write `data` to a bulk OUT endpoint; may perform a short write, but a
    /// successful transfer moves at least one byte.
    fn write_bulk(&mut self, address: u8, data: &[u8], timeout_ms: u64) -> (r: Result<
        usize,
        UsbError,
    >)
        requires
            data@.len() > 0,
        ensures
            r matches Ok(n) ==> 1 <= n <= data@.len(),
    ;

    /// Whether a native (kernel) driver is currently bound to `interface`.
    fn kernel_driver_active(&mut self, interface: u8) -> (r: Result<bool, UsbError>);

    /// Detach the native driver from `interface`.
    fn detach_kernel_driver(&mut self, interface: u8) -> (r: Result<(), UsbError>);

    /// Re-attach the native driver to `interface`.
    fn attach_kernel_driver(&mut self, interface: u8) -> (r: Result<(), UsbError>);

    /// Select the active configuration of the device.
    fn set_active_configuration(&mut self, config: u8) -> (r: Result<(), UsbError>);

    /// Claim `interface` for this session.
    fn claim_interface(&mut self, interface: u8) -> (r: Result<(), UsbError>);

    /// Select an alternate setting of a claimed interface.
    fn set_alternate_setting(&mut self, interface: u8, setting: u8) -> (r: Result<
        (),
        UsbError,
    >);

    /// Read the device's product string descriptor.
    fn read_product_string(&mut self) -> (r: Result<String, UsbError>);

    /// Read the device's serial-number string descriptor.
    fn read_serial_string(&mut self) -> (r: Result<String, UsbError>);
}

} // verus!
