//! Protocol-level constants and small tagged types shared by the whole
//! driver: device identity, transfer sizing, control-transfer request kinds,
//! bulk endpoint addresses, register addresses, status bits and data widths.

use vstd::prelude::*;

verus! {

/// Vendor id used by an alternate build of the device firmware.
pub const GULP_VENDOR_ID: u16 = 0xFACE;

/// Size of the device information block, in bytes.
pub const GULP_INFO_SIZE: usize = 64;

/// Default timeout for control and bulk transfers, in milliseconds.
pub const GULP_TIMEOUT_MS: u64 = 10;

/// Largest buffer handed to a single bulk read.
pub const MAX_BUF_SIZE: usize = 512;

/// USB maximum packet size for bulk endpoints at high speed.
pub const PACKET_SIZE_HS: usize = 512;

/// USB maximum packet size for bulk endpoints at full speed.
pub const PACKET_SIZE_FS: usize = 64;

/// Vendor request code of the register read/write protocol; the register
/// address and access width travel in the value and index fields.
pub const REGISTER_REQUEST: u8 = 0;

/// Direction of a vendor control transfer, as seen in the `bmRequestType`
/// field: vendor type (0x40) combined with the direction bit (0x80 for
/// device-to-host).
#[derive(Debug, Copy, Clone, PartialEq, Eq, PartialOrd, Ord, Structural)]
pub enum RequestType {
    IN,
    OUT,
}

impl RequestType {
    /// The raw `bmRequestType` byte for this request kind.
    pub fn value(self) -> (r: u8)
        ensures
            self == RequestType::IN ==> r == 0xC0,
            self == RequestType::OUT ==> r == 0x40,
    {
        match self {
            RequestType::IN => 0xC0,
            RequestType::OUT => 0x40,
        }
    }
}

/// Address of the device's primary bulk endpoint pair: endpoint number 1,
/// with the direction bit (0x80) set for IN.
#[derive(Debug, Copy, Clone, PartialEq, Eq, PartialOrd, Ord, Structural)]
pub enum BulkEndpoint {
    IN,
    OUT,
}

impl BulkEndpoint {
    /// The raw endpoint address byte.
    pub fn value(self) -> (r: u8)
        ensures
            self == BulkEndpoint::IN ==> r == 0x81,
            self == BulkEndpoint::OUT ==> r == 0x01,
    {
        match self {
            BulkEndpoint::IN => 0x81,
            BulkEndpoint::OUT => 0x01,
        }
    }
}

/// The device's control/status registers: Transmit-Status, Transmit-Length
/// and Receive-Status.
#[derive(Debug, Copy, Clone, PartialEq, Eq, PartialOrd, Ord, Structural)]
pub enum REG {
    TSR,
    TLR,
    RSR,
}

impl REG {
    /// The register's address in the vendor control-transfer protocol.
    pub fn addr(self) -> (r: u8)
        ensures
            r == self.spec_addr(),
    {
        match self {
            REG::TSR => 0,
            REG::TLR => 1,
            REG::RSR => 2,
        }
    }

    /// Register address: TSR = 0, TLR = 1, RSR = 2.
    pub open spec fn spec_addr(self) -> u8 {
        match self {
            REG::TSR => 0,
            REG::TLR => 1,
            REG::RSR => 2,
        }
    }
}

/// Status bits exposed by the Transmit-Status register.
#[allow(non_camel_case_types)]
#[derive(Debug, Copy, Clone, PartialEq, Eq, PartialOrd, Ord, Structural)]
pub enum TSR_BIT {
    RDY,
    LST,
}

impl TSR_BIT {
    /// The bit mask of this status flag: RDY = bit 0, LST = bit 1.
    pub fn mask(self) -> (r: u16)
        ensures
            self == TSR_BIT::RDY ==> r == 1,
            self == TSR_BIT::LST ==> r == 2,
    {
        match self {
            TSR_BIT::RDY => 1,
            TSR_BIT::LST => 2,
        }
    }
}

/// Status bits exposed by the Receive-Status register.
#[allow(non_camel_case_types)]
#[derive(Debug, Copy, Clone, PartialEq, Eq, PartialOrd, Ord, Structural)]
pub enum RSR_BIT {
    RDY,
    LST,
}

impl RSR_BIT {
    /// The bit mask of this status flag: RDY = bit 0, LST = bit 1.
    pub fn mask(self) -> (r: u16)
        ensures
            self == RSR_BIT::RDY ==> r == 1,
            self == RSR_BIT::LST ==> r == 2,
    {
        match self {
            RSR_BIT::RDY => 1,
            RSR_BIT::LST => 2,
        }
    }
}

/// Width of one register access.  `Unset` is a placeholder that is invalid
/// for an actual transfer and is rejected by the register protocol.
#[derive(Debug, Copy, Clone, PartialEq, Eq, PartialOrd, Ord, Structural)]
pub enum DataWidth {
    Unset,
    Byte,
    Half,
    Word,
}

impl DataWidth {
    /// Number of data bytes carried by one access of this width.
    pub fn nbytes(self) -> (r: usize)
        ensures
            r == self.spec_nbytes(),
    {
        match self {
            DataWidth::Unset => 0,
            DataWidth::Byte => 1,
            DataWidth::Half => 2,
            DataWidth::Word => 4,
        }
    }

    /// Byte count per access: Unset = 0, Byte = 1, Half = 2, Word = 4.
    pub open spec fn spec_nbytes(self) -> usize {
        match self {
            DataWidth::Unset => 0usize,
            DataWidth::Byte => 1usize,
            DataWidth::Half => 2usize,
            DataWidth::Word => 4usize,
        }
    }

    /// The width selector encoded into a control transfer's index field.
    pub fn code(self) -> (r: u16)
        ensures
            r == self.spec_code(),
    {
        match self {
            DataWidth::Unset => 0,
            DataWidth::Byte => 1,
            DataWidth::Half => 2,
            DataWidth::Word => 3,
        }
    }

    /// Width selector: Unset = 0, Byte = 1, Half = 2, Word = 3.
    pub open spec fn spec_code(self) -> u16 {
        match self {
            DataWidth::Unset => 0u16,
            DataWidth::Byte => 1u16,
            DataWidth::Half => 2u16,
            DataWidth::Word => 3u16,
        }
    }
}

/// Static acquisition configuration of the device front end.
pub struct GulpConfig {
    pub channels: [u16; 2],
    pub usb_mode: u16,
}

} // verus!
