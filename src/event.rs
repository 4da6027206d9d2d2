use vstd::prelude::*;

verus! {

/// Which side of the bus drives the data bytes of the current phase.
#[derive(Debug, Clone, Copy, PartialEq, Eq, Structural)]
pub enum Direction {
    MasterToSlave,
    SlaveToMaster,
}

/// One primitive event raised by the bus peripheral.
///
/// `RequestedByte` carries the place where the decoder leaves the byte that
/// the master is about to clock out.
#[derive(Debug)]
#[allow(inconsistent_fields)]
pub enum I2CEvent<'a> {
    Initiated { direction: Direction },
    ReceivedByte { byte: u8 },
    RequestedByte { byte: &'a mut u8 },
    Stopped,
}

/// Why a bus event could not be turned into a step of an SMBus transaction.
#[derive(Debug, Clone, Copy, PartialEq, Eq, Structural)]
pub enum SMBusProtocolError {
    WrongDirection(Option<Direction>),
    QuickCommandUnsupported,
    UnsupportedBlockLength(u8),
    ReadByteUnsupported,
    WriteByteUnsupported,
    InvalidWriteBound(u8),
    InvalidReadBound(u8),
    InvalidWriteBlockSize(u8),
    InvalidReadBlockSize(u8),
    InvalidReadRegister(u8),
    InvalidWriteRegister(u8),
}

} // verus!
