use vstd::prelude::*;

use crate::event::{I2CEvent, SMBusProtocolError};
use crate::state::{BusState, ReadQuery, ReadReplies, SMBusState, WriteRequest};

verus! {

/// The device's side of SMBus: what each operation reads or writes.
///
/// A read answers `None` where the device does not know the register (or
/// the operation); a write answers `Err` where it rejects register or value.
/// `handle_i2c_event` decodes bus events into calls of these operations.
///
/// The four read operations are described by spec functions: a verified
/// implementation defines them and proves its reads against them. Their
/// default says nothing, so an implementation that keeps it cannot be
/// verified, only used.
pub trait CommandHandler: Sized {
    type Error;

    /// What `handle_read_byte` answers in this state.
    closed spec fn read_byte_spec(&self) -> Option<u8> {
        arbitrary()
    }

    /// What `handle_read_byte_data` answers for `reg` in this state.
    closed spec fn read_byte_data_spec(&self, reg: u8) -> Option<u8> {
        arbitrary()
    }

    /// What `handle_read_word_data` answers for `reg` in this state.
    closed spec fn read_word_data_spec(&self, reg: u8) -> Option<u16> {
        arbitrary()
    }

    /// What `handle_read_block_data` answers for `reg` and `index` in this state.
    closed spec fn read_block_data_spec(&self, reg: u8, index: u8) -> Option<u8> {
        arbitrary()
    }

    fn handle_read_byte(&self) -> (r: Option<u8>)
        ensures
            r == self.read_byte_spec(),
    ;

    fn handle_read_byte_data(&self, reg: u8) -> (r: Option<u8>)
        ensures
            r == self.read_byte_data_spec(reg),
    ;

    fn handle_read_word_data(&self, reg: u8) -> (r: Option<u16>)
        ensures
            r == self.read_word_data_spec(reg),
    ;

    /// One byte of a block: index 0 is the block's length, index `i` its
    /// `i`-th data byte (counted from 1).
    fn handle_read_block_data(&self, reg: u8, index: u8) -> (r: Option<u8>)
        ensures
            r == self.read_block_data_spec(reg, index),
    ;

    fn handle_write_byte(&mut self, data: u8) -> Result<(), Self::Error>;

    fn handle_write_byte_data(&mut self, reg: u8, data: u8) -> Result<(), Self::Error>;

    fn handle_write_word_data(&mut self, reg: u8, data: u16) -> Result<(), Self::Error>;

    /// A block write of `count` data bytes, held in `block`.
    fn handle_write_block_data(&mut self, reg: u8, count: u8, block: &[u8]) -> Result<
        (),
        Self::Error,
    >;

    /// Performs one protocol step for `event`: updates `bus_state`, calls
    /// the handler where the step needs it, and for `RequestedByte` leaves
    /// the byte for the master behind the event's reference.
    ///
    /// A requested byte is `BusState::requested` of the handler's answers to
    /// the state's `read_query`, asked in the order byte data, word data,
    /// block data. Whether the handler accepts a write is its own affair, so
    /// `Stopped` is stated for either answer: `BusState::stop_result` of the
    /// state's `write_request` (the data of a block write being
    /// `block_payload`). Only that write may change the handler; every other
    /// step leaves it as it was.
    fn handle_i2c_event(&mut self, event: &mut I2CEvent, bus_state: &mut SMBusState) -> (r: Result<
        (),
        SMBusProtocolError,
    >)
        ensures
            match *old(event) {
                I2CEvent::Stopped => {
                    ||| (old(bus_state)@.write_request() matches Ok(Some(_)))
                    ||| *final(self) == *old(self)
                },
                _ => *final(self) == *old(self),
            },
            match *old(event) {
                I2CEvent::Initiated { direction } => {
                    &&& final(bus_state)@ == old(bus_state)@.initiated(direction)
                    &&& r == Ok::<(), SMBusProtocolError>(())
                    &&& *final(event) == *old(event)
                },
                I2CEvent::ReceivedByte { byte } => {
                    &&& (final(bus_state)@, r) == old(bus_state)@.received(byte)
                    &&& *final(event) == *old(event)
                },
                I2CEvent::RequestedByte { byte } => {
                    &&& requested_step(
                        old(bus_state)@,
                        match old(bus_state)@.read_query() {
                            ReadQuery::Nothing => no_replies(),
                            ReadQuery::ReadByte => ReadReplies {
                                read_byte: old(self).read_byte_spec(),
                                ..no_replies()
                            },
                            ReadQuery::Register(reg) => register_replies(
                                old(self).read_byte_data_spec(reg),
                                old(self).read_word_data_spec(reg),
                                old(self).read_block_data_spec(reg, 0),
                            ),
                            ReadQuery::BlockByte(reg, index) => ReadReplies {
                                block_data: old(self).read_block_data_spec(reg, index),
                                ..no_replies()
                            },
                        },
                        *byte,
                        r,
                        final(bus_state)@,
                        *final(event),
                    )
                    &&& match *final(event) {
                        I2CEvent::RequestedByte { byte: out } => *final(out) == *final(byte),
                        _ => false,
                    }
                },
                I2CEvent::Stopped => {
                    &&& final(bus_state)@ == BusState::initial()
                    &&& exists|accepted: bool| r == old(bus_state)@.stop_result(accepted)
                    &&& *final(event) == *old(event)
                },
            },
    {
        let r = match event {
            I2CEvent::Initiated { direction } => {
                bus_state.initiate(*direction);
                Ok(())
            },
            I2CEvent::ReceivedByte { byte } => bus_state.receive_byte(*byte),
            I2CEvent::RequestedByte { byte } => {
                // Ask only what the state's query needs; for a register,
                // byte data goes before word data, and word data before
                // block data.
                let none = ReadReplies {
                    read_byte: None,
                    byte_data: None,
                    word_data: None,
                    block_data: None,
                };
                let replies = match bus_state.read_query() {
                    ReadQuery::Nothing => none,
                    ReadQuery::ReadByte => ReadReplies { read_byte: self.handle_read_byte(), ..none },
                    ReadQuery::Register(reg) => {
                        let byte_data = self.handle_read_byte_data(reg);
                        if byte_data.is_some() {
                            ReadReplies { byte_data, ..none }
                        } else {
                            let word_data = self.handle_read_word_data(reg);
                            if word_data.is_some() {
                                ReadReplies { word_data, ..none }
                            } else {
                                ReadReplies {
                                    block_data: self.handle_read_block_data(reg, 0),
                                    ..none
                                }
                            }
                        }
                    },
                    ReadQuery::BlockByte(reg, index) => ReadReplies {
                        block_data: self.handle_read_block_data(reg, index),
                        ..none
                    },
                };
                match bus_state.request_byte(replies) {
                    Ok(Some(b)) => {
                        **byte = b;
                        Ok(())
                    },
                    Ok(None) => Ok(()),
                    Err(e) => Err(e),
                }
            },
            I2CEvent::Stopped => {
                let accepted = match bus_state.write_request() {
                    Ok(Some(WriteRequest::Byte(data))) => self.handle_write_byte(data).is_ok(),
                    Ok(Some(WriteRequest::ByteData(reg, data))) => self.handle_write_byte_data(
                        reg,
                        data,
                    ).is_ok(),
                    Ok(Some(WriteRequest::WordData(reg, data))) => self.handle_write_word_data(
                        reg,
                        data,
                    ).is_ok(),
                    Ok(Some(WriteRequest::BlockData(reg, count))) => {
                        let block = bus_state.block_payload(count);
                        self.handle_write_block_data(reg, count, block).is_ok()
                    },
                    _ => true,
                };
                bus_state.stop(accepted)
            },
        };
        r
    }
}

pub open spec fn no_replies() -> ReadReplies {
    ReadReplies { read_byte: None, byte_data: None, word_data: None, block_data: None }
}

/// The replies for a register's first data byte: byte data if the handler
/// knows it, else word data, else the length of block data.
pub open spec fn register_replies(
    byte_data: Option<u8>,
    word_data: Option<u16>,
    block_len: Option<u8>,
) -> ReadReplies {
    if byte_data is Some {
        ReadReplies { byte_data, ..no_replies() }
    } else if word_data is Some {
        ReadReplies { word_data, ..no_replies() }
    } else {
        ReadReplies { block_data: block_len, ..no_replies() }
    }
}

/// `RequestedByte` with these replies took `before` to `after` with result
/// `r`, and the event now holds the byte the master reads.
pub open spec fn requested_step(
    before: BusState,
    replies: ReadReplies,
    byte_before: u8,
    r: Result<(), SMBusProtocolError>,
    after: BusState,
    event_after: I2CEvent,
) -> bool {
    let (next, out) = before.requested(replies);
    &&& after == next
    &&& event_after matches I2CEvent::RequestedByte { byte: b } && *b == match out {
        Ok(Some(v)) => v,
        _ => byte_before,
    }
    &&& r == match out {
        Ok(_) => Ok::<(), SMBusProtocolError>(()),
        Err(e) => Err(e),
    }
}

} // verus!
