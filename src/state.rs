use vstd::prelude::*;

use crate::event::{Direction, SMBusProtocolError};

verus! {

/// Bytes the receive buffer holds: a register, a block length and a block
/// of at most `MAX_BLOCK_LEN` bytes.
pub const RECEIVE_BUFFER_SIZE: usize = 34;

/// The largest block that SMBus lets a single transfer carry.
pub const MAX_BLOCK_LEN: u8 = 32;

/// The shape of read that the first data byte of a read resolved.
#[derive(Debug, Clone, Copy, PartialEq, Eq, Structural)]
pub enum StatefulTransfer {
    Byte(u8),
    Word(u16),
    Block(u8),
}

/// The handler query that a `RequestedByte` event needs, given the state.
#[derive(Debug, Clone, Copy, PartialEq, Eq, Structural)]
pub enum ReadQuery {
    /// No handler answer is consulted.
    Nothing,
    /// Receive byte: `handle_read_byte`.
    ReadByte,
    /// First data byte for a register: byte data, then word data, then
    /// the length of block data, in that order of priority.
    Register(u8),
    /// One indexed byte of a block read: `handle_read_block_data(reg, index)`.
    BlockByte(u8, u8),
}

/// What a command handler answered to the read queries of one event.
/// A query that was not asked holds `None`.
#[derive(Debug, Clone, Copy, PartialEq, Eq, Structural)]
pub struct ReadReplies {
    pub read_byte: Option<u8>,
    pub byte_data: Option<u8>,
    pub word_data: Option<u16>,
    pub block_data: Option<u8>,
}

/// The handler write that a `Stopped` event resolves to. A block write
/// carries register and count; its data is `buffer[2 .. 2 + count]`.
#[derive(Debug, Clone, Copy, PartialEq, Eq, Structural)]
pub enum WriteRequest {
    Byte(u8),
    ByteData(u8, u8),
    WordData(u8, u16),
    BlockData(u8, u8),
}

/// Mathematical model of the transaction state.
pub struct BusState {
    pub cursor: u8,
    pub buffer: Seq<u8>,
    pub direction: Option<Direction>,
    pub transfer: Option<StatefulTransfer>,
}

/// Little-endian word from its two bytes.
pub open spec fn word_of(lo: u8, hi: u8) -> u16 {
    (lo as int + 256 * (hi as int)) as u16
}

pub open spec fn low_byte(w: u16) -> u8 {
    (w as int % 256) as u8
}

pub open spec fn high_byte(w: u16) -> u8 {
    (w as int / 256) as u8
}

impl WriteRequest {
    /// The error reported when the handler rejects this write.
    pub open spec fn failure_spec(self) -> SMBusProtocolError {
        match self {
            WriteRequest::Byte(_) => SMBusProtocolError::WriteByteUnsupported,
            WriteRequest::ByteData(reg, _) => SMBusProtocolError::InvalidWriteRegister(reg),
            WriteRequest::WordData(reg, _) => SMBusProtocolError::InvalidWriteRegister(reg),
            WriteRequest::BlockData(_, count) => SMBusProtocolError::InvalidWriteBound(count),
        }
    }

    pub fn failure(&self) -> (r: SMBusProtocolError)
        ensures
            r == self.failure_spec(),
    {
        match self {
            WriteRequest::Byte(_) => SMBusProtocolError::WriteByteUnsupported,
            WriteRequest::ByteData(reg, _) => SMBusProtocolError::InvalidWriteRegister(*reg),
            WriteRequest::WordData(reg, _) => SMBusProtocolError::InvalidWriteRegister(*reg),
            WriteRequest::BlockData(_, count) => SMBusProtocolError::InvalidWriteBound(*count),
        }
    }
}

impl BusState {
    pub open spec fn wf(self) -> bool {
        self.buffer.len() == RECEIVE_BUFFER_SIZE
    }

    /// The state before any event, and after every `Stopped`.
    pub open spec fn initial() -> BusState {
        BusState {
            cursor: 0,
            buffer: Seq::new(RECEIVE_BUFFER_SIZE as nat, |i: int| 0u8),
            direction: None,
            transfer: None,
        }
    }

    pub open spec fn register(self) -> u8 {
        self.buffer[0]
    }

    /// The cursor moved one byte on; it stays at its largest value there.
    pub open spec fn advanced(self) -> BusState {
        BusState {
            cursor: if self.cursor < 255 { (self.cursor + 1) as u8 } else { 255 },
            ..self
        }
    }

    /// `Initiated { direction }`: only the direction changes.
    pub open spec fn initiated(self, direction: Direction) -> BusState {
        BusState { direction: Some(direction), ..self }
    }

    /// `ReceivedByte { byte }`: store and advance, or report the overflow and
    /// start over.
    pub open spec fn received(self, byte: u8) -> (BusState, Result<(), SMBusProtocolError>) {
        if self.cursor >= RECEIVE_BUFFER_SIZE {
            (
                BusState::initial(),
                Err(SMBusProtocolError::InvalidWriteBound((self.cursor - 2) as u8)),
            )
        } else {
            (
                BusState {
                    cursor: (self.cursor + 1) as u8,
                    buffer: self.buffer.update(self.cursor as int, byte),
                    ..self
                },
                Ok(()),
            )
        }
    }

    pub open spec fn reading_block(self) -> bool {
        self.transfer matches Some(StatefulTransfer::Block(_))
    }

    /// The handler query that a `RequestedByte` in this state consults.
    pub open spec fn read_query(self) -> ReadQuery {
        if self.direction != Some(Direction::SlaveToMaster) {
            ReadQuery::Nothing
        } else if self.cursor == 0 {
            ReadQuery::ReadByte
        } else if self.cursor == 1 {
            ReadQuery::Register(self.register())
        } else if self.reading_block() {
            ReadQuery::BlockByte(self.register(), (self.cursor - 1) as u8)
        } else {
            ReadQuery::Nothing
        }
    }

    /// `RequestedByte`, given the handler's answers: the next state, and
    /// the byte handed to the master (`Ok(None)`: the byte is left as it was).
    pub open spec fn requested(self, replies: ReadReplies) -> (
        BusState,
        Result<Option<u8>, SMBusProtocolError>,
    ) {
        if self.direction != Some(Direction::SlaveToMaster) {
            (self, Err(SMBusProtocolError::WrongDirection(self.direction)))
        } else if self.cursor == 0 {
            match replies.read_byte {
                Some(v) => (self.advanced(), Ok(Some(v))),
                None => (self, Err(SMBusProtocolError::ReadByteUnsupported)),
            }
        } else if self.cursor == 1 {
            if let Some(v) = replies.byte_data {
                (
                    BusState { transfer: Some(StatefulTransfer::Byte(v)), ..self }.advanced(),
                    Ok(Some(v)),
                )
            } else if let Some(w) = replies.word_data {
                (
                    BusState { transfer: Some(StatefulTransfer::Word(w)), ..self }.advanced(),
                    Ok(Some(low_byte(w))),
                )
            } else if let Some(n) = replies.block_data {
                (
                    BusState { transfer: Some(StatefulTransfer::Block(n)), ..self }.advanced(),
                    Ok(Some(n)),
                )
            } else {
                (self, Err(SMBusProtocolError::InvalidReadRegister(self.register())))
            }
        } else if self.cursor == 2 {
            match self.transfer {
                Some(StatefulTransfer::Word(w)) => (
                    BusState { transfer: None, ..self }.advanced(),
                    Ok(Some(high_byte(w))),
                ),
                Some(StatefulTransfer::Block(_)) => match replies.block_data {
                    Some(v) => (self.advanced(), Ok(Some(v))),
                    None => (self, Err(SMBusProtocolError::InvalidReadBound(1))),
                },
                _ => (self, Err(SMBusProtocolError::InvalidReadBound(2))),
            }
        } else if self.reading_block() {
            (self.advanced(), Ok(replies.block_data))
        } else {
            (self.advanced(), Ok(None))
        }
    }

    /// The write that `Stopped` hands to the handler, or why there is none.
    pub open spec fn write_request(self) -> Result<Option<WriteRequest>, SMBusProtocolError> {
        if self.direction != Some(Direction::MasterToSlave) {
            Ok(None)
        } else if self.cursor == 0 {
            Err(SMBusProtocolError::QuickCommandUnsupported)
        } else if self.cursor == 1 {
            Ok(Some(WriteRequest::Byte(self.buffer[0])))
        } else if self.cursor == 2 {
            Ok(Some(WriteRequest::ByteData(self.buffer[0], self.buffer[1])))
        } else if self.cursor == 3 {
            Ok(Some(WriteRequest::WordData(self.buffer[0], word_of(self.buffer[1], self.buffer[2]))))
        } else if self.cursor <= RECEIVE_BUFFER_SIZE {
            if self.buffer[1] > MAX_BLOCK_LEN {
                Err(SMBusProtocolError::InvalidWriteBlockSize(self.buffer[1]))
            } else {
                Ok(Some(WriteRequest::BlockData(self.buffer[0], self.buffer[1])))
            }
        } else {
            Err(SMBusProtocolError::InvalidWriteBound(self.cursor))
        }
    }

    /// The data of a block write: the `count` bytes after register and count.
    pub open spec fn block_payload(self, count: u8) -> Seq<u8> {
        self.buffer.subrange(2, 2 + count)
    }

    /// The outcome of `Stopped`, given whether the handler accepted the write.
    pub open spec fn stop_result(self, accepted: bool) -> Result<(), SMBusProtocolError> {
        match self.write_request() {
            Err(e) => Err(e),
            Ok(None) => Ok(()),
            Ok(Some(w)) => if accepted {
                Ok(())
            } else {
                Err(w.failure_spec())
            },
        }
    }
}

/// The state of one SMBus transaction as the decoder sees it.
#[derive(Debug)]
pub struct SMBusState {
    index: u8,
    received_data: [u8; RECEIVE_BUFFER_SIZE],
    direction: Option<Direction>,
    current_transfer: Option<StatefulTransfer>,
}

impl View for SMBusState {
    type V = BusState;

    closed spec fn view(&self) -> BusState {
        BusState {
            cursor: self.index,
            buffer: self.received_data@,
            direction: self.direction,
            transfer: self.current_transfer,
        }
    }
}

impl Default for SMBusState {
    fn default() -> (r: SMBusState)
        ensures
            r@ == BusState::initial(),
    {
        let received_data: [u8; RECEIVE_BUFFER_SIZE] = vstd::array::array_fill_for_copy_types::<
            u8,
            RECEIVE_BUFFER_SIZE,
        >(0u8);
        let r = SMBusState { index: 0, received_data, direction: None, current_transfer: None };
        assert(r@.buffer =~= BusState::initial().buffer);
        r
    }
}

impl SMBusState {
    /// A start or repeated start: records the direction, keeps the bytes.
    pub fn initiate(&mut self, direction: Direction)
        ensures
            final(self)@ == old(self)@.initiated(direction),
    {
        self.direction = Some(direction);
    }

    /// A byte from the master. Past the buffer's capacity the byte is refused
    /// and the whole transaction state starts over.
    pub fn receive_byte(&mut self, byte: u8) -> (r: Result<(), SMBusProtocolError>)
        ensures
            (final(self)@, r) == old(self)@.received(byte),
    {
        if self.index as usize >= RECEIVE_BUFFER_SIZE {
            let err = SMBusProtocolError::InvalidWriteBound(self.index - 2);
            *self = SMBusState::default();
            return Err(err);
        }
        self.received_data[self.index as usize] = byte;
        self.index = self.index + 1;
        Ok(())
    }

    /// Which handler query the next `RequestedByte` consults.
    pub fn read_query(&self) -> (q: ReadQuery)
        ensures
            q == self@.read_query(),
    {
        if self.direction != Some(Direction::SlaveToMaster) {
            ReadQuery::Nothing
        } else if self.index == 0 {
            ReadQuery::ReadByte
        } else if self.index == 1 {
            ReadQuery::Register(self.received_data[0])
        } else if let Some(StatefulTransfer::Block(_)) = self.current_transfer {
            ReadQuery::BlockByte(self.received_data[0], self.index - 1)
        } else {
            ReadQuery::Nothing
        }
    }

    fn advance(&mut self)
        ensures
            final(self)@ == old(self)@.advanced(),
    {
        if self.index < 255 {
            self.index = self.index + 1;
        }
    }

    /// A byte requested by the master, resolved from the handler's answers.
    /// `Ok(Some(b))`: hand `b` to the master; `Ok(None)`: leave the byte as is.
    pub fn request_byte(&mut self, replies: ReadReplies) -> (r: Result<Option<u8>, SMBusProtocolError>)
        ensures
            (final(self)@, r) == old(self)@.requested(replies),
    {
        if self.direction != Some(Direction::SlaveToMaster) {
            return Err(SMBusProtocolError::WrongDirection(self.direction));
        }
        let out = match self.index {
            0 => match replies.read_byte {
                Some(v) => Some(v),
                None => return Err(SMBusProtocolError::ReadByteUnsupported),
            },
            1 => {
                let register = self.received_data[0];
                if let Some(v) = replies.byte_data {
                    self.current_transfer = Some(StatefulTransfer::Byte(v));
                    Some(v)
                } else if let Some(w) = replies.word_data {
                    self.current_transfer = Some(StatefulTransfer::Word(w));
                    assert((w as u8) == low_byte(w)) by (bit_vector);
                    Some(w as u8)
                } else if let Some(n) = replies.block_data {
                    self.current_transfer = Some(StatefulTransfer::Block(n));
                    Some(n)
                } else {
                    return Err(SMBusProtocolError::InvalidReadRegister(register));
                }
            },
            2 => match self.current_transfer {
                Some(StatefulTransfer::Word(w)) => {
                    self.current_transfer = None;
                    assert(((w >> 8) as u8) == high_byte(w)) by (bit_vector);
                    Some((w >> 8) as u8)
                },
                Some(StatefulTransfer::Block(_)) => match replies.block_data {
                    Some(v) => Some(v),
                    None => return Err(SMBusProtocolError::InvalidReadBound(1)),
                },
                _ => return Err(SMBusProtocolError::InvalidReadBound(2)),
            },
            _ => if let Some(StatefulTransfer::Block(_)) = self.current_transfer {
                replies.block_data
            } else {
                None
            },
        };
        self.advance();
        Ok(out)
    }

    /// The write that ends this transaction, or why there is none.
    pub fn write_request(&self) -> (r: Result<Option<WriteRequest>, SMBusProtocolError>)
        ensures
            r == self@.write_request(),
    {
        if self.direction != Some(Direction::MasterToSlave) {
            return Ok(None);
        }
        let data = &self.received_data;
        match self.index {
            0 => Err(SMBusProtocolError::QuickCommandUnsupported),
            1 => Ok(Some(WriteRequest::Byte(data[0]))),
            2 => Ok(Some(WriteRequest::ByteData(data[0], data[1]))),
            3 => {
                let lo = data[1];
                let hi = data[2];
                let word: u16 = lo as u16 | (hi as u16) << 8;
                assert(word == word_of(lo, hi)) by (bit_vector)
                    requires
                        word == (lo as u16 | (hi as u16) << 8),
                ;
                Ok(Some(WriteRequest::WordData(data[0], word)))
            },
            n => if n as usize <= RECEIVE_BUFFER_SIZE {
                let count = data[1];
                if count > MAX_BLOCK_LEN {
                    Err(SMBusProtocolError::InvalidWriteBlockSize(count))
                } else {
                    Ok(Some(WriteRequest::BlockData(data[0], count)))
                }
            } else {
                Err(SMBusProtocolError::InvalidWriteBound(n))
            },
        }
    }

    /// The data handed to a block write of `count` bytes.
    pub fn block_payload(&self, count: u8) -> (r: &[u8])
        requires
            count <= MAX_BLOCK_LEN,
        ensures
            r@ == self@.block_payload(count),
            r@.len() == count,
    {
        &self.received_data[2..2 + count as usize]
    }

    /// The end of the transaction: its outcome, given whether the handler
    /// accepted the write; every field starts over.
    pub fn stop(&mut self, accepted: bool) -> (r: Result<(), SMBusProtocolError>)
        ensures
            final(self)@ == BusState::initial(),
            r == old(self)@.stop_result(accepted),
    {
        let r = match self.write_request() {
            Err(e) => Err(e),
            Ok(None) => Ok(()),
            Ok(Some(w)) => if accepted {
                Ok(())
            } else {
                Err(w.failure())
            },
        };
        *self = SMBusState::default();
        r
    }
}

} // verus!
