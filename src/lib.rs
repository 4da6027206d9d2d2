
mod device;
mod event;
mod handler;
mod laws;
mod state;

pub use device::Data;
pub use event::{Direction, I2CEvent, SMBusProtocolError};
pub use handler::CommandHandler;
pub use laws::BusEvent;
pub use state::{
    BusState, ReadQuery, ReadReplies, SMBusState, StatefulTransfer, WriteRequest,
    MAX_BLOCK_LEN, RECEIVE_BUFFER_SIZE,
};
