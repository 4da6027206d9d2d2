use smbus_request_parser::{CommandHandler, Data, Direction, I2CEvent, SMBusState};

fn sample() -> Data {
    let mut block = [0u8; 32];
    for (i, b) in block.iter_mut().enumerate() {
        *b = 100 + i as u8;
    }
    Data { byte_a: 0x11, byte_b: 0x22, byte_c: 0x33, count: 5, block }
}

#[test]
fn device_default_is_zero() {
    let d = Data::default();
    assert_eq!((d.byte_a, d.byte_b, d.byte_c, d.count), (0, 0, 0, 0));
    assert_eq!(d.block, [0u8; 32]);
}

#[test]
fn device_byte_registers() {
    let mut d = sample();
    assert_eq!(d.handle_read_byte(), Some(0x11));
    assert_eq!(d.handle_read_byte_data(1), Some(0x11));
    assert_eq!(d.handle_read_byte_data(2), Some(0x22));
    assert_eq!(d.handle_read_byte_data(3), Some(0x33));
    assert_eq!(d.handle_read_byte_data(4), None);
    assert_eq!(d.handle_write_byte_data(4, 0x44), Ok(()));
    assert_eq!(d.handle_write_byte_data(5, 0x55), Ok(()));
    assert_eq!(d.handle_write_byte_data(6, 0x66), Ok(()));
    assert_eq!(d.handle_write_byte_data(1, 0x99), Err(()));
    assert_eq!((d.byte_a, d.byte_b, d.byte_c), (0x44, 0x55, 0x66));
    assert_eq!(d.handle_write_byte(0x77), Ok(()));
    assert_eq!(d.byte_a, 0x77);
}

#[test]
fn device_word_registers() {
    let mut d = sample();
    assert_eq!(d.handle_read_word_data(7), Some(0x2211));
    assert_eq!(d.handle_read_word_data(8), Some(0x3322));
    assert_eq!(d.handle_read_word_data(9), None);
    assert_eq!(d.handle_write_word_data(9, 0xbbaa), Ok(()));
    assert_eq!((d.byte_a, d.byte_b, d.byte_c), (0xaa, 0xbb, 0x33));
    assert_eq!(d.handle_write_word_data(10, 0xeedd), Ok(()));
    assert_eq!((d.byte_a, d.byte_b, d.byte_c), (0xaa, 0xdd, 0xee));
    assert_eq!(d.handle_write_word_data(7, 0), Err(()));
    assert_eq!((d.byte_a, d.byte_b, d.byte_c), (0xaa, 0xdd, 0xee));
}

#[test]
fn device_block_reads() {
    let d = sample();
    assert_eq!(d.handle_read_block_data(11, 0), Some(8));
    assert_eq!(d.handle_read_block_data(11, 1), Some(100));
    assert_eq!(d.handle_read_block_data(11, 8), Some(107));
    assert_eq!(d.handle_read_block_data(11, 9), None);
    assert_eq!(d.handle_read_block_data(12, 0), Some(16));
    assert_eq!(d.handle_read_block_data(12, 1), Some(101));
    assert_eq!(d.handle_read_block_data(12, 16), Some(116));
    assert_eq!(d.handle_read_block_data(12, 17), None);
    assert_eq!(d.handle_read_block_data(15, 0), Some(5));
    assert_eq!(d.handle_read_block_data(15, 31), Some(131));
    assert_eq!(d.handle_read_block_data(15, 32), None);
    assert_eq!(d.handle_read_block_data(15, 255), None);
    assert_eq!(d.handle_read_block_data(13, 0), None);
}

#[test]
fn device_block_writes() {
    let mut d = sample();
    let data: Vec<u8> = (1..=20).collect();
    assert_eq!(d.handle_write_block_data(13, 19, &data), Err(()));
    assert_eq!(d.block[0], 100);
    assert_eq!(d.handle_write_block_data(13, 20, &data), Ok(()));
    assert_eq!(&d.block[..20], &data[..]);
    assert_eq!(d.block[20], 120);
    assert_eq!(d.count, 5);
    assert_eq!(d.handle_write_block_data(14, 3, &[7, 8, 9, 10]), Ok(()));
    assert_eq!(&d.block[..4], &[7, 8, 9, 4]);
    assert_eq!(d.count, 3);
    assert_eq!(d.handle_write_block_data(14, 33, &[1; 40]), Err(()));
    assert_eq!(d.handle_write_block_data(12, 3, &[1, 2, 3]), Err(()));
    assert_eq!(d.handle_write_block_data(14, 6, &[5, 6]), Ok(()));
    assert_eq!(&d.block[..4], &[5, 6, 9, 4]);
    assert_eq!(d.count, 6);
}

#[test]
fn device_block_write_then_count_read() {
    let mut d = Data::default();
    let mut s = SMBusState::default();
    let mut event = I2CEvent::Initiated { direction: Direction::MasterToSlave };
    d.handle_i2c_event(&mut event, &mut s).unwrap();
    for b in [14u8, 4, 0xa0, 0xa1, 0xa2, 0xa3] {
        event = I2CEvent::ReceivedByte { byte: b };
        d.handle_i2c_event(&mut event, &mut s).unwrap();
    }
    event = I2CEvent::Stopped;
    d.handle_i2c_event(&mut event, &mut s).unwrap();
    assert_eq!(d.count, 4);
    assert_eq!(&d.block[..4], &[0xa0, 0xa1, 0xa2, 0xa3]);

    let mut event = I2CEvent::Initiated { direction: Direction::MasterToSlave };
    d.handle_i2c_event(&mut event, &mut s).unwrap();
    event = I2CEvent::ReceivedByte { byte: 15 };
    d.handle_i2c_event(&mut event, &mut s).unwrap();
    event = I2CEvent::Initiated { direction: Direction::SlaveToMaster };
    d.handle_i2c_event(&mut event, &mut s).unwrap();
    let mut out = [0u8; 3];
    for o in out.iter_mut() {
        let mut e = I2CEvent::RequestedByte { byte: o };
        d.handle_i2c_event(&mut e, &mut s).unwrap();
    }
    assert_eq!(out, [4, 0xa1, 0xa2]);
}
