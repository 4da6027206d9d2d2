use vstd::prelude::*;

use crate::handler::CommandHandler;
use crate::state::{high_byte, low_byte, word_of, MAX_BLOCK_LEN};

verus! {

/// The register map of a small demonstration device: three byte registers,
/// two word views of them, and a 32-byte block.
///
/// | register | operation                                             |
/// |----------|-------------------------------------------------------|
/// | 1, 2, 3  | read byte data: byte A, B, C                          |
/// | 4, 5, 6  | write byte data: byte A, B, C                         |
/// | 7, 8     | read word data: A and B, B and C (low byte first)     |
/// | 9, 10    | write word data: A and B, B and C (low byte first)    |
/// | 11       | read block data: 8 bytes, block bytes 0 to 7          |
/// | 12       | read block data: 16 bytes, block bytes 1 to 16        |
/// | 13       | write block data: exactly 20 bytes into the block     |
/// | 14       | write block data: up to 32 bytes, which sets the count|
/// | 15       | read block data: the count, then block bytes 1 on     |
///
/// Receive byte reads byte A; send byte writes it.
#[derive(Debug)]
pub struct Data {
    pub byte_a: u8,
    pub byte_b: u8,
    pub byte_c: u8,
    pub count: usize,
    pub block: [u8; 32],
}

pub open spec fn min(a: int, b: int) -> int {
    if a < b { a } else { b }
}

/// `block` with its first `n` bytes taken from `data`.
pub open spec fn overwritten(block: Seq<u8>, data: Seq<u8>, n: int) -> Seq<u8> {
    Seq::new(block.len(), |i: int| if i < n { data[i] } else { block[i] })
}

impl Data {
    /// What a read of block data answers for `reg` and `index`.
    pub open spec fn block_read(self, reg: u8, index: u8) -> Option<u8> {
        if reg == 11 {
            if index == 0 {
                Some(8)
            } else if index <= 8 {
                Some(self.block@[index - 1])
            } else {
                None
            }
        } else if reg == 12 {
            if index == 0 {
                Some(16)
            } else if index <= 16 {
                Some(self.block@[index as int])
            } else {
                None
            }
        } else if reg == 15 {
            if index == 0 {
                Some(self.count as u8)
            } else if index < 32 {
                Some(self.block@[index as int])
            } else {
                None
            }
        } else {
            None
        }
    }

    /// The registers that accept a block write of `count` bytes.
    pub open spec fn accepts_block(reg: u8, count: u8) -> bool {
        count <= MAX_BLOCK_LEN && (reg == 13 && count == 20 || reg == 14)
    }
}

impl Default for Data {
    fn default() -> (r: Data)
        ensures
            r.byte_a == 0 && r.byte_b == 0 && r.byte_c == 0,
            r.count == 0,
            forall|i: int| 0 <= i < 32 ==> r.block@[i] == 0,
    {
        let block: [u8; 32] = vstd::array::array_fill_for_copy_types::<u8, 32>(0u8);
        Data { byte_a: 0, byte_b: 0, byte_c: 0, count: 0, block }
    }
}

impl CommandHandler for Data {
    type Error = ();

    open spec fn read_byte_spec(&self) -> Option<u8> {
        Some(self.byte_a)
    }

    open spec fn read_byte_data_spec(&self, reg: u8) -> Option<u8> {
        if reg == 1 {
            Some(self.byte_a)
        } else if reg == 2 {
            Some(self.byte_b)
        } else if reg == 3 {
            Some(self.byte_c)
        } else {
            None
        }
    }

    open spec fn read_word_data_spec(&self, reg: u8) -> Option<u16> {
        if reg == 7 {
            Some(word_of(self.byte_a, self.byte_b))
        } else if reg == 8 {
            Some(word_of(self.byte_b, self.byte_c))
        } else {
            None
        }
    }

    open spec fn read_block_data_spec(&self, reg: u8, index: u8) -> Option<u8> {
        self.block_read(reg, index)
    }

    fn handle_read_byte(&self) -> Option<u8> {
        Some(self.byte_a)
    }

    fn handle_read_byte_data(&self, reg: u8) -> Option<u8> {
        match reg {
            1 => Some(self.byte_a),
            2 => Some(self.byte_b),
            3 => Some(self.byte_c),
            _ => None,
        }
    }

    fn handle_read_word_data(&self, reg: u8) -> Option<u16> {
        match reg {
            7 => Some(word(self.byte_a, self.byte_b)),
            8 => Some(word(self.byte_b, self.byte_c)),
            _ => None,
        }
    }

    fn handle_read_block_data(&self, reg: u8, index: u8) -> Option<u8> {
        match reg {
            11 => match index {
                0 => Some(8),
                1..=8 => Some(self.block[index as usize - 1]),
                _ => None,
            },
            12 => match index {
                0 => Some(16),
                1..=16 => Some(self.block[index as usize]),
                _ => None,
            },
            15 => if index == 0 {
                Some(self.count as u8)
            } else if index < 32 {
                Some(self.block[index as usize])
            } else {
                None
            },
            _ => None,
        }
    }

    fn handle_write_byte(&mut self, data: u8) -> (r: Result<(), ()>)
        ensures
            r is Ok,
            *final(self) == (Data { byte_a: data, ..*old(self) }),
    {
        self.byte_a = data;
        Ok(())
    }

    fn handle_write_byte_data(&mut self, reg: u8, data: u8) -> (r: Result<(), ()>)
        ensures
            r is Ok <==> 4 <= reg <= 6,
            *final(self) == if reg == 4 {
                Data { byte_a: data, ..*old(self) }
            } else if reg == 5 {
                Data { byte_b: data, ..*old(self) }
            } else if reg == 6 {
                Data { byte_c: data, ..*old(self) }
            } else {
                *old(self)
            },
    {
        match reg {
            4 => {
                self.byte_a = data;
                Ok(())
            },
            5 => {
                self.byte_b = data;
                Ok(())
            },
            6 => {
                self.byte_c = data;
                Ok(())
            },
            _ => Err(()),
        }
    }

    fn handle_write_word_data(&mut self, reg: u8, data: u16) -> (r: Result<(), ()>)
        ensures
            r is Ok <==> reg == 9 || reg == 10,
            *final(self) == if reg == 9 {
                Data { byte_a: low_byte(data), byte_b: high_byte(data), ..*old(self) }
            } else if reg == 10 {
                Data { byte_b: low_byte(data), byte_c: high_byte(data), ..*old(self) }
            } else {
                *old(self)
            },
    {
        match reg {
            9 => {
                self.byte_a = low(data);
                self.byte_b = high(data);
                Ok(())
            },
            10 => {
                self.byte_b = low(data);
                self.byte_c = high(data);
                Ok(())
            },
            _ => Err(()),
        }
    }

    fn handle_write_block_data(&mut self, reg: u8, count: u8, block: &[u8]) -> (r: Result<(), ()>)
        ensures
            r is Ok <==> Data::accepts_block(reg, count),
            r is Ok ==> {
                &&& final(self).block@ == overwritten(
                    old(self).block@,
                    block@,
                    min(count as int, block@.len() as int),
                )
                &&& final(self).count == if reg == 14 {
                    count as usize
                } else {
                    old(self).count
                }
                &&& final(self).byte_a == old(self).byte_a
                &&& final(self).byte_b == old(self).byte_b
                &&& final(self).byte_c == old(self).byte_c
            },
            r is Err ==> *final(self) == *old(self),
    {
        if count > MAX_BLOCK_LEN {
            return Err(());
        }
        match reg {
            13 => {
                if count != 20 {
                    return Err(());
                }
                self.copy_block(count, block);
                Ok(())
            },
            14 => {
                self.count = count as usize;
                self.copy_block(count, block);
                Ok(())
            },
            _ => Err(()),
        }
    }
}

impl Data {
    /// Copies the first `count` bytes of `data` (as many as it has) to the
    /// start of the block.
    fn copy_block(&mut self, count: u8, data: &[u8])
        requires
            count <= MAX_BLOCK_LEN,
        ensures
            final(self).block@ == overwritten(
                old(self).block@,
                data@,
                min(count as int, data@.len() as int),
            ),
            final(self).count == old(self).count,
            final(self).byte_a == old(self).byte_a,
            final(self).byte_b == old(self).byte_b,
            final(self).byte_c == old(self).byte_c,
    {
        let n: usize = if (count as usize) < data.len() {
            count as usize
        } else {
            data.len()
        };
        let mut i: usize = 0;
        while i < n
            invariant
                n == min(count as int, data@.len() as int),
                n <= 32,
                i <= n,
                self.block@ == overwritten(old(self).block@, data@, i as int),
                self.count == old(self).count,
                self.byte_a == old(self).byte_a,
                self.byte_b == old(self).byte_b,
                self.byte_c == old(self).byte_c,
            decreases n - i,
        {
            self.block[i] = data[i];
            i = i + 1;
            assert(self.block@ =~= overwritten(old(self).block@, data@, i as int));
        }
    }
}

/// The word whose low byte is `lo` and high byte `hi`.
fn word(lo: u8, hi: u8) -> (r: u16)
    ensures
        r == word_of(lo, hi),
{
    let r: u16 = lo as u16 | (hi as u16) << 8;
    assert(r == word_of(lo, hi)) by (bit_vector)
        requires
            r == (lo as u16 | (hi as u16) << 8),
    ;
    r
}

fn low(w: u16) -> (r: u8)
    ensures
        r == low_byte(w),
{
    assert((w as u8) == low_byte(w)) by (bit_vector);
    w as u8
}

fn high(w: u16) -> (r: u8)
    ensures
        r == high_byte(w),
{
    assert(((w >> 8) as u8) == high_byte(w)) by (bit_vector);
    (w >> 8) as u8
}

} // verus!
