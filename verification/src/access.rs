//! What an access to a register says on the bus, and what it gives back.
//!
//! A transfer names a register by a value and an index. For the blocks of the RTL2832U the
//! value is the address, and the index the number of the block in its high byte; a write
//! has 0x10 in the low byte. For the demodulator the value is the address in the high byte
//! with 0x20 below it, and the index the page. For a device on the I2C bus, which is block
//! 6, the value is the address of the device, and the number of the register goes ahead of
//! the data.

use vstd::prelude::*;

use crate::exchange::{goes_on, Answer, Flow, Port, Run, Transfer};
use crate::reg::Block;
use crate::usb::{
    demod_read_reg_run, demod_write_reg_run, i2c_read_reg_run, i2c_read_run, i2c_write_reg_run,
    i2c_write_run, read_array_run, read_reg_run, write_array_run, write_reg_run,
};
use crate::wire::{held_after_one, held_at, Place};

verus! {

/// The numbers of the blocks.
pub open spec fn block_number(block: Block) -> int {
    match block {
        Block::Demod => 0,
        Block::Usb => 1,
        Block::Sys => 2,
        Block::Tuner => 3,
        Block::Rom => 4,
        Block::Ir => 5,
        Block::Iic => 6,
    }
}

/// Whether a run asked for one transfer more, `t`, and for nothing else.
pub open spec fn asked_once<A>(p: Port, r: Run<(), A>, t: Transfer) -> bool {
    &&& r.port.sent == p.sent.push(t)
    &&& r.port.replies == p.replies
}

/// The answer to the transfer that comes after those of `p`, where it is at hand.
pub open spec fn next_answer(p: Port) -> Option<Answer> {
    if p.sent.len() < p.replies.len() {
        Some(p.replies[p.sent.len() as int])
    } else {
        None
    }
}

/// Whether `v` is the byte that an answer brings: its first one, or zero where none came.
pub open spec fn gives_byte(answer: Option<Answer>, v: int) -> bool {
    answer matches Some(Answer::Received(data)) && v == (if data.len() > 0 {
        data[0] as int
    } else {
        0
    })
}

/// Reading a register of a block asks for one byte at its address, and gives it.
pub proof fn register_is_read(p: Port, b: Block, addr: u16)
    ensures
        ({
            let r = read_reg_run(p, b, addr);
            &&& asked_once(
                p,
                r,
                Transfer::In { value: addr, index: (256 * block_number(b)) as u16, len: 1 },
            )
            &&& r.flow matches Flow::Done(v) ==> gives_byte(next_answer(p), v as int)
            &&& next_answer(p) matches Some(Answer::Received(_)) ==> r.flow is Done
        }),
{
}

/// Reading a register of the demodulator asks for one byte at its page and address, and
/// gives it.
pub proof fn demodulator_is_read(p: Port, page: u8, addr: u16)
    requires
        addr < 256,
    ensures
        ({
            let r = demod_read_reg_run(p, page, addr);
            &&& asked_once(
                p,
                r,
                Transfer::In { value: (256 * addr + 32) as u16, index: page as u16, len: 1 },
            )
            &&& r.flow matches Flow::Done(v) ==> gives_byte(next_answer(p), v as int)
            &&& next_answer(p) matches Some(Answer::Received(_)) ==> r.flow is Done
        }),
{
}

/// Writing a register of a block, of two bytes, puts the high byte at its address and the
/// low one behind it; of one byte, the low one at its address. It goes through exactly
/// where all of them are taken.
pub proof fn register_is_written(p: Port, b: Block, addr: u16, val: u16, len: u8)
    requires
        1 <= len <= 2,
        block_number(b) > 0,
    ensures
        ({
            let r = write_reg_run(p, b, addr, val, len);
            let first = held_at(
                r.port.sent,
                Place::Block { number: block_number(b), addr: addr as int },
            );
            let second = held_at(
                r.port.sent,
                Place::Block { number: block_number(b), addr: addr + 1 },
            );
            &&& r.port.sent.len() == p.sent.len() + 1
            &&& goes_on(p.sent, r.port.sent)
            &&& len == 1 ==> first == Some((val % 256) as u8)
            &&& len == 2 ==> first == Some((val / 256) as u8) && second == Some((val % 256) as u8)
            &&& r.flow is Done <==> next_answer(p) == Some(Answer::Sent(len as nat))
        }),
{
    let r = write_reg_run(p, b, addr, val, len);
    let t = r.port.sent.last();
    assert(r.port.sent =~= p.sent.push(t));
    held_after_one(p.sent, t, Place::Block { number: block_number(b), addr: addr as int });
    held_after_one(p.sent, t, Place::Block { number: block_number(b), addr: addr + 1 });
}

/// Bytes written to a block go to its address as they are, and as many count as taken as
/// were.
pub proof fn bytes_are_written(p: Port, b: Block, addr: u16, data: Seq<u8>)
    ensures
        ({
            let r = write_array_run(p, b, addr, data);
            &&& asked_once(
                p,
                r,
                Transfer::Out { value: addr, index: (256 * block_number(b) + 16) as u16, data },
            )
            &&& forall|n: nat|
                (#[trigger] next_answer(p) == Some(Answer::Sent(n))) == (r.flow == Flow::Done(n))
        }),
{
}

/// Bytes read from a block are those that came from its address, no more than were asked
/// for.
pub proof fn bytes_are_read(p: Port, b: Block, addr: u16, len: nat)
    ensures
        ({
            let r = read_array_run(p, b, addr, len);
            &&& asked_once(
                p,
                r,
                Transfer::In { value: addr, index: (256 * block_number(b)) as u16, len },
            )
            &&& r.flow matches Flow::Done(data) ==> data.len() <= len && (next_answer(
                p,
            ) matches Some(Answer::Received(came)) && (came.len() <= len ==> data == came) && (
            came.len() > len ==> data == came.take(len as int)))
            &&& next_answer(p) matches Some(Answer::Received(_)) ==> r.flow is Done
        }),
{
}

/// Writing a register of an I2C device sends its number and the value in one message.
pub proof fn i2c_register_is_written(p: Port, i2c_addr: u8, reg: u8, val: u8)
    ensures
        ({
            let r = i2c_write_reg_run(p, i2c_addr, reg, val);
            &&& asked_once(
                p,
                r,
                Transfer::Out { value: i2c_addr as u16, index: 0x0610, data: seq![reg, val] },
            )
            &&& r.flow is Done <==> next_answer(p) matches Some(Answer::Sent(_))
        }),
{
}

/// Reading a register of an I2C device sends its number, then asks for a byte, and gives
/// that.
pub proof fn i2c_register_is_read(p: Port, i2c_addr: u8, reg: u8)
    requires
        i2c_read_reg_run(p, i2c_addr, reg).flow is Done,
    ensures
        ({
            let r = i2c_read_reg_run(p, i2c_addr, reg);
            let at = p.sent.len() as int;
            let named = Transfer::Out { value: i2c_addr as u16, index: 0x0610, data: seq![reg] };
            let asked = Transfer::In { value: i2c_addr as u16, index: 0x0600, len: 1 };
            &&& r.port.sent == p.sent.push(named).push(asked)
            &&& gives_byte(
                next_answer(Port { sent: p.sent.push(named), replies: p.replies }),
                r.flow->Done_0 as int,
            )
        }),
{
}

/// A message to an I2C device, and one from it, go as they are.
pub proof fn i2c_messages_go_as_they_are(p: Port, i2c_addr: u8, data: Seq<u8>, len: nat)
    ensures
        asked_once(
            p,
            i2c_write_run(p, i2c_addr, data),
            Transfer::Out { value: i2c_addr as u16, index: 0x0610, data },
        ),
        asked_once(
            p,
            i2c_read_run(p, i2c_addr, len),
            Transfer::In { value: i2c_addr as u16, index: 0x0600, len },
        ),
{
}

/// Writing a register of the demodulator, where it goes through, had all its bytes taken and
/// was followed by a read of register 0x01 on page 0x0a.
pub proof fn demodulator_is_written(p: Port, page: u8, addr: u16, val: u16, len: u8)
    requires
        page < 16,
        addr < 256,
        1 <= len <= 2,
        demod_write_reg_run(p, page, addr, val, len).flow is Done,
    ensures
        ({
            let r = demod_write_reg_run(p, page, addr, val, len);
            let at = p.sent.len() as int;
            &&& r.port.sent.len() == at + 2
            &&& next_answer(p) == Some(Answer::Sent(len as nat))
            &&& r.port.sent[at + 1] == (Transfer::In { value: 0x0120, index: 0x000a, len: 1 })
        }),
{
}

} // verus!
