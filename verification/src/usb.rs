//! Register access over control transfers: register blocks, demodulator pages,
//! the I2C bus behind the repeater, GPIO pins, the baseband.

use vstd::prelude::*;
use vstd::slice::*;
use vstd::string::*;

use crate::error::{Fault, RtlSdrError};
use crate::exchange::{
    cut_short, fetch, fetch_resumes, flow_of, flow_of_bytes, flow_of_count, in_step, later,
    resumes, send, send_resumes, Answer, Exchange, Flow, Halt, Port, Run, Transfer,
};
use crate::reg::{
    Block, DEMOD_CTL, DEMOD_CTL_1, GPD, GPO, GPOE, USB_EPA_CTL, USB_EPA_MAXPKT, USB_SYSCTL,
};
use crate::text::{decimal, decimal_text, signed_decimal, signed_decimal_text};

verus! {

/// Milliseconds that a control transfer may take.
pub const CTRL_TIMEOUT: u64 = 300;

/// Number of FIR coefficients.
pub const FIR_LEN: usize = 16;

/// Returns the milliseconds that a control transfer may take.
pub fn ctrl_timeout() -> (r: u64)
    ensures
        r == CTRL_TIMEOUT,
{
    CTRL_TIMEOUT
}

/// The index field of a read from `block`.
pub open spec fn read_index(block: Block) -> u16 {
    (256 * block.number()) as u16
}

/// The index field of a write to `block`.
pub open spec fn write_index(block: Block) -> u16 {
    (256 * block.number() + 16) as u16
}

fn index_for_read(block: Block) -> (r: u16)
    ensures
        r == read_index(block),
{
    let number: u16 = block.code();
    assert(number << 8 == 256 * number) by (bit_vector)
        requires
            number <= 6,
    ;
    number << 8
}

fn index_for_write(block: Block) -> (r: u16)
    ensures
        r == write_index(block),
{
    let number: u16 = block.code();
    assert((number << 8) | 0x10 == 256 * number + 16) by (bit_vector)
        requires
            number <= 6,
    ;
    (number << 8) | 0x10
}

/// Reading `len` bytes at `addr` of `block`.
pub open spec fn read_array_run(p: Port, block: Block, addr: u16, len: nat) -> Run<(), Seq<u8>> {
    fetch(p, addr, read_index(block), len)
}

/// Reads at most `len` bytes from a register block.
pub fn read_array(port: &mut Exchange, block: Block, addr: u16, len: usize) -> (r: Result<
    Vec<u8>,
    Halt,
>)
    ensures
        (Run { state: (), port: final(port)@, flow: flow_of_bytes(r) }) == read_array_run(
            old(port)@,
            block,
            addr,
            len as nat,
        ),
{
    port.control_in(addr, index_for_read(block), len)
}

/// Writing `data` at `addr` of `block`.
pub open spec fn write_array_run(p: Port, block: Block, addr: u16, data: Seq<u8>) -> Run<(), nat> {
    send(p, Transfer::Out { value: addr, index: write_index(block), data })
}

/// Writes bytes to a register block; returns how many were taken.
pub fn write_array(port: &mut Exchange, block: Block, addr: u16, buf: &[u8]) -> (r: Result<
    usize,
    Halt,
>)
    ensures
        (Run { state: (), port: final(port)@, flow: flow_of_count(r) }) == write_array_run(
            old(port)@,
            block,
            addr,
            buf@,
        ),
{
    port.control_out(addr, index_for_write(block), slice_to_vec(buf))
}

/// The first byte of `data`, or zero where nothing came.
pub open spec fn first_byte(data: Seq<u8>) -> u16 {
    if data.len() > 0 {
        data[0] as u16
    } else {
        0
    }
}

fn leading_byte(data: &Vec<u8>) -> (r: u16)
    ensures
        r == first_byte(data@),
{
    if data.len() > 0 {
        data[0] as u16
    } else {
        0
    }
}

/// A read of one register byte out of the transfer that fetched it.
pub open spec fn byte_read(f: Run<(), Seq<u8>>) -> Run<(), u16> {
    match f.flow {
        Flow::Done(data) => Run { state: (), port: f.port, flow: Flow::Done(first_byte(data)) },
        _ => cut_short(f),
    }
}

/// Reading one byte at `addr` of `block`.
pub open spec fn read_reg_run(p: Port, block: Block, addr: u16) -> Run<(), u16> {
    byte_read(fetch(p, addr, read_index(block), 1))
}

/// Reads a one-byte register. A read that brings no byte counts as zero.
pub fn read_reg(port: &mut Exchange, block: Block, addr: u16) -> (r: Result<u16, Halt>)
    ensures
        (Run { state: (), port: final(port)@, flow: flow_of(r) }) == read_reg_run(
            old(port)@,
            block,
            addr,
        ),
{
    let data: Vec<u8> = port.control_in(addr, index_for_read(block), 1)?;
    Ok(leading_byte(&data))
}

/// The bytes that carry `val` in a register write of `len` bytes: the low byte
/// alone, or the high byte and then the low one.
pub open spec fn reg_bytes(val: u16, len: nat) -> Seq<u8> {
    if len == 0 {
        seq![]
    } else if len == 1 {
        seq![(val % 256) as u8]
    } else {
        seq![(val / 256) as u8, (val % 256) as u8]
    }
}

fn bytes_for_reg(val: u16, len: u8) -> (r: Vec<u8>)
    requires
        len <= 2,
    ensures
        r@ == reg_bytes(val, len as nat),
{
    let mut r: Vec<u8> = Vec::new();
    if len == 2 {
        r.push((val / 256) as u8);
    }
    if len >= 1 {
        r.push((val % 256) as u8);
    }
    assert(r@ =~= reg_bytes(val, len as nat));
    r
}

/// The end of a register write of `len` bytes at `address` of `block`, of which
/// `n` were taken.
pub open spec fn write_check(n: nat, len: u8, block: Block, address: u16) -> Flow<()> {
    if n == len {
        Flow::Done(())
    } else {
        Flow::Failed(Fault::RegisterAccess { block, address })
    }
}

/// Writing `val` as `len` bytes at `addr` of `block`.
pub open spec fn write_reg_run(p: Port, block: Block, addr: u16, val: u16, len: u8) -> Run<(), ()> {
    let w = write_array_run(p, block, addr, reg_bytes(val, len as nat));
    match w.flow {
        Flow::Done(n) => Run {
            state: (),
            port: w.port,
            flow: write_check(n, len, block, addr),
        },
        _ => cut_short(w),
    }
}

/// Writes a register of one or two bytes.
pub fn write_reg(port: &mut Exchange, block: Block, addr: u16, val: u16, len: u8) -> (r: Result<
    (),
    Halt,
>)
    requires
        len <= 2,
    ensures
        (Run { state: (), port: final(port)@, flow: flow_of(r) }) == write_reg_run(
            old(port)@,
            block,
            addr,
            val,
            len,
        ),
{
    let n: usize = port.control_out(addr, index_for_write(block), bytes_for_reg(val, len))?;
    if n != len as usize {
        return Err(Halt::Failed(RtlSdrError::RegisterAccess { block, address: addr }));
    }
    Ok(())
}

/// The value field of an access to the demodulator register `addr`.
pub open spec fn demod_value(addr: u16) -> u16 {
    ((addr % 256) * 256 + 32) as u16
}

fn value_for_demod(addr: u16) -> (r: u16)
    ensures
        r == demod_value(addr),
{
    assert((addr << 8) | 0x20 == (addr % 256) * 256 + 32) by (bit_vector);
    (addr << 8) | 0x20
}

/// Reading one byte of the demodulator register `addr` on `page`.
pub open spec fn demod_read_reg_run(p: Port, page: u8, addr: u16) -> Run<(), u16> {
    byte_read(fetch(p, demod_value(addr), page as u16, 1))
}

/// Reads a one-byte demodulator register.
pub fn demod_read_reg(port: &mut Exchange, page: u8, addr: u16) -> (r: Result<u16, Halt>)
    ensures
        (Run { state: (), port: final(port)@, flow: flow_of(r) }) == demod_read_reg_run(
            old(port)@,
            page,
            addr,
        ),
{
    let data: Vec<u8> = port.control_in(value_for_demod(addr), page as u16, 1)?;
    Ok(leading_byte(&data))
}

/// The index field of a write to the demodulator page `page`.
pub open spec fn demod_write_index(page: u8) -> u16 {
    0x10u16 | page as u16
}

/// Writing `val` as `len` bytes to the demodulator register `addr` on `page`. A
/// read of page 0x0a, register 0x01 follows each write that went through; what
/// it brings, and whether it fails, does not matter.
pub open spec fn demod_write_reg_run(p: Port, page: u8, addr: u16, val: u16, len: u8) -> Run<
    (),
    (),
> {
    let w = send(
        p,
        Transfer::Out {
            value: demod_value(addr),
            index: demod_write_index(page),
            data: reg_bytes(val, len as nat),
        },
    );
    match w.flow {
        Flow::Done(n) => {
            let d = demod_read_reg_run(w.port, 0x0a, 0x01);
            match d.flow {
                Flow::Waiting => cut_short(d),
                _ => Run {
                    state: (),
                    port: d.port,
                    flow: write_check(n, len, Block::Demod, addr),
                },
            }
        },
        _ => cut_short(w),
    }
}

/// Writes a demodulator register of one or two bytes.
pub fn demod_write_reg(port: &mut Exchange, page: u8, addr: u16, val: u16, len: u8) -> (r: Result<
    (),
    Halt,
>)
    requires
        len <= 2,
    ensures
        (Run { state: (), port: final(port)@, flow: flow_of(r) }) == demod_write_reg_run(
            old(port)@,
            page,
            addr,
            val,
            len,
        ),
{
    let n: usize = port.control_out(
        value_for_demod(addr),
        0x10u16 | page as u16,
        bytes_for_reg(val, len),
    )?;
    match demod_read_reg(port, 0x0a, 0x01) {
        Err(Halt::Waiting) => {
            return Err(Halt::Waiting);
        },
        _ => {},
    }
    if n != len as usize {
        return Err(Halt::Failed(RtlSdrError::RegisterAccess { block: Block::Demod, address: addr }));
    }
    Ok(())
}

/// Writing `val` to the register `reg` of the I2C device `i2c_addr`.
pub open spec fn i2c_write_reg_run(p: Port, i2c_addr: u8, reg: u8, val: u8) -> Run<(), ()> {
    let w = write_array_run(p, Block::Iic, i2c_addr as u16, seq![reg, val]);
    match w.flow {
        Flow::Done(_) => Run { state: (), port: w.port, flow: Flow::Done(()) },
        _ => cut_short(w),
    }
}

/// Writes a byte to a register of an I2C device.
pub fn i2c_write_reg(port: &mut Exchange, i2c_addr: u8, reg: u8, val: u8) -> (r: Result<(), Halt>)
    ensures
        (Run { state: (), port: final(port)@, flow: flow_of(r) }) == i2c_write_reg_run(
            old(port)@,
            i2c_addr,
            reg,
            val,
        ),
{
    let data: [u8; 2] = [reg, val];
    assert(data@ =~= seq![reg, val]);
    write_array(port, Block::Iic, i2c_addr as u16, &data)?;
    Ok(())
}

/// Reading the register `reg` of the I2C device `i2c_addr`.
pub open spec fn i2c_read_reg_run(p: Port, i2c_addr: u8, reg: u8) -> Run<(), u8> {
    let w = write_array_run(p, Block::Iic, i2c_addr as u16, seq![reg]);
    match w.flow {
        Flow::Done(_) => {
            let f = read_array_run(w.port, Block::Iic, i2c_addr as u16, 1);
            match f.flow {
                Flow::Done(data) => Run {
                    state: (),
                    port: f.port,
                    flow: Flow::Done(first_byte(data) as u8),
                },
                _ => cut_short(f),
            }
        },
        _ => cut_short(w),
    }
}

/// Reads a byte from a register of an I2C device.
pub fn i2c_read_reg(port: &mut Exchange, i2c_addr: u8, reg: u8) -> (r: Result<u8, Halt>)
    ensures
        (Run { state: (), port: final(port)@, flow: flow_of(r) }) == i2c_read_reg_run(
            old(port)@,
            i2c_addr,
            reg,
        ),
{
    let address: [u8; 1] = [reg];
    assert(address@ =~= seq![reg]);
    write_array(port, Block::Iic, i2c_addr as u16, &address)?;
    let data: Vec<u8> = read_array(port, Block::Iic, i2c_addr as u16, 1)?;
    Ok(leading_byte(&data) as u8)
}

/// Writing `data` to the I2C device `i2c_addr`.
pub open spec fn i2c_write_run(p: Port, i2c_addr: u8, data: Seq<u8>) -> Run<(), nat> {
    write_array_run(p, Block::Iic, i2c_addr as u16, data)
}

/// Writes bytes to an I2C device; returns how many were taken.
pub fn i2c_write(port: &mut Exchange, i2c_addr: u8, buf: &[u8]) -> (r: Result<usize, Halt>)
    ensures
        (Run { state: (), port: final(port)@, flow: flow_of_count(r) }) == i2c_write_run(
            old(port)@,
            i2c_addr,
            buf@,
        ),
{
    write_array(port, Block::Iic, i2c_addr as u16, buf)
}

/// Reading `len` bytes from the I2C device `i2c_addr`.
pub open spec fn i2c_read_run(p: Port, i2c_addr: u8, len: nat) -> Run<(), Seq<u8>> {
    read_array_run(p, Block::Iic, i2c_addr as u16, len)
}

/// Reads at most `len` bytes from an I2C device.
pub fn i2c_read(port: &mut Exchange, i2c_addr: u8, len: usize) -> (r: Result<Vec<u8>, Halt>)
    ensures
        (Run { state: (), port: final(port)@, flow: flow_of_bytes(r) }) == i2c_read_run(
            old(port)@,
            i2c_addr,
            len as nat,
        ),
{
    read_array(port, Block::Iic, i2c_addr as u16, len)
}

/// The system register value `r` with the pin `gpio` set to `on`.
pub open spec fn with_pin(r: u16, gpio: u8, on: bool) -> u16 {
    if on {
        r | (1u16 << gpio)
    } else {
        r & !(1u16 << gpio)
    }
}

/// Reading a system register and writing it back with one pin changed.
pub open spec fn pin_run(p: Port, addr: u16, gpio: u8, on: bool) -> Run<(), ()> {
    let f = read_reg_run(p, Block::Sys, addr);
    match f.flow {
        Flow::Done(r) => write_reg_run(f.port, Block::Sys, addr, with_pin(r, gpio, on), 1),
        _ => cut_short(f),
    }
}

/// Sets a GPIO pin to `val`, leaving the other pins as they are.
pub fn set_gpio_bit(port: &mut Exchange, gpio: u8, val: bool) -> (r: Result<(), Halt>)
    requires
        gpio < 16,
    ensures
        (Run { state: (), port: final(port)@, flow: flow_of(r) }) == pin_run(
            old(port)@,
            GPO,
            gpio,
            val,
        ),
{
    let gpio_mask: u16 = 1u16 << gpio;
    let r: u16 = read_reg(port, Block::Sys, GPO)?;
    let new_val: u16 = if val {
        r | gpio_mask
    } else {
        r & !gpio_mask
    };
    write_reg(port, Block::Sys, GPO, new_val, 1)
}

/// Making the pin `gpio` an output: its direction bit is cleared, then its
/// output-enable bit is set.
pub open spec fn set_gpio_output_run(p: Port, gpio: u8) -> Run<(), ()> {
    let d = pin_run(p, GPD, gpio, false);
    match d.flow {
        Flow::Done(_) => pin_run(d.port, GPOE, gpio, true),
        _ => d,
    }
}

/// Makes a GPIO pin an output.
pub fn set_gpio_output(port: &mut Exchange, gpio: u8) -> (r: Result<(), Halt>)
    requires
        gpio < 16,
    ensures
        (Run { state: (), port: final(port)@, flow: flow_of(r) }) == set_gpio_output_run(
            old(port)@,
            gpio,
        ),
{
    let gpio_mask: u16 = 1u16 << gpio;
    let r: u16 = read_reg(port, Block::Sys, GPD)?;
    write_reg(port, Block::Sys, GPD, r & !gpio_mask, 1)?;
    let r: u16 = read_reg(port, Block::Sys, GPOE)?;
    write_reg(port, Block::Sys, GPOE, r | gpio_mask, 1)
}

/// Switching the I2C repeater to the tuner.
pub open spec fn set_i2c_repeater_run(p: Port, on: bool) -> Run<(), ()> {
    demod_write_reg_run(
        p,
        1,
        0x01,
        if on {
            0x18
        } else {
            0x10
        },
        1,
    )
}

/// Switches the I2C repeater to the tuner on or off.
pub fn set_i2c_repeater(port: &mut Exchange, on: bool) -> (r: Result<(), Halt>)
    ensures
        (Run { state: (), port: final(port)@, flow: flow_of(r) }) == set_i2c_repeater_run(
            old(port)@,
            on,
        ),
{
    demod_write_reg(
        port,
        1,
        0x01,
        if on {
            0x18
        } else {
            0x10
        },
        1,
    )
}

/// One register write of a fixed sequence.
#[derive(Clone, Copy, Debug, PartialEq, Eq, Structural)]
pub enum RegStep {
    /// A register of a block.
    Block { block: Block, addr: u16, val: u16, len: u8 },
    /// A demodulator register.
    Demod { page: u8, addr: u16, val: u16, len: u8 },
}

impl RegStep {
    /// Whether the step writes at most two bytes.
    pub open spec fn fits(self) -> bool {
        match self {
            RegStep::Block { len, .. } => len <= 2,
            RegStep::Demod { len, .. } => len <= 2,
        }
    }

    pub open spec fn run(self, p: Port) -> Run<(), ()> {
        match self {
            RegStep::Block { block, addr, val, len } => write_reg_run(p, block, addr, val, len),
            RegStep::Demod { page, addr, val, len } => {
                demod_write_reg_run(p, page, addr, val, len)
            },
        }
    }
}

/// The register writes `steps` one after the other, up to the first that does
/// not go through.
pub open spec fn steps_run(p: Port, steps: Seq<RegStep>) -> Run<(), ()>
    decreases steps.len(),
{
    if steps.len() == 0 {
        Run { state: (), port: p, flow: Flow::Done(()) }
    } else {
        let s = steps[0].run(p);
        match s.flow {
            Flow::Done(_) => steps_run(s.port, steps.drop_first()),
            _ => s,
        }
    }
}

/// Performs register writes in order, up to the first that does not go through.
pub fn apply(port: &mut Exchange, steps: &[RegStep]) -> (r: Result<(), Halt>)
    requires
        forall|i: int| 0 <= i < steps@.len() ==> (#[trigger] steps@[i]).fits(),
    ensures
        (Run { state: (), port: final(port)@, flow: flow_of(r) }) == steps_run(
            old(port)@,
            steps@,
        ),
{
    let mut i: usize = 0;
    assert(steps@.skip(0) =~= steps@);
    while i < steps.len()
        invariant
            i <= steps@.len(),
            forall|k: int| 0 <= k < steps@.len() ==> (#[trigger] steps@[k]).fits(),
            steps_run(old(port)@, steps@) == steps_run(port@, steps@.skip(i as int)),
        decreases steps@.len() - i,
    {
        proof {
            assert(steps@.skip(i as int)[0] == steps@[i as int]);
            assert(steps@.skip(i as int).drop_first() =~= steps@.skip(i + 1));
        }
        match steps[i] {
            RegStep::Block { block, addr, val, len } => {
                write_reg(port, block, addr, val, len)?;
            },
            RegStep::Demod { page, addr, val, len } => {
                demod_write_reg(port, page, addr, val, len)?;
            },
        }
        i += 1;
    }
    Ok(())
}

/// Whether `v` is an eight-bit signed number.
pub open spec fn is_int8(v: i32) -> bool {
    -128 <= v <= 127
}

/// Whether `v` is a twelve-bit signed number.
pub open spec fn is_int12(v: i32) -> bool {
    -2048 <= v <= 2047
}

/// What is said of the FIR coefficient `i` when it is not an eight-bit number.
pub open spec fn int8_message(i: nat, v: i32) -> Seq<char> {
    "FIR coefficient "@ + decimal(i) + " out of int8 range: "@ + signed_decimal(v as int)
}

/// What is said of the FIR coefficients `i` and `i + 1` when one of them is not a
/// twelve-bit number.
pub open spec fn int12_message(i: nat) -> Seq<char> {
    "FIR coefficient "@ + decimal(i) + " or "@ + decimal(i + 1) + " out of int12 range"@
}

/// What is said of the first of the coefficients from `i` on that has the wrong
/// size: the first eight are eight-bit numbers, each pair after them two
/// twelve-bit numbers.
pub open spec fn fir_fault(fir: Seq<i32>, i: nat) -> Option<Seq<char>>
    decreases 17 - i,
{
    if i < 8 {
        if is_int8(fir[i as int]) {
            fir_fault(fir, i + 1)
        } else {
            Some(int8_message(i, fir[i as int]))
        }
    } else if i < 16 {
        if is_int12(fir[i as int]) && is_int12(fir[i as int + 1]) {
            fir_fault(fir, i + 2)
        } else {
            Some(int12_message(i))
        }
    } else {
        None
    }
}

/// The three bytes that hold the two twelve-bit numbers `v0` and `v1`, two's
/// complement, high bits first.
pub open spec fn int12_bytes(v0: i32, v1: i32) -> Seq<u8> {
    seq![
        ((v0 as int / 16) % 256) as u8,
        ((v0 as int % 16) * 16 + (v1 as int / 256) % 16) as u8,
        (v1 as int % 256) as u8,
    ]
}

/// The bytes that hold the first `pairs` pairs of twelve-bit coefficients.
pub open spec fn pairs_bytes(fir: Seq<i32>, pairs: nat) -> Seq<u8>
    decreases pairs,
{
    if pairs == 0 {
        seq![]
    } else {
        pairs_bytes(fir, (pairs - 1) as nat) + int12_bytes(
            fir[6 + 2 * pairs as int],
            fir[7 + 2 * pairs as int],
        )
    }
}

/// The twenty bytes that hold the coefficients: one for each of the first eight,
/// three for each pair after them.
pub open spec fn fir_bytes(fir: Seq<i32>) -> Seq<u8> {
    Seq::new(8, |k: int| (fir[k] as int % 256) as u8) + pairs_bytes(fir, 4)
}

/// The demodulator writes that load the bytes of the coefficients.
pub open spec fn fir_steps(bytes: Seq<u8>) -> Seq<RegStep> {
    Seq::new(
        bytes.len(),
        |k: int|
            RegStep::Demod { page: 1, addr: (0x1c + k) as u16, val: bytes[k] as u16, len: 1 },
    )
}

/// Loading the FIR coefficients.
pub open spec fn set_fir_run(p: Port, fir: Seq<i32>) -> Run<(), ()> {
    match fir_fault(fir, 0) {
        Some(msg) => Run {
            state: (),
            port: p,
            flow: Flow::Failed(Fault::InvalidParameter(msg)),
        },
        None => steps_run(p, fir_steps(fir_bytes(fir))),
    }
}

fn text_of_int8_fault(i: usize, v: i32) -> (r: String)
    ensures
        r@ == int8_message(i as nat, v),
{
    let mut msg: String = String::from_str("FIR coefficient ");
    msg.append(decimal_text(i as u64).as_str());
    msg.append(" out of int8 range: ");
    msg.append(signed_decimal_text(v as i64).as_str());
    msg
}

fn text_of_int12_fault(i: usize) -> (r: String)
    requires
        i < 16,
    ensures
        r@ == int12_message(i as nat),
{
    let mut msg: String = String::from_str("FIR coefficient ");
    msg.append(decimal_text(i as u64).as_str());
    msg.append(" or ");
    msg.append(decimal_text((i + 1) as u64).as_str());
    msg.append(" out of int12 range");
    msg
}

fn pack_pair(val0: i32, val1: i32) -> (r: Vec<u8>)
    requires
        is_int12(val0),
        is_int12(val1),
    ensures
        r@ == int12_bytes(val0, val1),
{
    let mut r: Vec<u8> = Vec::new();
    r.push((((val0 + 4096) / 16) % 256) as u8);
    r.push((((val0 + 4096) % 16) * 16 + ((val1 + 4096) / 256) % 16) as u8);
    r.push(((val1 + 4096) % 256) as u8);
    assert(r@ =~= int12_bytes(val0, val1));
    r
}

/// Packs the FIR coefficients into the bytes that the demodulator holds, or says
/// which one has the wrong size.
pub fn pack_fir(fir: &[i32; FIR_LEN]) -> (r: Result<Vec<u8>, RtlSdrError>)
    ensures
        match r {
            Ok(bytes) => {
                &&& fir_fault(fir@, 0) is None
                &&& bytes@ == fir_bytes(fir@)
                &&& bytes@.len() == 20
            },
            Err(e) => fir_fault(fir@, 0) is Some && e@ == Fault::InvalidParameter(
                fir_fault(fir@, 0)->0,
            ),
        },
{
    let mut bytes: Vec<u8> = Vec::new();
    let mut i: usize = 0;
    while i < 8
        invariant
            i <= 8,
            bytes@.len() == i,
            forall|k: int| 0 <= k < i ==> bytes@[k] == (fir@[k] as int % 256) as u8,
            fir_fault(fir@, 0) == fir_fault(fir@, i as nat),
        decreases 8 - i,
    {
        let val: i32 = fir[i];
        if val < -128 || val > 127 {
            return Err(RtlSdrError::InvalidParameter(text_of_int8_fault(i, val)));
        }
        bytes.push(((val + 256) % 256) as u8);
        i += 1;
    }
    let ghost head = bytes@;
    assert(head =~= Seq::new(8, |k: int| (fir@[k] as int % 256) as u8));
    while i < 16
        invariant
            8 <= i <= 16,
            i % 2 == 0,
            bytes@ == head + pairs_bytes(fir@, ((i - 8) / 2) as nat),
            fir_fault(fir@, 0) == fir_fault(fir@, i as nat),
        decreases 16 - i,
    {
        let val0: i32 = fir[i];
        let val1: i32 = fir[i + 1];
        if val0 < -2048 || val0 > 2047 || val1 < -2048 || val1 > 2047 {
            return Err(RtlSdrError::InvalidParameter(text_of_int12_fault(i)));
        }
        let ghost before = bytes@;
        let mut three: Vec<u8> = pack_pair(val0, val1);
        bytes.append(&mut three);
        proof {
            let n = ((i - 8) / 2) as nat;
            assert(before + int12_bytes(val0, val1) =~= head + (pairs_bytes(fir@, n) + int12_bytes(
                val0,
                val1,
            )));
            assert(pairs_bytes(fir@, n + 1) == pairs_bytes(fir@, n) + int12_bytes(val0, val1));
        }
        i += 2;
    }
    proof {
        reveal_with_fuel(pairs_bytes, 5);
        assert(bytes@ =~= fir_bytes(fir@));
    }
    Ok(bytes)
}

/// Loads the FIR coefficients: eight of eight bits, then eight of twelve bits.
pub fn set_fir(port: &mut Exchange, fir: &[i32; FIR_LEN]) -> (r: Result<(), Halt>)
    ensures
        (Run { state: (), port: final(port)@, flow: flow_of(r) }) == set_fir_run(
            old(port)@,
            fir@,
        ),
{
    let bytes: Vec<u8> = match pack_fir(fir) {
        Ok(bytes) => bytes,
        Err(e) => {
            return Err(Halt::Failed(e));
        },
    };
    let mut steps: Vec<RegStep> = Vec::new();
    let mut i: usize = 0;
    while i < bytes.len()
        invariant
            i <= bytes@.len(),
            bytes@.len() == 20,
            steps@ == fir_steps(bytes@).take(i as int),
        decreases bytes@.len() - i,
    {
        steps.push(RegStep::Demod { page: 1, addr: 0x1c + i as u16, val: bytes[i] as u16, len: 1 });
        assert(steps@ =~= fir_steps(bytes@).take(i + 1));
        i += 1;
    }
    assert(steps@ =~= fir_steps(bytes@));
    apply(port, steps.as_slice())
}

/// The writes that bring up the USB side and the demodulator before the FIR
/// coefficients are loaded.
pub open spec fn baseband_opening() -> Seq<RegStep> {
    seq![
        // USB
        RegStep::Block { block: Block::Usb, addr: USB_SYSCTL, val: 0x09, len: 1 },
        RegStep::Block { block: Block::Usb, addr: USB_EPA_MAXPKT, val: 0x0002, len: 2 },
        RegStep::Block { block: Block::Usb, addr: USB_EPA_CTL, val: 0x1002, len: 2 },
        // Demodulator power
        RegStep::Block { block: Block::Sys, addr: DEMOD_CTL_1, val: 0x22, len: 1 },
        RegStep::Block { block: Block::Sys, addr: DEMOD_CTL, val: 0xe8, len: 1 },
        // Soft reset
        RegStep::Demod { page: 1, addr: 0x01, val: 0x14, len: 1 },
        RegStep::Demod { page: 1, addr: 0x01, val: 0x10, len: 1 },
        // No spectrum inversion, no adjacent channel rejection
        RegStep::Demod { page: 1, addr: 0x15, val: 0x00, len: 1 },
        RegStep::Demod { page: 1, addr: 0x16, val: 0x0000, len: 2 },
        // DDC shift and IF frequency
        RegStep::Demod { page: 1, addr: 0x16, val: 0x00, len: 1 },
        RegStep::Demod { page: 1, addr: 0x17, val: 0x00, len: 1 },
        RegStep::Demod { page: 1, addr: 0x18, val: 0x00, len: 1 },
        RegStep::Demod { page: 1, addr: 0x19, val: 0x00, len: 1 },
        RegStep::Demod { page: 1, addr: 0x1a, val: 0x00, len: 1 },
        RegStep::Demod { page: 1, addr: 0x1b, val: 0x00, len: 1 },
    ]
}

/// The writes that follow the FIR coefficients.
pub open spec fn baseband_closing() -> Seq<RegStep> {
    seq![
        // SDR mode, no DAGC
        RegStep::Demod { page: 0, addr: 0x19, val: 0x05, len: 1 },
        // FSM state-holding register
        RegStep::Demod { page: 1, addr: 0x93, val: 0xf0, len: 1 },
        RegStep::Demod { page: 1, addr: 0x94, val: 0x0f, len: 1 },
        // No AGC
        RegStep::Demod { page: 1, addr: 0x11, val: 0x00, len: 1 },
        // No RF and IF AGC loop
        RegStep::Demod { page: 1, addr: 0x04, val: 0x00, len: 1 },
        // No PID filter
        RegStep::Demod { page: 0, addr: 0x61, val: 0x60, len: 1 },
        // Default ADC_I/ADC_Q datapath
        RegStep::Demod { page: 0, addr: 0x06, val: 0x80, len: 1 },
        // Zero-IF mode, DC cancellation, IQ estimation and compensation
        RegStep::Demod { page: 1, addr: 0xb1, val: 0x1b, len: 1 },
        // No 4.096 MHz clock output
        RegStep::Demod { page: 0, addr: 0x0d, val: 0x83, len: 1 },
    ]
}

/// Bringing up the baseband.
pub open spec fn init_baseband_run(p: Port, fir: Seq<i32>) -> Run<(), ()> {
    let a = steps_run(p, baseband_opening());
    match a.flow {
        Flow::Done(_) => {
            let b = set_fir_run(a.port, fir);
            match b.flow {
                Flow::Done(_) => steps_run(b.port, baseband_closing()),
                _ => b,
            }
        },
        _ => a,
    }
}

/// Brings up the RTL2832 baseband: USB, demodulator power and reset, FIR, AGC,
/// Zero-IF mode.
pub fn init_baseband(port: &mut Exchange, fir: &[i32; FIR_LEN]) -> (r: Result<(), Halt>)
    ensures
        (Run { state: (), port: final(port)@, flow: flow_of(r) }) == init_baseband_run(
            old(port)@,
            fir@,
        ),
{
    let opening: [RegStep; 15] = [
        RegStep::Block { block: Block::Usb, addr: USB_SYSCTL, val: 0x09, len: 1 },
        RegStep::Block { block: Block::Usb, addr: USB_EPA_MAXPKT, val: 0x0002, len: 2 },
        RegStep::Block { block: Block::Usb, addr: USB_EPA_CTL, val: 0x1002, len: 2 },
        RegStep::Block { block: Block::Sys, addr: DEMOD_CTL_1, val: 0x22, len: 1 },
        RegStep::Block { block: Block::Sys, addr: DEMOD_CTL, val: 0xe8, len: 1 },
        RegStep::Demod { page: 1, addr: 0x01, val: 0x14, len: 1 },
        RegStep::Demod { page: 1, addr: 0x01, val: 0x10, len: 1 },
        RegStep::Demod { page: 1, addr: 0x15, val: 0x00, len: 1 },
        RegStep::Demod { page: 1, addr: 0x16, val: 0x0000, len: 2 },
        RegStep::Demod { page: 1, addr: 0x16, val: 0x00, len: 1 },
        RegStep::Demod { page: 1, addr: 0x17, val: 0x00, len: 1 },
        RegStep::Demod { page: 1, addr: 0x18, val: 0x00, len: 1 },
        RegStep::Demod { page: 1, addr: 0x19, val: 0x00, len: 1 },
        RegStep::Demod { page: 1, addr: 0x1a, val: 0x00, len: 1 },
        RegStep::Demod { page: 1, addr: 0x1b, val: 0x00, len: 1 },
    ];
    assert(opening@ =~= baseband_opening());
    apply(port, &opening)?;
    set_fir(port, fir)?;
    let closing: [RegStep; 9] = [
        RegStep::Demod { page: 0, addr: 0x19, val: 0x05, len: 1 },
        RegStep::Demod { page: 1, addr: 0x93, val: 0xf0, len: 1 },
        RegStep::Demod { page: 1, addr: 0x94, val: 0x0f, len: 1 },
        RegStep::Demod { page: 1, addr: 0x11, val: 0x00, len: 1 },
        RegStep::Demod { page: 1, addr: 0x04, val: 0x00, len: 1 },
        RegStep::Demod { page: 0, addr: 0x61, val: 0x60, len: 1 },
        RegStep::Demod { page: 0, addr: 0x06, val: 0x80, len: 1 },
        RegStep::Demod { page: 1, addr: 0xb1, val: 0x1b, len: 1 },
        RegStep::Demod { page: 0, addr: 0x0d, val: 0x83, len: 1 },
    ];
    assert(closing@ =~= baseband_closing());
    apply(port, &closing)
}

/// Powering off the demodulator and the ADCs.
pub open spec fn deinit_baseband_run(p: Port) -> Run<(), ()> {
    write_reg_run(p, Block::Sys, DEMOD_CTL, 0x20, 1)
}

/// Powers off the demodulator and the ADCs.
pub fn deinit_baseband(port: &mut Exchange) -> (r: Result<(), Halt>)
    ensures
        (Run { state: (), port: final(port)@, flow: flow_of(r) }) == deinit_baseband_run(
            old(port)@,
        ),
{
    write_reg(port, Block::Sys, DEMOD_CTL, 0x20, 1)
}

/// Reading a register byte agrees with itself when answers come later.
pub proof fn read_reg_resumes(p: Port, block: Block, addr: u16, more: Seq<Answer>)
    ensures
        resumes(p, read_reg_run(p, block, addr), read_reg_run(later(p, more), block, addr), more),
{
    fetch_resumes(p, addr, read_index(block), 1, more);
}

/// Reading a demodulator byte agrees with itself when answers come later.
pub proof fn demod_read_reg_resumes(p: Port, page: u8, addr: u16, more: Seq<Answer>)
    ensures
        resumes(
            p,
            demod_read_reg_run(p, page, addr),
            demod_read_reg_run(later(p, more), page, addr),
            more,
        ),
{
    fetch_resumes(p, demod_value(addr), page as u16, 1, more);
}

/// A register write agrees with itself when answers come later.
pub proof fn write_reg_resumes(
    p: Port,
    block: Block,
    addr: u16,
    val: u16,
    len: u8,
    more: Seq<Answer>,
)
    ensures
        resumes(
            p,
            write_reg_run(p, block, addr, val, len),
            write_reg_run(later(p, more), block, addr, val, len),
            more,
        ),
{
}

/// A demodulator write agrees with itself when answers come later.
pub proof fn demod_write_reg_resumes(
    p: Port,
    page: u8,
    addr: u16,
    val: u16,
    len: u8,
    more: Seq<Answer>,
)
    ensures
        resumes(
            p,
            demod_write_reg_run(p, page, addr, val, len),
            demod_write_reg_run(later(p, more), page, addr, val, len),
            more,
        ),
{
    let t = Transfer::Out {
        value: demod_value(addr),
        index: demod_write_index(page),
        data: reg_bytes(val, len as nat),
    };
    send_resumes(p, t, more);
    let early = send(p, t).port;
    let late = send(later(p, more), t).port;
    demod_read_reg_resumes(early, 0x0a, 0x01, more);
    demod_read_reg_resumes(late, 0x0a, 0x01, Seq::empty());
    in_step(early, late, more);
}

/// Changing a pin agrees with itself when answers come later.
pub proof fn pin_resumes(p: Port, addr: u16, gpio: u8, on: bool, more: Seq<Answer>)
    ensures
        resumes(p, pin_run(p, addr, gpio, on), pin_run(later(p, more), addr, gpio, on), more),
{
    read_reg_resumes(p, Block::Sys, addr, more);
    let early = read_reg_run(p, Block::Sys, addr);
    let late = read_reg_run(later(p, more), Block::Sys, addr);
    in_step(early.port, late.port, more);
}

/// Making a pin an output agrees with itself when answers come later.
pub proof fn set_gpio_output_resumes(p: Port, gpio: u8, more: Seq<Answer>)
    ensures
        resumes(
            p,
            set_gpio_output_run(p, gpio),
            set_gpio_output_run(later(p, more), gpio),
            more,
        ),
{
    pin_resumes(p, GPD, gpio, false, more);
    let early = pin_run(p, GPD, gpio, false).port;
    let late = pin_run(later(p, more), GPD, gpio, false).port;
    pin_resumes(early, GPOE, gpio, true, more);
    pin_resumes(late, GPOE, gpio, true, Seq::empty());
    in_step(early, late, more);
}

/// One step agrees with itself when answers come later.
pub proof fn step_resumes(p: Port, step: RegStep, more: Seq<Answer>)
    ensures
        resumes(p, step.run(p), step.run(later(p, more)), more),
{
    match step {
        RegStep::Block { block, addr, val, len } => {
            write_reg_resumes(p, block, addr, val, len, more);
        },
        RegStep::Demod { page, addr, val, len } => {
            demod_write_reg_resumes(p, page, addr, val, len, more);
        },
    }
}

/// A sequence of steps agrees with itself when answers come later.
pub proof fn steps_resume(p: Port, steps: Seq<RegStep>, more: Seq<Answer>)
    ensures
        resumes(p, steps_run(p, steps), steps_run(later(p, more), steps), more),
    decreases steps.len(),
{
    if steps.len() > 0 {
        step_resumes(p, steps[0], more);
        let early = steps[0].run(p).port;
        let late = steps[0].run(later(p, more)).port;
        steps_resume(early, steps.drop_first(), more);
        steps_resume(late, steps.drop_first(), Seq::empty());
        in_step(early, late, more);
    }
}

/// Loading the FIR coefficients agrees with itself when answers come later.
pub proof fn set_fir_resumes(p: Port, fir: Seq<i32>, more: Seq<Answer>)
    ensures
        resumes(p, set_fir_run(p, fir), set_fir_run(later(p, more), fir), more),
{
    steps_resume(p, fir_steps(fir_bytes(fir)), more);
}

/// Bringing up the baseband agrees with itself when answers come later.
pub proof fn init_baseband_resumes(p: Port, fir: Seq<i32>, more: Seq<Answer>)
    ensures
        resumes(p, init_baseband_run(p, fir), init_baseband_run(later(p, more), fir), more),
{
    steps_resume(p, baseband_opening(), more);
    let early = steps_run(p, baseband_opening()).port;
    let late = steps_run(later(p, more), baseband_opening()).port;
    in_step(early, late, more);
    set_fir_resumes(early, fir, more);
    set_fir_resumes(late, fir, Seq::empty());
    let early2 = set_fir_run(early, fir).port;
    let late2 = set_fir_run(late, fir).port;
    in_step(early2, late2, more);
    steps_resume(early2, baseband_closing(), more);
    steps_resume(late2, baseband_closing(), Seq::empty());
}

/// Switching the repeater agrees with itself when answers come later.
pub proof fn set_i2c_repeater_resumes(p: Port, on: bool, more: Seq<Answer>)
    ensures
        resumes(p, set_i2c_repeater_run(p, on), set_i2c_repeater_run(later(p, more), on), more),
{
    let val: u16 = if on {
        0x18
    } else {
        0x10
    };
    demod_write_reg_resumes(p, 1, 0x01, val, 1, more);
}

/// Reading bytes of a block agrees with itself when answers come later.
pub proof fn read_array_resumes(p: Port, block: Block, addr: u16, len: nat, more: Seq<Answer>)
    ensures
        resumes(
            p,
            read_array_run(p, block, addr, len),
            read_array_run(later(p, more), block, addr, len),
            more,
        ),
{
    fetch_resumes(p, addr, read_index(block), len, more);
}

/// Writing bytes to a block agrees with itself when answers come later.
pub proof fn write_array_resumes(
    p: Port,
    block: Block,
    addr: u16,
    data: Seq<u8>,
    more: Seq<Answer>,
)
    ensures
        resumes(
            p,
            write_array_run(p, block, addr, data),
            write_array_run(later(p, more), block, addr, data),
            more,
        ),
{
    send_resumes(p, Transfer::Out { value: addr, index: write_index(block), data }, more);
}

/// Writing an I2C register agrees with itself when answers come later.
pub proof fn i2c_write_reg_resumes(p: Port, i2c_addr: u8, reg: u8, val: u8, more: Seq<Answer>)
    ensures
        resumes(
            p,
            i2c_write_reg_run(p, i2c_addr, reg, val),
            i2c_write_reg_run(later(p, more), i2c_addr, reg, val),
            more,
        ),
{
    write_array_resumes(p, Block::Iic, i2c_addr as u16, seq![reg, val], more);
}

/// Reading an I2C register agrees with itself when answers come later.
pub proof fn i2c_read_reg_resumes(p: Port, i2c_addr: u8, reg: u8, more: Seq<Answer>)
    ensures
        resumes(
            p,
            i2c_read_reg_run(p, i2c_addr, reg),
            i2c_read_reg_run(later(p, more), i2c_addr, reg),
            more,
        ),
{
    write_array_resumes(p, Block::Iic, i2c_addr as u16, seq![reg], more);
    let early = write_array_run(p, Block::Iic, i2c_addr as u16, seq![reg]);
    let late = write_array_run(later(p, more), Block::Iic, i2c_addr as u16, seq![reg]);
    in_step(early.port, late.port, more);
    read_array_resumes(early.port, Block::Iic, i2c_addr as u16, 1, more);
    read_array_resumes(late.port, Block::Iic, i2c_addr as u16, 1, Seq::empty());
}

/// Powering off agrees with itself when answers come later.
pub proof fn deinit_baseband_resumes(p: Port, more: Seq<Answer>)
    ensures
        resumes(p, deinit_baseband_run(p), deinit_baseband_run(later(p, more)), more),
{
    write_reg_resumes(p, Block::Sys, DEMOD_CTL, 0x20, 1, more);
}

/// Changing a pin sets that pin and leaves every other as it was.
pub proof fn other_pins_stay(r: u16, gpio: u8, on: bool, other: u8)
    requires
        gpio < 16,
        other < 16,
    ensures
        ((with_pin(r, gpio, on) >> gpio) & 1 == 1) == on,
        other != gpio ==> (with_pin(r, gpio, on) >> other) & 1 == (r >> other) & 1,
{
    let set = r | (1u16 << gpio);
    let cleared = r & !(1u16 << gpio);
    assert((set >> gpio) & 1 == 1 && (cleared >> gpio) & 1 == 0) by (bit_vector)
        requires
            set == r | (1u16 << gpio),
            cleared == r & !(1u16 << gpio),
            gpio < 16,
    ;
    assert(other != gpio ==> (set >> other) & 1 == (r >> other) & 1 && (cleared >> other) & 1 == (r
        >> other) & 1) by (bit_vector)
        requires
            set == r | (1u16 << gpio),
            cleared == r & !(1u16 << gpio),
            gpio < 16,
            other < 16,
    ;
}

/// The number that the low `size` values stand for, the upper half of them being
/// negative.
pub open spec fn signed(n: int, size: int) -> int {
    if n < size / 2 {
        n
    } else {
        n - size
    }
}

/// The two twelve-bit numbers that three bytes hold.
pub open spec fn int12_of(b0: u8, b1: u8, b2: u8) -> (int, int) {
    (signed(b0 * 16 + b1 as int / 16, 4096), signed((b1 as int % 16) * 256 + b2, 4096))
}

proof fn coefficients_in_range(fir: Seq<i32>, from: nat, i: int)
    requires
        fir_fault(fir, from) is None,
        from <= i < 16,
        from < 8 || from % 2 == 0,
    ensures
        i < 8 ==> is_int8(fir[i]),
        8 <= i ==> is_int12(fir[i]),
    decreases 17 - from,
{
    if from < 8 {
        if i > from {
            coefficients_in_range(fir, from + 1, i);
        }
    } else if i > from + 1 {
        coefficients_in_range(fir, from + 2, i);
    }
}

proof fn pair_bytes_at(fir: Seq<i32>, pairs: nat, pair: int)
    requires
        0 <= pair < pairs,
    ensures
        pairs_bytes(fir, pairs).len() == 3 * pairs,
        pairs_bytes(fir, pairs).subrange(3 * pair, 3 * pair + 3) == int12_bytes(
            fir[8 + 2 * pair],
            fir[9 + 2 * pair],
        ),
    decreases pairs,
{
    let whole = pairs_bytes(fir, pairs);
    let before = pairs_bytes(fir, (pairs - 1) as nat);
    if pairs > 1 {
        pair_bytes_at(fir, (pairs - 1) as nat, if pair < pairs - 1 {
            pair
        } else {
            0
        });
    }
    if pair < pairs - 1 {
        assert(whole.subrange(3 * pair, 3 * pair + 3) =~= before.subrange(
            3 * pair,
            3 * pair + 3,
        ));
    } else {
        assert(whole.subrange(3 * pair, 3 * pair + 3) =~= int12_bytes(
            fir[8 + 2 * pair],
            fir[9 + 2 * pair],
        ));
    }
}

/// Three bytes hold the two twelve-bit numbers that were packed into them.
pub proof fn int12_bytes_hold_both(v0: i32, v1: i32)
    requires
        is_int12(v0),
        is_int12(v1),
    ensures
        ({
            let b = int12_bytes(v0, v1);
            int12_of(b[0], b[1], b[2]) == (v0 as int, v1 as int)
        }),
{
}

/// The bytes that are loaded hold the coefficients: each of the first eight can be
/// read off its byte, each pair of the others off its three bytes.
pub proof fn fir_bytes_hold_the_coefficients(fir: Seq<i32>, i: int, pair: int)
    requires
        fir.len() == FIR_LEN,
        fir_fault(fir, 0) is None,
        0 <= i < 8,
        0 <= pair < 4,
    ensures
        fir_bytes(fir).len() == 20,
        signed(fir_bytes(fir)[i] as int, 256) == fir[i],
        ({
            let at = 8 + 3 * pair;
            int12_of(fir_bytes(fir)[at], fir_bytes(fir)[at + 1], fir_bytes(fir)[at + 2]) == (
                fir[8 + 2 * pair] as int,
                fir[9 + 2 * pair] as int,
            )
        }),
{
    coefficients_in_range(fir, 0, i);
    coefficients_in_range(fir, 0, 8 + 2 * pair);
    coefficients_in_range(fir, 0, 9 + 2 * pair);
    pair_bytes_at(fir, 4, pair);
    int12_bytes_hold_both(fir[8 + 2 * pair], fir[9 + 2 * pair]);
    let tail = pairs_bytes(fir, 4);
    let three = tail.subrange(3 * pair, 3 * pair + 3);
    assert(three[0] == tail[3 * pair] && three[1] == tail[3 * pair + 1] && three[2] == tail[3 * pair
        + 2]);
}

} // verus!
