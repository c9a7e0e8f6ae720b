//! I2C access to the R82XX registers, with a shadow of what was written.

use vstd::prelude::*;
use vstd::slice::*;

use crate::usb;
use crate::error::{Fault, RtlSdrError, TunerError, TunerFault};
use crate::exchange::{
    cut_short, flow_of, flow_of_bytes, in_step, later, resumes, Answer, Exchange, Flow, Halt, Port,
    Run, Transfer,
};
use crate::tuner::r82xx::{Chip, R82xxPriv};
use crate::tuner::r82xx::constants::{bitrev, reversed_bits, NUM_REGS, REG_SHADOW_START};
use crate::usb::{i2c_read_run, i2c_write_run};

verus! {

/// The shadow `regs` after the registers from `reg` on took the values `val`.
/// What falls outside the shadow is left out.
pub open spec fn stored(regs: Seq<u8>, reg: int, val: Seq<u8>) -> Seq<u8> {
    Seq::new(
        regs.len(),
        |k: int|
            if reg <= k + REG_SHADOW_START < reg + val.len() {
                val[k + REG_SHADOW_START - reg]
            } else {
                regs[k]
            },
    )
}

/// Whether the shadow `regs` holds the values `val` in the registers from `reg`
/// on, all of which have a shadow.
pub open spec fn holds(regs: Seq<u8>, reg: int, val: Seq<u8>) -> bool {
    &&& REG_SHADOW_START <= reg
    &&& reg - REG_SHADOW_START + val.len() <= NUM_REGS
    &&& regs.subrange(reg - REG_SHADOW_START, reg - REG_SHADOW_START + val.len()) == val
}

/// Number of data bytes in the next message: what remains, but no more than the
/// longest message has room for beside the register number. A longest message of
/// less than two bytes counts as two, one longer than the buffer as the buffer.
pub open spec fn chunk_size(remaining: nat, max_msg_len: nat, buf_capacity: nat) -> nat {
    let room = (if max_msg_len < 2 {
        1
    } else if max_msg_len > buf_capacity {
        buf_capacity - 1
    } else {
        max_msg_len - 1
    }) as nat;
    if remaining < room {
        remaining
    } else {
        room
    }
}

/// Returns the number of data bytes in the next message.
pub fn i2c_chunk_size(remaining: usize, max_msg_len: usize, buf_capacity: usize) -> (r: usize)
    requires
        buf_capacity >= 2,
    ensures
        r == chunk_size(remaining as nat, max_msg_len as nat, buf_capacity as nat),
        remaining > 0 ==> r > 0,
        r <= remaining,
        r < buf_capacity,
{
    let effective_max: usize = if max_msg_len < 2 {
        2
    } else if max_msg_len > buf_capacity {
        buf_capacity
    } else {
        max_msg_len
    };
    if remaining < effective_max - 1 {
        remaining
    } else {
        effective_max - 1
    }
}

/// Sending the values `val` of the registers from `reg` on, in as many messages
/// as it takes. A message holds the number of its first register and the values.
pub open spec fn messages_run(
    p: Port,
    i2c_addr: u8,
    max_msg_len: nat,
    reg: int,
    val: Seq<u8>,
) -> Run<(), ()>
    decreases val.len(),
{
    let size = chunk_size(val.len(), max_msg_len, (NUM_REGS + 1) as nat);
    if val.len() == 0 {
        Run { state: (), port: p, flow: Flow::Done(()) }
    } else {
        let w = i2c_write_run(p, i2c_addr, seq![reg as u8] + val.take(size as int));
        match w.flow {
            Flow::Done(n) => if n == size + 1 {
                messages_run(w.port, i2c_addr, max_msg_len, reg + size, val.skip(size as int))
            } else {
                Run {
                    state: (),
                    port: w.port,
                    flow: Flow::Failed(
                        Fault::Tuner(
                            TunerFault::I2cTransferFailed {
                                operation: "write"@,
                                got: n,
                                expected: size + 1,
                            },
                        ),
                    ),
                }
            },
            _ => cut_short(w),
        }
    }
}

/// Writing the values `val` of the registers from `reg` on. Nothing is sent where
/// the shadow holds them already; the shadow takes them once all messages have
/// gone through.
pub open spec fn write_run(c: Chip, p: Port, reg: u8, val: Seq<u8>) -> Run<Chip, ()> {
    if holds(c.regs, reg as int, val) {
        Run { state: c, port: p, flow: Flow::Done(()) }
    } else {
        let m = messages_run(p, c.i2c_addr, c.max_i2c_msg_len, reg as int, val);
        match m.flow {
            Flow::Done(_) => Run {
                state: Chip { regs: stored(c.regs, reg as int, val), ..c },
                port: m.port,
                flow: Flow::Done(()),
            },
            _ => Run { state: c, port: m.port, flow: m.flow },
        }
    }
}

/// The shadow of the register `reg`, where it has one.
pub open spec fn cached(regs: Seq<u8>, reg: u8) -> Option<u8> {
    if REG_SHADOW_START <= reg < REG_SHADOW_START + NUM_REGS {
        Some(regs[reg - REG_SHADOW_START])
    } else {
        None
    }
}

/// `reg` with the bits under `mask` taken from `val`.
pub open spec fn masked(reg: u8, val: u8, mask: u8) -> u8 {
    (reg & !mask) | (val & mask)
}

/// Writing the bits under `mask` of one register; the others keep the values that
/// the shadow holds.
pub open spec fn write_reg_mask_run(c: Chip, p: Port, reg: u8, val: u8, mask: u8) -> Run<Chip, ()> {
    match cached(c.regs, reg) {
        Some(old) => write_run(c, p, reg, seq![masked(old, val, mask)]),
        None => Run {
            state: c,
            port: p,
            flow: Flow::Failed(Fault::Tuner(TunerFault::ShadowCacheMiss { reg })),
        },
    }
}

/// What was stored in registers that have a shadow is there: comparing with it
/// succeeds, comparing with anything else of the same length fails, and each register
/// reads back as it was stored.
pub proof fn stored_values_are_held(regs: Seq<u8>, reg: u8, val: Seq<u8>, other: Seq<u8>)
    requires
        regs.len() == NUM_REGS,
        REG_SHADOW_START <= reg,
        reg + val.len() <= REG_SHADOW_START + NUM_REGS,
        other.len() == val.len(),
    ensures
        holds(stored(regs, reg as int, val), reg as int, val),
        holds(stored(regs, reg as int, val), reg as int, other) <==> other == val,
        forall|i: int|
            0 <= i < val.len() ==> cached(stored(regs, reg as int, val), (reg + i) as u8) == Some(
                #[trigger] val[i],
            ),
{
    let start = reg - REG_SHADOW_START;
    assert(stored(regs, reg as int, val).subrange(start, start + val.len()) =~= val);
}

/// Storing touches no register but those that it names.
pub proof fn storing_leaves_the_others(regs: Seq<u8>, reg: u8, val: Seq<u8>, k: u8)
    requires
        regs.len() == NUM_REGS,
        k < reg || reg + val.len() <= k,
    ensures
        cached(stored(regs, reg as int, val), k) == cached(regs, k),
{
}

/// Registers not all of which have a shadow are never found to hold anything.
pub proof fn nothing_is_held_outside_the_shadow(regs: Seq<u8>, reg: u8, val: Seq<u8>)
    requires
        reg < REG_SHADOW_START || reg + val.len() > REG_SHADOW_START + NUM_REGS,
    ensures
        !holds(regs, reg as int, val),
{
}

/// A transfer of another length than it should have had.
pub open spec fn short_transfer(operation: Seq<char>, got: nat, expected: nat) -> Fault {
    Fault::Tuner(TunerFault::I2cTransferFailed { operation, got, expected })
}

/// Reading `len` registers from `reg` on. The tuner sends each byte with its bits
/// reversed.
pub open spec fn read_run(c: Chip, p: Port, reg: u8, len: nat) -> Run<(), Seq<u8>> {
    let w = i2c_write_run(p, c.i2c_addr, seq![reg]);
    match w.flow {
        Flow::Done(n) => if n == 1 {
            let f = i2c_read_run(w.port, c.i2c_addr, len);
            match f.flow {
                Flow::Done(data) => Run {
                    state: (),
                    port: f.port,
                    flow: if data.len() == len {
                        Flow::Done(Seq::new(len, |i: int| reversed_bits(data[i])))
                    } else {
                        Flow::Failed(short_transfer("read data"@, data.len(), len))
                    },
                },
                _ => f,
            }
        } else {
            Run {
                state: (),
                port: w.port,
                flow: Flow::Failed(short_transfer("read addr"@, n, 1)),
            }
        },
        _ => cut_short(w),
    }
}

fn short_transfer_error(operation: &'static str, got: usize, expected: usize) -> (r: Halt)
    ensures
        r matches Halt::Failed(e) && e@ == short_transfer(operation@, got as nat, expected as nat),
{
    Halt::Failed(RtlSdrError::Tuner(TunerError::I2cTransferFailed { operation, got, expected }))
}

impl R82xxPriv {
    /// Takes values into the shadow of the registers from `reg` on.
    pub fn shadow_store(&mut self, reg: u8, val: &[u8])
        requires
            val@.len() <= i32::MAX,
            val@.len() == 0 || reg <= REG_SHADOW_START + NUM_REGS,
        ensures
            final(self)@ == (Chip { regs: stored(old(self)@.regs, reg as int, val@), ..old(self)@ }),
    {
        let start: i32 = reg as i32 - REG_SHADOW_START as i32;
        let mut first: usize = 0;
        let mut offset: usize = 0;
        let mut len: usize = val.len();
        if start < 0 {
            offset = (-start) as usize;
            if len <= offset {
                assert(self.regs@ =~= stored(old(self)@.regs, reg as int, val@));
                return;
            }
            len = len - offset;
        } else {
            first = start as usize;
        }
        if len == 0 {
            assert(self.regs@ =~= stored(old(self)@.regs, reg as int, val@));
            return;
        }
        if len > NUM_REGS - first {
            len = NUM_REGS - first;
        }
        let mut i: usize = 0;
        while i < len
            invariant
                i <= len,
                first + len <= NUM_REGS,
                offset + len <= val@.len(),
                first - offset == reg - REG_SHADOW_START,
                self@ == (Chip { regs: self.regs@, ..old(self)@ }),
                forall|k: int|
                    0 <= k < NUM_REGS ==> #[trigger] self.regs@[k] == (if first <= k < first + i {
                        val@[k - first + offset]
                    } else {
                        old(self)@.regs[k]
                    }),
            decreases len - i,
        {
            self.regs[first + i] = val[offset + i];
            i += 1;
        }
        assert(self.regs@ =~= stored(old(self)@.regs, reg as int, val@));
    }

    /// Returns whether the shadow holds `val` in the registers from `reg` on.
    pub fn shadow_equal(&self, reg: u8, val: &[u8]) -> (r: bool)
        ensures
            r == holds(self@.regs, reg as int, val@),
    {
        if reg < REG_SHADOW_START {
            return false;
        }
        let start: usize = (reg - REG_SHADOW_START) as usize;
        if start > NUM_REGS || val.len() > NUM_REGS - start {
            return false;
        }
        let mut i: usize = 0;
        while i < val.len()
            invariant
                i <= val@.len(),
                start == reg - REG_SHADOW_START,
                start + val@.len() <= NUM_REGS,
                forall|k: int| 0 <= k < i ==> self.regs@[start + k] == #[trigger] val@[k],
            decreases val@.len() - i,
        {
            if self.regs[start + i] != val[i] {
                assert(self.regs@.subrange(start as int, start + val@.len())[i as int]
                    != val@[i as int]);
                return false;
            }
            i += 1;
        }
        assert(self.regs@.subrange(start as int, start + val@.len()) =~= val@);
        true
    }

    /// Writes registers, unless the shadow holds the values already. A long write
    /// goes out in several messages; the shadow takes the values after the last.
    pub fn write(&mut self, port: &mut Exchange, reg: u8, val: &[u8]) -> (r: Result<(), Halt>)
        requires
            reg + val@.len() <= u8::MAX,
            val@.len() == 0 || reg <= REG_SHADOW_START + NUM_REGS,
        ensures
            (Run { state: final(self)@, port: final(port)@, flow: flow_of(r) }) == write_run(
                old(self)@,
                old(port)@,
                reg,
                val@,
            ),
    {
        if self.shadow_equal(reg, val) {
            return Ok(());
        }
        let mut pos: usize = 0;
        let ghost all = messages_run(
            port@,
            self@.i2c_addr,
            self@.max_i2c_msg_len,
            reg as int,
            val@,
        );
        assert(val@.skip(0) =~= val@);
        while pos < val.len()
            invariant
                pos <= val@.len(),
                reg + val@.len() <= u8::MAX,
                *self == *old(self),
                !holds(self@.regs, reg as int, val@),
                all == messages_run(
                    old(port)@,
                    self@.i2c_addr,
                    self@.max_i2c_msg_len,
                    reg as int,
                    val@,
                ),
                all == messages_run(
                    port@,
                    self@.i2c_addr,
                    self@.max_i2c_msg_len,
                    reg + pos,
                    val@.skip(pos as int),
                ),
            decreases val@.len() - pos,
        {
            let size: usize = i2c_chunk_size(val.len() - pos, self.max_i2c_msg_len, NUM_REGS + 1);
            let mut message: Vec<u8> = Vec::new();
            message.push(reg + pos as u8);
            message.extend_from_slice(slice_subrange(val, pos, pos + size));
            proof {
                assert(message@ =~= seq![(reg + pos) as u8] + val@.skip(pos as int).take(
                    size as int,
                ));
                assert(val@.skip(pos as int).skip(size as int) =~= val@.skip(pos + size));
            }
            let rc: usize = usb::i2c_write(port, self.i2c_addr, message.as_slice())?;
            if rc != size + 1 {
                return Err(short_transfer_error("write", rc, size + 1));
            }
            pos += size;
        }
        self.shadow_store(reg, val);
        Ok(())
    }

    /// Writes one register.
    pub fn write_reg(&mut self, port: &mut Exchange, reg: u8, val: u8) -> (r: Result<(), Halt>)
        requires
            reg <= REG_SHADOW_START + NUM_REGS,
        ensures
            (Run { state: final(self)@, port: final(port)@, flow: flow_of(r) }) == write_run(
                old(self)@,
                old(port)@,
                reg,
                seq![val],
            ),
    {
        let data: [u8; 1] = [val];
        assert(data@ =~= seq![val]);
        self.write(port, reg, &data)
    }

    /// Returns the shadow of a register, where it has one.
    pub fn read_cache_reg(&self, reg: u8) -> (r: Option<u8>)
        ensures
            r == cached(self@.regs, reg),
    {
        if reg >= REG_SHADOW_START && ((reg - REG_SHADOW_START) as usize) < NUM_REGS {
            Some(self.regs[(reg - REG_SHADOW_START) as usize])
        } else {
            None
        }
    }

    /// Writes the bits under `bit_mask` of one register.
    pub fn write_reg_mask(&mut self, port: &mut Exchange, reg: u8, val: u8, bit_mask: u8) -> (r:
        Result<(), Halt>)
        ensures
            (Run { state: final(self)@, port: final(port)@, flow: flow_of(r) })
                == write_reg_mask_run(old(self)@, old(port)@, reg, val, bit_mask),
    {
        match self.read_cache_reg(reg) {
            Some(old_val) => {
                let new_val: u8 = (old_val & !bit_mask) | (val & bit_mask);
                self.write_reg(port, reg, new_val)
            },
            None => Err(Halt::Failed(RtlSdrError::Tuner(TunerError::ShadowCacheMiss { reg }))),
        }
    }

    /// Reads `len` registers from `reg` on.
    pub fn read(&self, port: &mut Exchange, reg: u8, len: usize) -> (r: Result<Vec<u8>, Halt>)
        requires
            len <= NUM_REGS,
        ensures
            (Run { state: (), port: final(port)@, flow: flow_of_bytes(r) }) == read_run(
                self@,
                old(port)@,
                reg,
                len as nat,
            ),
    {
        let address: [u8; 1] = [reg];
        assert(address@ =~= seq![reg]);
        let rc: usize = usb::i2c_write(port, self.i2c_addr, &address)?;
        if rc != 1 {
            return Err(short_transfer_error("read addr", rc, 1));
        }
        let data: Vec<u8> = usb::i2c_read(port, self.i2c_addr, len)?;
        if data.len() != len {
            return Err(short_transfer_error("read data", data.len(), len));
        }
        let mut out: Vec<u8> = Vec::new();
        let mut i: usize = 0;
        while i < len
            invariant
                i <= len,
                len == data@.len(),
                out@ == Seq::new(i as nat, |k: int| reversed_bits(data@[k])),
            decreases len - i,
        {
            out.push(bitrev(data[i]));
            assert(out@ =~= Seq::new((i + 1) as nat, |k: int| reversed_bits(data@[k])));
            i += 1;
        }
        Ok(out)
    }
}

/// A write to the tuner's registers within a fixed sequence.
#[derive(Clone, Copy, Debug, PartialEq, Eq, Structural)]
pub enum ChipStep {
    /// The bits under `mask` of a register.
    Mask { reg: u8, val: u8, mask: u8 },
    /// A whole register.
    Put { reg: u8, val: u8 },
}

impl ChipStep {
    /// Whether the register can be written.
    pub open spec fn fits(self) -> bool {
        match self {
            ChipStep::Mask { .. } => true,
            ChipStep::Put { reg, .. } => reg <= REG_SHADOW_START + NUM_REGS,
        }
    }

    pub open spec fn run(self, c: Chip, p: Port) -> Run<Chip, ()> {
        match self {
            ChipStep::Mask { reg, val, mask } => write_reg_mask_run(c, p, reg, val, mask),
            ChipStep::Put { reg, val } => write_run(c, p, reg, seq![val]),
        }
    }
}

/// The register writes `steps` one after the other, up to the first that does
/// not go through.
pub open spec fn chip_steps_run(c: Chip, p: Port, steps: Seq<ChipStep>) -> Run<Chip, ()>
    decreases steps.len(),
{
    if steps.len() == 0 {
        Run { state: c, port: p, flow: Flow::Done(()) }
    } else {
        let s = steps[0].run(c, p);
        match s.flow {
            Flow::Done(_) => chip_steps_run(s.state, s.port, steps.drop_first()),
            _ => s,
        }
    }
}

impl R82xxPriv {
    /// Performs register writes in order, up to the first that does not go through.
    pub(crate) fn apply(&mut self, port: &mut Exchange, steps: &[ChipStep]) -> (r: Result<(), Halt>)
        requires
            forall|i: int| 0 <= i < steps@.len() ==> (#[trigger] steps@[i]).fits(),
        ensures
            (Run { state: final(self)@, port: final(port)@, flow: flow_of(r) }) == chip_steps_run(
                old(self)@,
                old(port)@,
                steps@,
            ),
    {
        let mut i: usize = 0;
        assert(steps@.skip(0) =~= steps@);
        while i < steps.len()
            invariant
                i <= steps@.len(),
                forall|k: int| 0 <= k < steps@.len() ==> (#[trigger] steps@[k]).fits(),
                chip_steps_run(old(self)@, old(port)@, steps@) == chip_steps_run(
                    self@,
                    port@,
                    steps@.skip(i as int),
                ),
            decreases steps@.len() - i,
        {
            proof {
                assert(steps@.skip(i as int)[0] == steps@[i as int]);
                assert(steps@.skip(i as int).drop_first() =~= steps@.skip(i + 1));
            }
            match steps[i] {
                ChipStep::Mask { reg, val, mask } => {
                    self.write_reg_mask(port, reg, val, mask)?;
                },
                ChipStep::Put { reg, val } => {
                    self.write_reg(port, reg, val)?;
                },
            }
            i += 1;
        }
        Ok(())
    }
}

/// Sending register values agrees with itself when answers come later.
pub proof fn messages_resume(
    p: Port,
    i2c_addr: u8,
    max_msg_len: nat,
    reg: int,
    val: Seq<u8>,
    more: Seq<Answer>,
)
    ensures
        resumes(
            p,
            messages_run(p, i2c_addr, max_msg_len, reg, val),
            messages_run(later(p, more), i2c_addr, max_msg_len, reg, val),
            more,
        ),
    decreases val.len(),
{
    if val.len() > 0 {
        let size = chunk_size(val.len(), max_msg_len, (NUM_REGS + 1) as nat);
        let data = seq![reg as u8] + val.take(size as int);
        let early = i2c_write_run(p, i2c_addr, data).port;
        let late = i2c_write_run(later(p, more), i2c_addr, data).port;
        in_step(early, late, more);
        let rest = val.skip(size as int);
        messages_resume(early, i2c_addr, max_msg_len, reg + size, rest, more);
        messages_resume(late, i2c_addr, max_msg_len, reg + size, rest, Seq::empty());
    }
}

/// Writing registers agrees with itself when answers come later.
pub proof fn write_resumes(c: Chip, p: Port, reg: u8, val: Seq<u8>, more: Seq<Answer>)
    ensures
        resumes(p, write_run(c, p, reg, val), write_run(c, later(p, more), reg, val), more),
{
    messages_resume(p, c.i2c_addr, c.max_i2c_msg_len, reg as int, val, more);
}

/// Writing under a mask agrees with itself when answers come later.
pub proof fn write_reg_mask_resumes(
    c: Chip,
    p: Port,
    reg: u8,
    val: u8,
    mask: u8,
    more: Seq<Answer>,
)
    ensures
        resumes(
            p,
            write_reg_mask_run(c, p, reg, val, mask),
            write_reg_mask_run(c, later(p, more), reg, val, mask),
            more,
        ),
{
    if let Some(old) = cached(c.regs, reg) {
        write_resumes(c, p, reg, seq![masked(old, val, mask)], more);
    }
}

/// Reading registers agrees with itself when answers come later.
pub proof fn read_resumes(c: Chip, p: Port, reg: u8, len: nat, more: Seq<Answer>)
    ensures
        resumes(p, read_run(c, p, reg, len), read_run(c, later(p, more), reg, len), more),
{
    let early = i2c_write_run(p, c.i2c_addr, seq![reg]).port;
    let late = i2c_write_run(later(p, more), c.i2c_addr, seq![reg]).port;
    in_step(early, late, more);
}

/// A sequence of register writes agrees with itself when answers come later.
pub proof fn chip_steps_resume(c: Chip, p: Port, steps: Seq<ChipStep>, more: Seq<Answer>)
    ensures
        resumes(p, chip_steps_run(c, p, steps), chip_steps_run(c, later(p, more), steps), more),
    decreases steps.len(),
{
    if steps.len() > 0 {
        match steps[0] {
            ChipStep::Mask { reg, val, mask } => {
                write_reg_mask_resumes(c, p, reg, val, mask, more);
            },
            ChipStep::Put { reg, val } => {
                write_resumes(c, p, reg, seq![val], more);
            },
        }
        let early = steps[0].run(c, p);
        let late = steps[0].run(c, later(p, more));
        in_step(early.port, late.port, more);
        chip_steps_resume(early.state, early.port, steps.drop_first(), more);
        chip_steps_resume(late.state, late.port, steps.drop_first(), Seq::empty());
    }
}

/// Reading registers, where it goes through, gives as many bytes as were asked for, and each
/// bit of them is the one at the opposite place of the byte that came.
pub proof fn registers_are_read_reversed(c: Chip, p: Port, reg: u8, len: nat, i: int, k: u8)
    requires
        read_run(c, p, reg, len).flow is Done,
        0 <= i < len,
        k < 8,
    ensures
        ({
            let r = read_run(c, p, reg, len);
            let data = r.flow->Done_0;
            let at = p.sent.len() as int;
            &&& data.len() == len
            &&& r.port.sent.len() == at + 2
            &&& r.port.sent[at] == (Transfer::Out {
                value: c.i2c_addr as u16,
                index: 0x0610,
                data: seq![reg],
            })
            &&& r.port.sent[at + 1] == (Transfer::In {
                value: c.i2c_addr as u16,
                index: 0x0600,
                len,
            })
            &&& r.port.replies[at + 1] matches Answer::Received(raw) && raw.len() >= len && ((
            data[i] >> k) & 1 == 1) == ((raw[i] >> (7 - k) as u8) & 1 == 1)
        }),
{
    let r = read_run(c, p, reg, len);
    let at = p.sent.len() as int;
    let raw = r.port.replies[at + 1]->Received_0;
    let b = raw[i];
    let s = reversed_bits(b);
    let j = (7 - k) as u8;
    assert(((s >> k) & 1 == 1) == ((b >> j) & 1 == 1)) by (bit_vector)
        requires
            s == ((b & 0x01) << 7) | ((b & 0x02) << 5) | ((b & 0x04) << 3) | ((b & 0x08) << 1) | ((b
                & 0x10) >> 1) | ((b & 0x20) >> 3) | ((b & 0x40) >> 5) | ((b & 0x80) >> 7),
            k < 8,
            j == 7 - k,
    ;
}

} // verus!
