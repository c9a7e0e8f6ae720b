//! Frequency synthesis of the R82XX tuners: divider, PLL word, lock.

use vstd::prelude::*;

use crate::error::{Fault, RtlSdrError, TunerError, TunerFault};
use crate::exchange::{
    flow_of, in_step, later, resumes, stopped, Answer, Exchange, Flow, Halt, Port, Run,
};
use crate::tuner::r82xx::constants::{R82xxChip, REG_SHADOW_START};
use crate::tuner::r82xx::i2c::{
    masked, read_resumes, read_run, write_reg_mask_resumes, write_reg_mask_run, write_resumes,
    write_run,
};
use crate::tuner::r82xx::{Chip, R82xxPriv};

verus! {

/// Lowest frequency of the VCO in kHz.
pub const VCO_MIN_KHZ: u32 = 1_770_000;

/// First frequency in kHz that the VCO does not reach.
pub const VCO_MAX_KHZ: u32 = 3_540_000;

/// Returns `reg` with the bits under `mask` taken from `val`.
pub fn mask_reg8(reg: u8, val: u8, mask: u8) -> (r: u8)
    ensures
        r == masked(reg, val, mask),
{
    (reg & !mask) | (val & mask)
}

/// The bits of the result under the mask are those of `val`, the others those of
/// `reg`.
pub proof fn mask_selects_bits(reg: u8, val: u8, mask: u8)
    ensures
        masked(reg, val, mask) & mask == val & mask,
        masked(reg, val, mask) & !mask == reg & !mask,
{
    assert(masked(reg, val, mask) & mask == val & mask) by (bit_vector);
    assert(masked(reg, val, mask) & !mask == reg & !mask) by (bit_vector);
}

/// `freq` in kHz, rounded; near the largest frequency the rounding stops at the
/// largest number.
pub open spec fn in_khz(freq: u32) -> int {
    if freq + 500 > u32::MAX {
        u32::MAX as int / 1000
    } else {
        (freq + 500) / 1000
    }
}

/// The divider with the number `n`.
pub open spec fn divider(n: int) -> int {
    if n <= 0 {
        2
    } else if n == 1 {
        4
    } else if n == 2 {
        8
    } else if n == 3 {
        16
    } else if n == 4 {
        32
    } else {
        64
    }
}

/// Whether the divider `d` puts the VCO for a mixer frequency of `khz` into its
/// range.
pub open spec fn in_range(khz: int, d: int) -> bool {
    VCO_MIN_KHZ <= khz * d < VCO_MAX_KHZ
}

/// The number of the divider for a mixer frequency of `khz`, where there is one.
pub open spec fn divider_number(khz: int) -> Option<int> {
    if in_range(khz, 2) {
        Some(0)
    } else if in_range(khz, 4) {
        Some(1)
    } else if in_range(khz, 8) {
        Some(2)
    } else if in_range(khz, 16) {
        Some(3)
    } else if in_range(khz, 32) {
        Some(4)
    } else if in_range(khz, 64) {
        Some(5)
    } else {
        None
    }
}

/// There is a divider exactly for the frequencies from 27 657 kHz up to, but not
/// including, 1 770 000 kHz, and never more than one.
pub proof fn divider_exists_once(khz: int, n: int)
    requires
        0 <= n < 6,
    ensures
        divider_number(khz) is Some <==> 27_657 <= khz < 1_770_000,
        in_range(khz, divider(n)) <==> divider_number(khz) == Some(n),
{
}

/// Reference of the VCO's fine tuning.
pub open spec fn power_ref(chip: R82xxChip) -> int {
    if chip == R82xxChip::R828D {
        1
    } else {
        2
    }
}

/// The divider number that is programmed: moved by one where the fine tuning that
/// the status byte reports lies off the reference.
pub open spec fn tuned_number(chip: R82xxChip, n: int, status: u8) -> int {
    let fine = (status & 0x30) >> 4;
    if fine > power_ref(chip) {
        if n > 0 {
            n - 1
        } else {
            0
        }
    } else if fine < power_ref(chip) {
        n + 1
    } else {
        n
    }
}

/// The PLL word: VCO frequency over twice the reference, in units of 2^-16,
/// rounded.
pub open spec fn pll_word(xtal: u32, freq: u32, d: int) -> int {
    (xtal + 65536 * (freq * d)) / (2 * xtal as int)
}

/// The integer part of the PLL word.
pub open spec fn pll_nint(word: int) -> int {
    (word / 65536) % 0x1_0000_0000
}

/// The fraction of the PLL word in units of 2^-16.
pub open spec fn pll_sdm(word: int) -> int {
    word % 65536
}

/// A frequency that cannot be programmed.
pub open spec fn unreachable_freq(freq: u32, reason: Seq<char>) -> Fault {
    Fault::Tuner(TunerFault::PllProgrammingFailed { backend: "R82xx"@, freq_hz: freq, reason })
}

/// What keeps the integer part of a PLL word from being programmed.
pub open spec fn nint_fault(chip: R82xxChip, freq: u32, nint: int) -> Option<Fault> {
    if nint < 13 {
        Some(unreachable_freq(freq, "PLL nint below 13 (frequency too low at this divider)"@))
    } else if nint > 128int / power_ref(chip) - 1 {
        Some(unreachable_freq(freq, "PLL nint above max (frequency too high at this divider)"@))
    } else {
        None
    }
}

/// The register byte that holds the integer part `nint`: a quotient in the low
/// six bits, a remainder in the high two.
pub open spec fn nint_byte(nint: int) -> u8 {
    ((nint - 13) / 4 + 64 * ((nint - 13) % 4)) as u8
}

/// The values of the registers 0x10 to 0x16 for a PLL word, out of the values
/// that they had.
pub open spec fn pll_regs(before: Seq<u8>, number: int, word: int) -> Seq<u8> {
    let nint = pll_nint(word);
    let sdm = pll_sdm(word);
    seq![
        masked(masked(before[0], 0x00, 0x10), (32 * number) as u8, 0xe0),
        before[1],
        masked(
            masked(before[2], 0x80, 0xe0),
            if sdm == 0 {
                0x08
            } else {
                0x00
            },
            0x08,
        ),
        before[3],
        nint_byte(nint),
        (sdm % 256) as u8,
        (sdm / 256) as u8,
    ]
}

/// The shadow of the registers 0x10 to 0x16.
pub open spec fn pll_shadow(c: Chip) -> Seq<u8> {
    c.regs.subrange(0x10 - REG_SHADOW_START, 0x17 - REG_SHADOW_START)
}

/// The end of a PLL programming that has locked.
pub open spec fn locked_run(c: Chip, p: Port) -> Run<Chip, ()> {
    write_reg_mask_run(c, p, 0x1a, 0x08, 0x08)
}

/// Whether the status bytes `data` report a lock.
pub open spec fn reports_lock(data: Seq<u8>) -> bool {
    data[2] & 0x40 != 0
}

/// The second look for a lock.
pub open spec fn second_look_run(c: Chip, p: Port, freq: u32) -> Run<Chip, ()> {
    let f = read_run(c, p, 0x00, 3);
    match f.flow {
        Flow::Done(data) => if reports_lock(data) {
            locked_run(c, f.port)
        } else {
            Run {
                state: c,
                port: f.port,
                flow: Flow::Failed(Fault::Tuner(TunerFault::PllNotLocked { freq_hz: freq })),
            }
        },
        _ => stopped(c, f),
    }
}

/// Looking for a lock. After a first look in vain the VCO current is raised.
pub open spec fn lock_run(c: Chip, p: Port, freq: u32) -> Run<Chip, ()> {
    let f = read_run(c, p, 0x00, 3);
    match f.flow {
        Flow::Done(data) => if reports_lock(data) {
            locked_run(c, f.port)
        } else {
            let w = write_reg_mask_run(c, f.port, 0x12, 0x60, 0xe0);
            match w.flow {
                Flow::Done(_) => second_look_run(w.state, w.port, freq),
                _ => w,
            }
        },
        _ => stopped(c, f),
    }
}

/// Programming the PLL with the divider of number `n`, once the status byte
/// `status` is known.
pub open spec fn program_run(c: Chip, p: Port, freq: u32, n: int, status: u8) -> Run<Chip, ()> {
    let word = pll_word(c.xtal, freq, divider(n));
    match nint_fault(c.rafael_chip, freq, pll_nint(word)) {
        Some(e) => Run { state: c, port: p, flow: Flow::Failed(e) },
        None => {
            let regs = pll_regs(pll_shadow(c), tuned_number(c.rafael_chip, n, status), word);
            let w = write_run(c, p, 0x10, regs);
            match w.flow {
                Flow::Done(_) => lock_run(w.state, w.port, freq),
                _ => w,
            }
        },
    }
}

/// Reading the status and programming the PLL with the divider of number `n`.
pub open spec fn divided_run(c: Chip, p: Port, freq: u32, n: int) -> Run<Chip, ()> {
    let f = read_run(c, p, 0x00, 5);
    match f.flow {
        Flow::Done(data) => program_run(c, f.port, freq, n, data[4]),
        _ => stopped(c, f),
    }
}

/// Setting the PLL to `freq` Hz.
pub open spec fn set_pll_run(c: Chip, p: Port, freq: u32) -> Run<Chip, ()> {
    if c.xtal == 0 {
        Run { state: c, port: p, flow: Flow::Failed(Fault::Tuner(TunerFault::XtalIsZero)) }
    } else {
        let a = write_reg_mask_run(c, p, 0x1a, 0x00, 0x0c);
        match a.flow {
            Flow::Done(_) => match divider_number(in_khz(freq)) {
                Some(n) => divided_run(a.state, a.port, freq, n),
                None => Run {
                    state: a.state,
                    port: a.port,
                    flow: Flow::Failed(unreachable_freq(freq, "no valid VCO divider"@)),
                },
            },
            _ => a,
        }
    }
}

fn find_divider(freq_khz: u32) -> (r: Option<(u32, u8)>)
    ensures
        match r {
            Some((mix_div, div_num)) => {
                &&& divider_number(freq_khz as int) == Some(div_num as int)
                &&& mix_div == divider(div_num as int)
                &&& div_num < 6
            },
            None => divider_number(freq_khz as int) is None,
        },
{
    let mut mix_div: u32 = 2;
    let mut div_num: u8 = 0;
    while mix_div <= 64
        invariant
            div_num <= 6,
            div_num < 6 ==> mix_div == divider(div_num as int),
            div_num == 6 ==> mix_div == 128,
            forall|m: int|
                0 <= m < div_num ==> !in_range(freq_khz as int, #[trigger] divider(m)),
        decreases 128 - mix_div,
    {
        assert(freq_khz * mix_div <= 0xffff_ffff * 64) by (nonlinear_arith)
            requires
                freq_khz <= 0xffff_ffff,
                mix_div <= 64,
        ;
        let mix_freq: u64 = freq_khz as u64 * mix_div as u64;
        if mix_freq >= VCO_MIN_KHZ as u64 && mix_freq < VCO_MAX_KHZ as u64 {
            proof {
                divider_exists_once(freq_khz as int, div_num as int);
            }
            return Some((mix_div, div_num));
        }
        mix_div = mix_div * 2;
        div_num += 1;
    }
    proof {
        assert(!in_range(freq_khz as int, divider(0)));
        assert(!in_range(freq_khz as int, divider(1)));
        assert(!in_range(freq_khz as int, divider(2)));
        assert(!in_range(freq_khz as int, divider(3)));
        assert(!in_range(freq_khz as int, divider(4)));
        assert(!in_range(freq_khz as int, divider(5)));
    }
    None
}

fn round_to_khz(freq: u32) -> (r: u32)
    ensures
        r == in_khz(freq),
{
    freq.saturating_add(500) / 1000
}

fn unreachable_error(freq: u32, reason: &'static str) -> (r: Halt)
    ensures
        r matches Halt::Failed(e) && e@ == unreachable_freq(freq, reason@),
{
    Halt::Failed(
        RtlSdrError::Tuner(
            TunerError::PllProgrammingFailed { backend: "R82xx", freq_hz: freq, reason },
        ),
    )
}

fn word_for(xtal: u32, freq: u32, mix_div: u32) -> (r: u64)
    requires
        xtal > 0,
        mix_div <= 64,
    ensures
        r == pll_word(xtal, freq, mix_div as int),
{
    assert(freq * mix_div <= 0xffff_ffff * 64) by (nonlinear_arith)
        requires
            freq <= 0xffff_ffff,
            mix_div <= 64,
    ;
    let vco_freq: u64 = freq as u64 * mix_div as u64;
    (xtal as u64 + 65536 * vco_freq) / (2 * xtal as u64)
}

fn tune_number(chip: R82xxChip, div_num: u8, status: u8) -> (r: u8)
    requires
        div_num < 6,
    ensures
        r == tuned_number(chip, div_num as int, status),
        r <= 6,
{
    let vco_power_ref: u8 = if chip == R82xxChip::R828D {
        1
    } else {
        2
    };
    let vco_fine_tune: u8 = (status & 0x30) >> 4;
    if vco_fine_tune > vco_power_ref {
        div_num.saturating_sub(1)
    } else if vco_fine_tune < vco_power_ref {
        div_num + 1
    } else {
        div_num
    }
}

impl R82xxPriv {
    fn pll_values(&self, div_num: u8, vco_div: u64) -> (r: [u8; 7])
        requires
            div_num <= 6,
            13 <= pll_nint(vco_div as int) <= 127,
        ensures
            r@ == pll_regs(pll_shadow(self@), div_num as int, vco_div as int),
    {
        let nint: u32 = ((vco_div / 65536) % 0x1_0000_0000) as u32;
        let sdm: u32 = (vco_div % 65536) as u32;
        let first: usize = 0x10 - REG_SHADOW_START as usize;
        let mut regs: [u8; 7] = [
            self.regs[first],
            self.regs[first + 1],
            self.regs[first + 2],
            self.regs[first + 3],
            self.regs[first + 4],
            self.regs[first + 5],
            self.regs[first + 6],
        ];
        regs[0] = mask_reg8(mask_reg8(regs[0], 0x00, 0x10), 32 * div_num, 0xe0);
        regs[2] = mask_reg8(regs[2], 0x80, 0xe0);
        let ni: u8 = ((nint - 13) / 4) as u8;
        let si: u8 = (nint - 4 * ni as u32 - 13) as u8;
        regs[4] = ni + 64 * si;
        let val: u8 = if sdm == 0 {
            0x08
        } else {
            0x00
        };
        regs[2] = mask_reg8(regs[2], val, 0x08);
        regs[5] = (sdm % 256) as u8;
        regs[6] = (sdm / 256) as u8;
        assert(regs@ =~= pll_regs(pll_shadow(self@), div_num as int, vco_div as int));
        regs
    }

    fn await_lock(&mut self, port: &mut Exchange, freq: u32) -> (r: Result<(), Halt>)
        ensures
            (Run { state: final(self)@, port: final(port)@, flow: flow_of(r) }) == lock_run(
                old(self)@,
                old(port)@,
                freq,
            ),
    {
        let data: Vec<u8> = self.read(port, 0x00, 3)?;
        if data[2] & 0x40 == 0 {
            self.write_reg_mask(port, 0x12, 0x60, 0xe0)?;
            let data: Vec<u8> = self.read(port, 0x00, 3)?;
            if data[2] & 0x40 == 0 {
                return Err(
                    Halt::Failed(RtlSdrError::Tuner(TunerError::PllNotLocked { freq_hz: freq })),
                );
            }
        }
        self.write_reg_mask(port, 0x1a, 0x08, 0x08)
    }

    /// Sets the PLL to `freq` Hz and waits for the lock.
    pub fn set_pll(&mut self, port: &mut Exchange, freq: u32) -> (r: Result<(), Halt>)
        ensures
            (Run { state: final(self)@, port: final(port)@, flow: flow_of(r) }) == set_pll_run(
                old(self)@,
                old(port)@,
                freq,
            ),
    {
        if self.xtal == 0 {
            return Err(Halt::Failed(RtlSdrError::Tuner(TunerError::XtalIsZero)));
        }
        // PLL autotune 128 kHz
        self.write_reg_mask(port, 0x1a, 0x00, 0x0c)?;
        let (mix_div, div_num): (u32, u8) = match find_divider(round_to_khz(freq)) {
            Some(d) => d,
            None => {
                return Err(unreachable_error(freq, "no valid VCO divider"));
            },
        };
        let data: Vec<u8> = self.read(port, 0x00, 5)?;
        let number: u8 = tune_number(self.rafael_chip, div_num, data[4]);
        let vco_div: u64 = word_for(self.xtal, freq, mix_div);
        let nint: u64 = (vco_div / 65536) % 0x1_0000_0000;
        if nint < 13 {
            return Err(
                unreachable_error(freq, "PLL nint below 13 (frequency too low at this divider)"),
            );
        }
        let nint_max: u64 = if self.rafael_chip == R82xxChip::R828D {
            127
        } else {
            63
        };
        if nint > nint_max {
            return Err(
                unreachable_error(freq, "PLL nint above max (frequency too high at this divider)"),
            );
        }
        let regs: [u8; 7] = self.pll_values(number, vco_div);
        self.write(port, 0x10, &regs)?;
        self.await_lock(port, freq)
    }
}

/// The second look for a lock agrees with itself when answers come later.
pub proof fn second_look_resumes(c: Chip, p: Port, freq: u32, more: Seq<Answer>)
    ensures
        resumes(p, second_look_run(c, p, freq), second_look_run(c, later(p, more), freq), more),
{
    read_resumes(c, p, 0x00, 3, more);
    let early = read_run(c, p, 0x00, 3).port;
    let late = read_run(c, later(p, more), 0x00, 3).port;
    in_step(early, late, more);
    write_reg_mask_resumes(c, early, 0x1a, 0x08, 0x08, more);
    write_reg_mask_resumes(c, late, 0x1a, 0x08, 0x08, Seq::empty());
}

/// Looking for a lock agrees with itself when answers come later.
pub proof fn lock_resumes(c: Chip, p: Port, freq: u32, more: Seq<Answer>)
    ensures
        resumes(p, lock_run(c, p, freq), lock_run(c, later(p, more), freq), more),
{
    read_resumes(c, p, 0x00, 3, more);
    let early = read_run(c, p, 0x00, 3).port;
    let late = read_run(c, later(p, more), 0x00, 3).port;
    in_step(early, late, more);
    write_reg_mask_resumes(c, early, 0x1a, 0x08, 0x08, more);
    write_reg_mask_resumes(c, late, 0x1a, 0x08, 0x08, Seq::empty());
    write_reg_mask_resumes(c, early, 0x12, 0x60, 0xe0, more);
    write_reg_mask_resumes(c, late, 0x12, 0x60, 0xe0, Seq::empty());
    let early2 = write_reg_mask_run(c, early, 0x12, 0x60, 0xe0);
    let late2 = write_reg_mask_run(c, late, 0x12, 0x60, 0xe0);
    in_step(early2.port, late2.port, more);
    second_look_resumes(early2.state, early2.port, freq, more);
    second_look_resumes(late2.state, late2.port, freq, Seq::empty());
}

/// Programming the PLL agrees with itself when answers come later.
pub proof fn program_resumes(
    c: Chip,
    p: Port,
    freq: u32,
    n: int,
    status: u8,
    more: Seq<Answer>,
)
    ensures
        resumes(
            p,
            program_run(c, p, freq, n, status),
            program_run(c, later(p, more), freq, n, status),
            more,
        ),
{
    let word = pll_word(c.xtal, freq, divider(n));
    let regs = pll_regs(pll_shadow(c), tuned_number(c.rafael_chip, n, status), word);
    write_resumes(c, p, 0x10, regs, more);
    let early = write_run(c, p, 0x10, regs);
    let late = write_run(c, later(p, more), 0x10, regs);
    in_step(early.port, late.port, more);
    lock_resumes(early.state, early.port, freq, more);
    lock_resumes(late.state, late.port, freq, Seq::empty());
}

/// Setting the PLL agrees with itself when answers come later.
pub proof fn set_pll_resumes(c: Chip, p: Port, freq: u32, more: Seq<Answer>)
    ensures
        resumes(p, set_pll_run(c, p, freq), set_pll_run(c, later(p, more), freq), more),
{
    write_reg_mask_resumes(c, p, 0x1a, 0x00, 0x0c, more);
    let early = write_reg_mask_run(c, p, 0x1a, 0x00, 0x0c);
    let late = write_reg_mask_run(c, later(p, more), 0x1a, 0x00, 0x0c);
    in_step(early.port, late.port, more);
    if let Some(n) = divider_number(in_khz(freq)) {
        divided_resumes(early.state, early.port, freq, n, more);
        divided_resumes(late.state, late.port, freq, n, Seq::empty());
    }
}

/// Reading the status and programming the PLL agrees with itself when answers
/// come later.
pub proof fn divided_resumes(c: Chip, p: Port, freq: u32, n: int, more: Seq<Answer>)
    ensures
        resumes(p, divided_run(c, p, freq, n), divided_run(c, later(p, more), freq, n), more),
{
    read_resumes(c, p, 0x00, 5, more);
    let early = read_run(c, p, 0x00, 5);
    let late = read_run(c, later(p, more), 0x00, 5);
    in_step(early.port, late.port, more);
    if let Flow::Done(data) = early.flow {
        program_resumes(c, early.port, freq, n, data[4], more);
    }
    if let Flow::Done(data) = late.flow {
        program_resumes(c, late.port, freq, n, data[4], Seq::empty());
    }
}

/// The PLL word that the registers 0x14 to 0x16 hold.
pub open spec fn word_in(regs: Seq<u8>) -> int {
    65536 * (13 + 4 * (regs[4] % 64) + regs[4] / 64) + 256 * regs[6] + regs[5]
}

/// The registers hold the PLL word that was programmed, and that word is the
/// nearest to the wanted ratio: twice the reference times the word misses the
/// VCO frequency, in units of 2^-16, by at most the reference. Words of more than
/// 48 bits, which only a crystal of a few Hz gives, are left out.
pub proof fn pll_registers_hold_nearest_word(
    before: Seq<u8>,
    chip: R82xxChip,
    number: int,
    xtal: u32,
    freq: u32,
    n: int,
)
    requires
        before.len() == 7,
        xtal > 0,
        0 <= n < 6,
        pll_word(xtal, freq, divider(n)) < 0x1_0000_0000_0000,
        nint_fault(chip, freq, pll_nint(pll_word(xtal, freq, divider(n)))) is None,
    ensures
        ({
            let word = pll_word(xtal, freq, divider(n));
            &&& word_in(pll_regs(before, number, word)) == word
            &&& -(xtal as int) <= 2 * xtal * word - 65536 * (freq * divider(n)) <= xtal
        }),
{
    let word = pll_word(xtal, freq, divider(n));
    let nint = pll_nint(word);
    let x = xtal + 65536 * (freq * divider(n));
    assert(freq * divider(n) >= 0) by (nonlinear_arith)
        requires
            freq >= 0,
            divider(n) >= 0,
    ;
    vstd::arithmetic::div_mod::lemma_fundamental_div_mod(x, 2 * xtal as int);
    assert(2 * xtal * word == (2 * xtal as int) * (x / (2 * xtal as int))) by (nonlinear_arith)
        requires
            word == x / (2 * xtal as int),
    ;
    assert(0 <= x % (2 * xtal as int) < 2 * xtal);
    assert(word >= 0) by {
        vstd::arithmetic::div_mod::lemma_div_pos_is_pos(x, 2 * xtal as int);
    }
    assert(nint == word / 65536);
    let q = (nint - 13) / 4;
    let r = (nint - 13) % 4;
    assert(nint_byte(nint) == q + 64 * r);
}

/// With a crystal from 28 to 60 MHz every frequency that has a divider can be
/// programmed: its PLL word is never out of range.
pub proof fn usual_crystals_reach_every_divided_frequency(
    chip: R82xxChip,
    xtal: u32,
    freq: u32,
    n: int,
)
    requires
        28_000_000 <= xtal <= 60_000_000,
        divider_number(in_khz(freq)) == Some(n),
    ensures
        nint_fault(chip, freq, pll_nint(pll_word(xtal, freq, divider(n)))) is None,
{
    divider_exists_once(in_khz(freq), n);
    let d = divider(n);
    let vco = freq * d;
    assert(1_769_968_000 <= vco < 3_540_032_000) by {
        let khz = in_khz(freq);
        assert(1000 * khz - 500 <= freq < 1000 * khz + 500);
        assert(d == 2 || d == 4 || d == 8 || d == 16 || d == 32 || d == 64);
    }
    let x = xtal + 65536 * vco;
    let word = pll_word(xtal, freq, d);
    let b = 2 * xtal as int;
    vstd::arithmetic::div_mod::lemma_fundamental_div_mod(x, b);
    let rem = x % b;
    assert(x == b * word + rem);
    assert(851_968 <= word < 4_194_304) by (nonlinear_arith)
        requires
            x == b * word + rem,
            0 <= rem < b,
            56_000_000 <= b <= 120_000_000,
            65536 * 1_769_968_000 <= x,
            x < 60_000_000 + 65536 * 3_540_032_000,
            2 * x < b + 2 * 65536 * 3_540_032_000,
    ;
}

/// Looking for a lock succeeds only where one of the two looks reported one.
pub proof fn no_success_without_lock(c: Chip, p: Port, freq: u32)
    ensures
        lock_run(c, p, freq).flow is Done ==> {
            let first = read_run(c, p, 0x00, 3);
            let raised = write_reg_mask_run(c, first.port, 0x12, 0x60, 0xe0);
            let second = read_run(raised.state, raised.port, 0x00, 3);
            ||| first.flow matches Flow::Done(data) && reports_lock(data)
            ||| second.flow matches Flow::Done(data) && reports_lock(data)
        },
{
}

} // verus!
