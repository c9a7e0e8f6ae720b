//! What the registers of the RTL2832U hold once its baseband is brought up.

use vstd::prelude::*;

use crate::device::meaning::demod;
use crate::device::sampling::reset_buffer_steps;
use crate::exchange::{Port, Transfer};
use crate::reg::{Block, DEMOD_CTL};
use crate::usb::{
    baseband_closing, baseband_opening, deinit_baseband_run, fir_bytes,
    fir_bytes_hold_the_coefficients, fir_fault, fir_steps, init_baseband_run, set_fir_run, signed,
    steps_run, RegStep, FIR_LEN,
};
use crate::wire::{
    demod_step_bytes, held_at, last_write_stands, put_at, spared_register_stays,
    step_leaves_its_bytes, step_transfer, steps_leave_their_bytes, steps_spare,
    taken_steps_go_through, taken_whole, Place,
};

verus! {

/// What a register of a block holds after the transfers `sent`; -1 where none wrote it. The
/// USB block has the number 1, the system block 2.
pub open spec fn block(sent: Seq<Transfer>, number: int, addr: int) -> int {
    match held_at(sent, Place::Block { number, addr }) {
        Some(b) => b as int,
        None => -1,
    }
}

/// A write of one or two bytes to a register of a block leaves its bytes there, the high one
/// first, and no other anywhere.
proof fn block_step_bytes(b: Block, addr: u16, val: u16, len: u8, place: Place)
    requires
        b == Block::Usb || b == Block::Sys,
        1 <= len <= 2,
    ensures
        ({
            let put = put_at(step_transfer(RegStep::Block { block: b, addr, val, len }), place);
            match place {
                Place::Block { number, addr: at } => if number != (if b == Block::Usb {
                    1int
                } else {
                    2int
                }) {
                    put is None
                } else if at == addr {
                    put == Some(
                        if len == 1 {
                            (val % 256) as u8
                        } else {
                            (val / 256) as u8
                        },
                    )
                } else if len == 2 && at == addr + 1 {
                    put == Some((val % 256) as u8)
                } else {
                    put is None
                },
                Place::Demod { .. } => put is None,
            }
        }),
{
}

/// Whether a step is a write of one or two bytes to the demodulator, the USB block or the
/// system block.
spec fn is_plain(step: RegStep) -> bool {
    match step {
        RegStep::Block { block, len, .. } => (block == Block::Usb || block == Block::Sys) && 1
            <= len <= 2,
        RegStep::Demod { page, addr, len, .. } => page < 16 && addr < 256 && 1 <= len <= 2,
    }
}

/// Whether a step writes a register.
spec fn covers(step: RegStep, place: Place) -> bool {
    match (step, place) {
        (RegStep::Block { block, addr, len, .. }, Place::Block { number, addr: at }) => number == (
        if block == Block::Usb {
            1int
        } else {
            2int
        }) && addr <= at < addr + len,
        (RegStep::Demod { page, addr, len, .. }, Place::Demod { page: at_page, addr: at }) => {
            page == at_page && addr <= at < addr + len
        },
        _ => false,
    }
}

/// The byte that a step writes to a register that it covers.
spec fn byte_for(step: RegStep, place: Place) -> u8 {
    let (start, val, len): (int, u16, u8) = match step {
        RegStep::Block { addr, val, len, .. } => (addr as int, val, len),
        RegStep::Demod { addr, val, len, .. } => (addr as int, val, len),
    };
    let at = match place {
        Place::Block { addr, .. } => addr,
        Place::Demod { addr, .. } => addr,
    };
    if len == 2 && at == start {
        (val / 256) as u8
    } else {
        (val % 256) as u8
    }
}

proof fn plain_step_bytes(step: RegStep, place: Place)
    requires
        is_plain(step),
    ensures
        put_at(step_transfer(step), place) == (if covers(step, place) {
            Some(byte_for(step, place))
        } else {
            None
        }),
{
    match step {
        RegStep::Block { block, addr, val, len } => block_step_bytes(block, addr, val, len, place),
        RegStep::Demod { page, addr, val, len } => demod_step_bytes(page, addr, val, len, place),
    }
}

proof fn plain_steps_leave(p: Port, steps: Seq<RegStep>, place: Place, i: int)
    requires
        steps_run(p, steps).flow is Done,
        forall|j: int| 0 <= j < steps.len() ==> is_plain(#[trigger] steps[j]),
        0 <= i < steps.len(),
        covers(steps[i], place),
        forall|j: int| i < j < steps.len() ==> !covers(#[trigger] steps[j], place),
    ensures
        held_at(steps_run(p, steps).port.sent, place) == Some(byte_for(steps[i], place)),
{
    steps_leave_their_bytes(p, steps, place);
    plain_step_bytes(steps[i], place);
    assert forall|j: int| i < j < steps.len() implies put_at(
        step_transfer(#[trigger] steps[j]),
        place,
    ) is None by {
        plain_step_bytes(steps[j], place);
    }
    last_write_stands(held_at(p.sent, place), steps, place, i);
}

proof fn plain_steps_spare(p: Port, steps: Seq<RegStep>, place: Place)
    requires
        forall|j: int| 0 <= j < steps.len() ==> is_plain(#[trigger] steps[j]),
        forall|j: int| 0 <= j < steps.len() ==> !covers(#[trigger] steps[j], place),
    ensures
        held_at(steps_run(p, steps).port.sent, place) == held_at(p.sent, place),
{
    assert forall|j: int| 0 <= j < steps.len() implies put_at(
        step_transfer(#[trigger] steps[j]),
        place,
    ) is None by {
        plain_step_bytes(steps[j], place);
    }
    steps_spare(p, steps, place);
    spared_register_stays(p.sent, steps_run(p, steps).port.sent, place);
}

/// Loading the coefficients, once it went through, leaves them in the registers from 0x1c
/// on of page 1: the first eight in a byte each, the others in twelve bits each, two in
/// three bytes; all two's complement.
pub proof fn filter_holds_the_coefficients(p: Port, fir: Seq<i32>, i: int, pair: int)
    requires
        fir.len() == FIR_LEN,
        set_fir_run(p, fir).flow is Done,
        0 <= i < 8,
        0 <= pair < 4,
    ensures
        ({
            let sent = set_fir_run(p, fir).port.sent;
            let at = 0x24 + 3 * pair;
            let (b0, b1, b2): (int, int, int) = (
                demod(sent, 1, at),
                demod(sent, 1, at + 1),
                demod(sent, 1, at + 2),
            );
            &&& signed(demod(sent, 1, 0x1c + i), 256) == fir[i]
            &&& signed(16 * b0 + b1 / 16, 4096) == fir[8 + 2 * pair]
            &&& signed(256 * (b1 % 16) + b2, 4096) == fir[9 + 2 * pair]
        }),
{
    fir_bytes_hold_the_coefficients(fir, i, pair);
    let bytes = fir_bytes(fir);
    fir_byte_lands(p, fir, i);
    fir_byte_lands(p, fir, 8 + 3 * pair);
    fir_byte_lands(p, fir, 9 + 3 * pair);
    fir_byte_lands(p, fir, 10 + 3 * pair);
    let at = 8 + 3 * pair;
    assert(bytes[at] == bytes[8 + 3 * pair] && bytes[at + 1] == bytes[9 + 3 * pair] && bytes[at + 2]
        == bytes[10 + 3 * pair]);
}

proof fn fir_byte_lands(p: Port, fir: Seq<i32>, k: int)
    requires
        set_fir_run(p, fir).flow is Done,
        fir_bytes(fir).len() == 20,
        0 <= k < 20,
    ensures
        demod(set_fir_run(p, fir).port.sent, 1, 0x1c + k) == fir_bytes(fir)[k],
{
    let steps = fir_steps(fir_bytes(fir));
    plain_steps_leave(p, steps, Place::Demod { page: 1, addr: 0x1c + k }, k);
}

/// Whether the USB side and the power of the demodulator are up: packets of 512 bytes, the
/// endpoint of the samples stalled and empty, the demodulator and its ADCs on.
pub open spec fn is_powered(sent: Seq<Transfer>) -> bool {
    &&& block(sent, 1, 0x2000) == 0x09
    &&& block(sent, 1, 0x2158) == 0x00
    &&& block(sent, 1, 0x2159) == 0x02
    &&& block(sent, 1, 0x2148) == 0x10
    &&& block(sent, 1, 0x2149) == 0x02
    &&& block(sent, 2, 0x300b) == 0x22
    &&& block(sent, 2, 0x3000) == 0xe8
}

/// Whether the demodulator is out of reset and in the mode for samples: no inversion, no
/// shift, no AGC, no PID filter, zero-IF mode, no clock output.
pub open spec fn is_up(sent: Seq<Transfer>) -> bool {
    &&& demod(sent, 1, 0x01) == 0x10
    &&& demod(sent, 1, 0x15) == 0x00
    &&& demod(sent, 1, 0x16) == 0x00
    &&& demod(sent, 1, 0x17) == 0x00
    &&& demod(sent, 1, 0x18) == 0x00
    &&& demod(sent, 1, 0x19) == 0x00
    &&& demod(sent, 1, 0x1a) == 0x00
    &&& demod(sent, 1, 0x1b) == 0x00
    &&& demod(sent, 0, 0x19) == 0x05
    &&& demod(sent, 1, 0x93) == 0xf0
    &&& demod(sent, 1, 0x94) == 0x0f
    &&& demod(sent, 1, 0x11) == 0x00
    &&& demod(sent, 1, 0x04) == 0x00
    &&& demod(sent, 0, 0x61) == 0x60
    &&& demod(sent, 0, 0x06) == 0x80
    &&& demod(sent, 1, 0xb1) == 0x1b
    &&& demod(sent, 0, 0x0d) == 0x83
}

proof fn opening_is_plain()
    ensures
        baseband_opening().len() == 15,
        forall|j: int| 0 <= j < 15 ==> is_plain(#[trigger] baseband_opening()[j]),
{
}

proof fn closing_is_plain()
    ensures
        baseband_closing().len() == 9,
        forall|j: int| 0 <= j < 9 ==> is_plain(#[trigger] baseband_closing()[j]),
{
}

proof fn opening_leaves(p: Port, fir: Seq<i32>, place: Place, i: int)
    requires
        fir.len() == FIR_LEN,
        init_baseband_run(p, fir).flow is Done,
        0 <= i < 15,
        covers(baseband_opening()[i], place),
        forall|j: int| i < j < 15 ==> !covers(#[trigger] baseband_opening()[j], place),
        place matches Place::Demod { page, addr } ==> page == 1 && (addr == 0x01 || 0x15 <= addr
            <= 0x1b),
    ensures
        held_at(init_baseband_run(p, fir).port.sent, place) == Some(
            byte_for(baseband_opening()[i], place),
        ),
{
    opening_is_plain();
    closing_is_plain();
    let a = steps_run(p, baseband_opening());
    let b = set_fir_run(a.port, fir);
    plain_steps_leave(p, baseband_opening(), place, i);
    fir_bytes_hold_the_coefficients(fir, 0, 0);
    plain_steps_spare(a.port, fir_steps(fir_bytes(fir)), place);
    plain_steps_spare(b.port, baseband_closing(), place);
}

proof fn closing_leaves(p: Port, fir: Seq<i32>, place: Place, i: int)
    requires
        init_baseband_run(p, fir).flow is Done,
        0 <= i < 9,
        covers(baseband_closing()[i], place),
        forall|j: int| i < j < 9 ==> !covers(#[trigger] baseband_closing()[j], place),
    ensures
        held_at(init_baseband_run(p, fir).port.sent, place) == Some(
            byte_for(baseband_closing()[i], place),
        ),
{
    closing_is_plain();
    let a = steps_run(p, baseband_opening());
    let b = set_fir_run(a.port, fir);
    plain_steps_leave(b.port, baseband_closing(), place, i);
}

/// Bringing up the baseband, once it went through, leaves the USB side powered and the
/// demodulator in the mode for samples.
pub proof fn baseband_is_up(p: Port, fir: Seq<i32>)
    requires
        fir.len() == FIR_LEN,
        init_baseband_run(p, fir).flow is Done,
    ensures
        is_powered(init_baseband_run(p, fir).port.sent),
        is_up(init_baseband_run(p, fir).port.sent),
{
    opening_leaves(p, fir, Place::Block { number: 1, addr: 0x2000 }, 0);
    opening_leaves(p, fir, Place::Block { number: 1, addr: 0x2158 }, 1);
    opening_leaves(p, fir, Place::Block { number: 1, addr: 0x2159 }, 1);
    opening_leaves(p, fir, Place::Block { number: 1, addr: 0x2148 }, 2);
    opening_leaves(p, fir, Place::Block { number: 1, addr: 0x2149 }, 2);
    opening_leaves(p, fir, Place::Block { number: 2, addr: 0x300b }, 3);
    opening_leaves(p, fir, Place::Block { number: 2, addr: 0x3000 }, 4);
    opening_leaves(p, fir, Place::Demod { page: 1, addr: 0x01 }, 6);
    opening_leaves(p, fir, Place::Demod { page: 1, addr: 0x15 }, 7);
    opening_leaves(p, fir, Place::Demod { page: 1, addr: 0x16 }, 9);
    opening_leaves(p, fir, Place::Demod { page: 1, addr: 0x17 }, 10);
    opening_leaves(p, fir, Place::Demod { page: 1, addr: 0x18 }, 11);
    opening_leaves(p, fir, Place::Demod { page: 1, addr: 0x19 }, 12);
    opening_leaves(p, fir, Place::Demod { page: 1, addr: 0x1a }, 13);
    opening_leaves(p, fir, Place::Demod { page: 1, addr: 0x1b }, 14);
    closing_leaves(p, fir, Place::Demod { page: 0, addr: 0x19 }, 0);
    closing_leaves(p, fir, Place::Demod { page: 1, addr: 0x93 }, 1);
    closing_leaves(p, fir, Place::Demod { page: 1, addr: 0x94 }, 2);
    closing_leaves(p, fir, Place::Demod { page: 1, addr: 0x11 }, 3);
    closing_leaves(p, fir, Place::Demod { page: 1, addr: 0x04 }, 4);
    closing_leaves(p, fir, Place::Demod { page: 0, addr: 0x61 }, 5);
    closing_leaves(p, fir, Place::Demod { page: 0, addr: 0x06 }, 6);
    closing_leaves(p, fir, Place::Demod { page: 1, addr: 0xb1 }, 7);
    closing_leaves(p, fir, Place::Demod { page: 0, addr: 0x0d }, 8);
}

/// Powering off leaves the demodulator and its ADCs off.
pub proof fn baseband_is_down(p: Port)
    requires
        deinit_baseband_run(p).flow is Done,
    ensures
        block(deinit_baseband_run(p).port.sent, 2, 0x3000) == 0x20,
{
    let place = Place::Block { number: 2, addr: 0x3000 };
    let step = RegStep::Block { block: Block::Sys, addr: DEMOD_CTL, val: 0x20, len: 1 };
    step_leaves_its_bytes(p, step, place);
    plain_step_bytes(step, place);
}

/// Resetting the buffer leaves the endpoint of the samples running and empty.
pub proof fn endpoint_is_cleared(p: Port)
    requires
        steps_run(p, reset_buffer_steps()).flow is Done,
    ensures
        block(steps_run(p, reset_buffer_steps()).port.sent, 1, 0x2148) == 0x00,
        block(steps_run(p, reset_buffer_steps()).port.sent, 1, 0x2149) == 0x00,
{
    plain_steps_leave(p, reset_buffer_steps(), Place::Block { number: 1, addr: 0x2148 }, 1);
    plain_steps_leave(p, reset_buffer_steps(), Place::Block { number: 1, addr: 0x2149 }, 1);
}

/// Whether the coefficients fit: the first eight in eight bits, the others in twelve.
pub open spec fn coefficients_fit(fir: Seq<i32>) -> bool {
    &&& forall|i: int| 0 <= i < 8 ==> -128 <= #[trigger] fir[i] <= 127
    &&& forall|i: int| 8 <= i < 16 ==> -2048 <= #[trigger] fir[i] <= 2047
}

proof fn fitting_coefficients_are_taken(fir: Seq<i32>, from: nat)
    requires
        coefficients_fit(fir),
        from <= 16,
        from < 8 || from % 2 == 0,
    ensures
        fir_fault(fir, from) is None,
    decreases 17 - from,
{
    if from < 8 {
        fitting_coefficients_are_taken(fir, from + 1);
    } else if from < 16 {
        fitting_coefficients_are_taken(fir, from + 2);
    }
}

proof fn taken_coefficients_fit(fir: Seq<i32>, from: nat, i: int)
    requires
        fir_fault(fir, from) is None,
        from <= i < 16,
        from < 8 || from % 2 == 0,
    ensures
        i < 8 ==> -128 <= fir[i] <= 127,
        8 <= i ==> -2048 <= fir[i] <= 2047,
    decreases 17 - from,
{
    if from < 8 {
        if i > from {
            taken_coefficients_fit(fir, from + 1, i);
        }
    } else if i > from + 1 {
        taken_coefficients_fit(fir, from + 2, i);
    }
}

/// Coefficients are refused exactly where one does not fit, and nothing is sent then; those
/// that fit are loaded where every write is taken whole.
pub proof fn coefficients_are_taken_where_they_fit(p: Port, fir: Seq<i32>)
    ensures
        !coefficients_fit(fir) ==> set_fir_run(p, fir).flow is Failed && set_fir_run(p, fir).port
            == p,
        coefficients_fit(fir) && taken_whole(set_fir_run(p, fir).port, p.sent.len() as int) ==> !(
        set_fir_run(p, fir).flow is Failed),
{
    if coefficients_fit(fir) {
        fitting_coefficients_are_taken(fir, 0);
        if taken_whole(set_fir_run(p, fir).port, p.sent.len() as int) {
            taken_steps_go_through(p, fir_steps(fir_bytes(fir)));
        }
    } else if fir_fault(fir, 0) is None {
        assert forall|i: int| 0 <= i < 16 implies (i < 8 ==> -128 <= #[trigger] fir[i] <= 127) && (8
            <= i ==> -2048 <= fir[i] <= 2047) by {
            taken_coefficients_fit(fir, 0, i);
        }
        assert(coefficients_fit(fir));
    }
}

} // verus!
