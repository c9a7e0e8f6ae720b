//! What the transfers sent have left in the registers of the RTL2832U.
//!
//! The registers are not read back: what one holds is the last byte that a transfer
//! wrote to it. These functions read the transfers as the chip does, byte by byte, and
//! share nothing with the code that makes them.

use vstd::prelude::*;

use crate::exchange::{goes_on, Answer, Port, Run, Transfer};
use crate::usb::{
    demod_value, demod_write_index, reg_bytes, steps_resume, steps_run, write_index, RegStep,
};

verus! {

/// A byte register of the RTL2832U.
pub enum Place {
    /// A register of a page of the demodulator.
    Demod { page: int, addr: int },
    /// A register of a block: 1 is USB, 2 the system.
    Block { number: int, addr: int },
}

/// The byte that a transfer writes to a register, where it does. The bytes of a
/// transfer go to successive registers from the one that it names.
pub open spec fn put_at(t: Transfer, place: Place) -> Option<u8> {
    match t {
        Transfer::In { .. } => None,
        Transfer::Out { value, index, data } => match place {
            Place::Demod { page, addr } => {
                if 0 <= page < 16 && index == 16 + page && value % 256 == 32 && value / 256 <= addr
                    < value / 256 + data.len() {
                    Some(data[addr - value / 256])
                } else {
                    None
                }
            },
            Place::Block { number, addr } => {
                if number > 0 && index == 256 * number + 16 && value <= addr < value + data.len() {
                    Some(data[addr - value])
                } else {
                    None
                }
            },
        },
    }
}

/// What a register holds after the transfers `sent`, where one of them wrote it.
pub open spec fn held_at(sent: Seq<Transfer>, place: Place) -> Option<u8>
    decreases sent.len(),
{
    if sent.len() == 0 {
        None
    } else {
        match put_at(sent.last(), place) {
            Some(b) => Some(b),
            None => held_at(sent.drop_last(), place),
        }
    }
}

/// Whether a run does not write a register.
pub open spec fn spares<S, A>(p: Port, r: Run<S, A>, place: Place) -> bool {
    &&& goes_on(p.sent, r.port.sent)
    &&& forall|i: int|
        p.sent.len() <= i < r.port.sent.len() ==> put_at(#[trigger] r.port.sent[i], place) is None
}

/// Whether a transfer leaves the demodulator alone: it is a read, or a write to another
/// block.
pub open spec fn beside_demod(t: Transfer) -> bool {
    match t {
        Transfer::In { .. } => true,
        Transfer::Out { index, .. } => index >= 256,
    }
}

/// Whether a run does not write any register of the demodulator.
pub open spec fn spares_demod<S, A>(p: Port, r: Run<S, A>) -> bool {
    &&& goes_on(p.sent, r.port.sent)
    &&& forall|i: int|
        p.sent.len() <= i < r.port.sent.len() ==> beside_demod(#[trigger] r.port.sent[i])
}

/// Transfers that do not write a register leave in it what it held.
pub proof fn spared_register_stays(short: Seq<Transfer>, long: Seq<Transfer>, place: Place)
    requires
        goes_on(short, long),
        forall|i: int|
            short.len() <= i < long.len() ==> put_at(#[trigger] long[i], place) is None,
    ensures
        held_at(long, place) == held_at(short, place),
    decreases long.len(),
{
    if long.len() == short.len() {
        assert(long =~= short);
    } else {
        spared_register_stays(short, long.drop_last(), place);
    }
}

/// A run that spares the demodulator leaves its registers as they were.
pub proof fn spared_demod_stays<S, A>(p: Port, r: Run<S, A>, page: int, addr: int)
    requires
        spares_demod(p, r),
    ensures
        held_at(r.port.sent, Place::Demod { page, addr }) == held_at(
            p.sent,
            Place::Demod { page, addr },
        ),
{
    let place = Place::Demod { page, addr };
    assert forall|i: int| p.sent.len() <= i < r.port.sent.len() implies put_at(
        #[trigger] r.port.sent[i],
        place,
    ) is None by {
        assert(beside_demod(r.port.sent[i]));
    }
    spared_register_stays(p.sent, r.port.sent, place);
}

/// Two runs that spare the demodulator, one after the other, spare it.
pub proof fn spares_demod_in_turn<S, A, T, B>(p: Port, a: Run<S, A>, b: Run<T, B>)
    requires
        spares_demod(p, a),
        spares_demod(a.port, b),
    ensures
        spares_demod(p, b),
{
    assert forall|i: int| p.sent.len() <= i < b.port.sent.len() implies beside_demod(
        #[trigger] b.port.sent[i],
    ) by {
        if i < a.port.sent.len() {
            assert(b.port.sent[i] == a.port.sent[i]);
        }
    }
    assert forall|i: int| 0 <= i < p.sent.len() implies p.sent[i]
        == #[trigger] b.port.sent[i] by {
        assert(a.port.sent[i] == b.port.sent[i]);
    }
}

/// What a register holds after one transfer more.
pub proof fn held_after_one(sent: Seq<Transfer>, t: Transfer, place: Place)
    ensures
        held_at(sent.push(t), place) == (match put_at(t, place) {
            Some(b) => Some(b),
            None => held_at(sent, place),
        }),
{
    assert(sent.push(t).drop_last() =~= sent);
}

/// The transfer of a register write.
pub open spec fn step_transfer(step: RegStep) -> Transfer {
    match step {
        RegStep::Block { block, addr, val, len } => Transfer::Out {
            value: addr,
            index: write_index(block),
            data: reg_bytes(val, len as nat),
        },
        RegStep::Demod { page, addr, val, len } => Transfer::Out {
            value: demod_value(addr),
            index: demod_write_index(page),
            data: reg_bytes(val, len as nat),
        },
    }
}

/// What a register that held `before` holds after the register writes `steps`.
pub open spec fn after_steps(before: Option<u8>, steps: Seq<RegStep>, place: Place) -> Option<u8>
    decreases steps.len(),
{
    if steps.len() == 0 {
        before
    } else {
        after_steps(
            match put_at(step_transfer(steps[0]), place) {
                Some(b) => Some(b),
                None => before,
            },
            steps.drop_first(),
            place,
        )
    }
}

/// A register write that went through leaves its bytes; each that did not leaves them,
/// too, or nothing.
pub proof fn step_leaves_its_bytes(p: Port, step: RegStep, place: Place)
    ensures
        goes_on(p.sent, step.run(p).port.sent),
        step.run(p).flow is Done ==> held_at(step.run(p).port.sent, place) == (match put_at(
            step_transfer(step),
            place,
        ) {
            Some(b) => Some(b),
            None => held_at(p.sent, place),
        }),
{
    let end = step.run(p).port.sent;
    let t = step_transfer(step);
    held_after_one(p.sent, t, place);
    if step.run(p).flow is Done {
        match step {
            RegStep::Block { .. } => {
                assert(end =~= p.sent.push(t));
            },
            RegStep::Demod { .. } => {
                held_after_one(p.sent.push(t), end.last(), place);
                assert(end =~= p.sent.push(t).push(end.last()));
            },
        }
    }
}

/// Register writes that went through leave in each register what the last of them wrote
/// to it.
pub proof fn steps_leave_their_bytes(p: Port, steps: Seq<RegStep>, place: Place)
    ensures
        goes_on(p.sent, steps_run(p, steps).port.sent),
        steps_run(p, steps).flow is Done ==> held_at(steps_run(p, steps).port.sent, place)
            == after_steps(held_at(p.sent, place), steps, place),
    decreases steps.len(),
{
    if steps.len() > 0 {
        let s = steps[0].run(p);
        step_leaves_its_bytes(p, steps[0], place);
        if s.flow is Done {
            steps_leave_their_bytes(s.port, steps.drop_first(), place);
            let end = steps_run(p, steps).port.sent;
            assert forall|i: int| 0 <= i < p.sent.len() implies p.sent[i]
                == #[trigger] end[i] by {
                assert(s.port.sent[i] == end[i]);
            }
        }
    }
}

/// Two runs that spare a register, one after the other, spare it.
pub proof fn spares_in_turn<S, A, T, B>(p: Port, a: Run<S, A>, b: Run<T, B>, place: Place)
    requires
        spares(p, a, place),
        spares(a.port, b, place),
    ensures
        spares(p, b, place),
{
    assert forall|i: int| p.sent.len() <= i < b.port.sent.len() implies put_at(
        #[trigger] b.port.sent[i],
        place,
    ) is None by {
        if i < a.port.sent.len() {
            assert(b.port.sent[i] == a.port.sent[i]);
        }
    }
    assert forall|i: int| 0 <= i < p.sent.len() implies p.sent[i]
        == #[trigger] b.port.sent[i] by {
        assert(a.port.sent[i] == b.port.sent[i]);
    }
}

/// A run that spares the demodulator spares each of its registers.
pub proof fn spared_demod_is_spared<S, A>(p: Port, r: Run<S, A>, page: int, addr: int)
    requires
        spares_demod(p, r),
    ensures
        spares(p, r, Place::Demod { page, addr }),
{
    assert forall|i: int| p.sent.len() <= i < r.port.sent.len() implies put_at(
        #[trigger] r.port.sent[i],
        Place::Demod { page, addr },
    ) is None by {
        assert(beside_demod(r.port.sent[i]));
    }
}

/// Register writes none of which names a register spare it, however they end.
pub proof fn steps_spare(p: Port, steps: Seq<RegStep>, place: Place)
    requires
        forall|i: int|
            0 <= i < steps.len() ==> put_at(step_transfer(#[trigger] steps[i]), place) is None,
    ensures
        spares(p, steps_run(p, steps), place),
    decreases steps.len(),
{
    if steps.len() > 0 {
        let s = steps[0].run(p);
        assert(put_at(step_transfer(steps[0]), place) is None);
        assert(s.port.sent[p.sent.len() as int] == step_transfer(steps[0]));
        assert(spares(p, s, place));
        if s.flow is Done {
            assert forall|i: int| 0 <= i < steps.drop_first().len() implies put_at(
                step_transfer(#[trigger] steps.drop_first()[i]),
                place,
            ) is None by {
                assert(steps.drop_first()[i] == steps[i + 1]);
            }
            steps_spare(s.port, steps.drop_first(), place);
            spares_in_turn(p, s, steps_run(s.port, steps.drop_first()), place);
        }
    }
}

/// A register that no write names keeps what it held; one that a write names, and no later
/// one, holds what that write put there.
pub proof fn last_write_stands(before: Option<u8>, steps: Seq<RegStep>, place: Place, i: int)
    requires
        -1 <= i < steps.len(),
        i >= 0 ==> put_at(step_transfer(steps[i]), place) is Some,
        forall|j: int|
            i < j < steps.len() ==> put_at(step_transfer(#[trigger] steps[j]), place) is None,
    ensures
        after_steps(before, steps, place) == (if i >= 0 {
            put_at(step_transfer(steps[i]), place)
        } else {
            before
        }),
    decreases steps.len(),
{
    if steps.len() > 0 {
        let rest = steps.drop_first();
        let next = match put_at(step_transfer(steps[0]), place) {
            Some(b) => Some(b),
            None => before,
        };
        assert forall|j: int|
            0 <= j < rest.len() && i - 1 < j implies put_at(
            step_transfer(#[trigger] rest[j]),
            place,
        ) is None by {
            assert(rest[j] == steps[j + 1]);
        }
        if i < 0 {
            assert(put_at(step_transfer(steps[0]), place) is None);
            last_write_stands(next, rest, place, -1);
        } else if i == 0 {
            last_write_stands(next, rest, place, -1);
        } else {
            last_write_stands(next, rest, place, i - 1);
        }
    }
}

/// Register writes in two parts leave what the second leaves after the first.
pub proof fn after_steps_in_parts(
    before: Option<u8>,
    one: Seq<RegStep>,
    other: Seq<RegStep>,
    place: Place,
)
    ensures
        after_steps(before, one + other, place) == after_steps(
            after_steps(before, one, place),
            other,
            place,
        ),
    decreases one.len(),
{
    if one.len() == 0 {
        assert(one + other =~= other);
    } else {
        assert((one + other).drop_first() =~= one.drop_first() + other);
        after_steps_in_parts(
            match put_at(step_transfer(one[0]), place) {
                Some(b) => Some(b),
                None => before,
            },
            one.drop_first(),
            other,
            place,
        );
    }
}

/// Whether every write from the position `from` on whose answer is at hand was taken whole.
pub open spec fn taken_whole(p: Port, from: int) -> bool {
    forall|i: int|
        from <= i < p.sent.len() && i < p.replies.len() ==> (
        #[trigger] p.sent[i] matches Transfer::Out { data, .. } ==> p.replies[i] == Answer::Sent(
            data.len(),
        ))
}

/// Whether every transfer from the position `from` on whose answer is at hand was answered
/// in full: writes taken whole, and for reads as many bytes as were asked for.
pub open spec fn answered_in_full(p: Port, from: int) -> bool {
    &&& taken_whole(p, from)
    &&& forall|i: int|
        from <= i < p.sent.len() && i < p.replies.len() ==> (
        #[trigger] p.sent[i] matches Transfer::In { len, .. } ==> (
        p.replies[i] matches Answer::Received(data) && data.len() >= len))
}

/// Transfers that were all answered in full were so in each part of the conversation.
pub proof fn answered_in_part(early: Port, late: Port, from: int, later_from: int)
    requires
        answered_in_full(late, from),
        goes_on(early.sent, late.sent),
        early.replies == late.replies,
        0 <= from <= later_from,
    ensures
        answered_in_full(early, later_from),
{
    taken_in_part(early, late, from, later_from);
    assert forall|i: int|
        later_from <= i < early.sent.len() && i < early.replies.len() implies (
    #[trigger] early.sent[i] matches Transfer::In { len, .. } ==> (
    early.replies[i] matches Answer::Received(data) && data.len() >= len)) by {
        assert(late.sent[i] == early.sent[i]);
    }
}

/// Writes that were all taken whole were so in each part of the conversation.
pub proof fn taken_in_part(early: Port, late: Port, from: int, later_from: int)
    requires
        taken_whole(late, from),
        goes_on(early.sent, late.sent),
        early.replies == late.replies,
        0 <= from <= later_from,
    ensures
        taken_whole(early, later_from),
{
    assert forall|i: int|
        later_from <= i < early.sent.len() && i < early.replies.len() implies (
    #[trigger] early.sent[i] matches Transfer::Out { data, .. } ==> early.replies[i]
        == Answer::Sent(data.len())) by {
        assert(late.sent[i] == early.sent[i]);
    }
}

/// Register writes that were all taken whole do not fail.
pub proof fn taken_steps_go_through(p: Port, steps: Seq<RegStep>)
    requires
        forall|i: int| 0 <= i < steps.len() ==> (#[trigger] steps[i]).fits(),
        taken_whole(steps_run(p, steps).port, p.sent.len() as int),
    ensures
        !(steps_run(p, steps).flow is Failed),
    decreases steps.len(),
{
    if steps.len() > 0 {
        let s = steps[0].run(p);
        let r = steps_run(p, steps);
        let rest = steps.drop_first();
        assert(steps[0].fits());
        assert(s.port.sent[p.sent.len() as int] == step_transfer(steps[0]));
        steps_resume(s.port, rest, Seq::empty());
        assert(r.port.sent[p.sent.len() as int] == step_transfer(steps[0]));
        if s.flow is Done {
            assert forall|i: int| 0 <= i < rest.len() implies (#[trigger] rest[i]).fits() by {
                assert(rest[i] == steps[i + 1]);
            }
            taken_in_part(r.port, r.port, p.sent.len() as int, s.port.sent.len() as int);
            taken_steps_go_through(s.port, rest);
        }
    }
}

/// A write of one byte to a demodulator register leaves that byte in it and in no other;
/// one of two bytes leaves the high byte in it and the low one in the next.
pub proof fn demod_step_bytes(page: u8, addr: u16, val: u16, len: u8, place: Place)
    requires
        page < 16,
        addr < 256,
        1 <= len <= 2,
    ensures
        ({
            let put = put_at(step_transfer(RegStep::Demod { page, addr, val, len }), place);
            match place {
                Place::Demod { page: at_page, addr: at } => if at_page != page {
                    put is None
                } else if at == addr {
                    put == Some(
                        if len == 1 {
                            (val % 256) as u8
                        } else {
                            (val / 256) as u8
                        },
                    )
                } else if len == 2 && at == addr + 1 {
                    put == Some((val % 256) as u8)
                } else {
                    put is None
                },
                Place::Block { .. } => put is None,
            }
        }),
{
    let wide: u16 = page as u16;
    assert(0x10u16 | wide == 16 + wide) by (bit_vector)
        requires
            wide < 16,
    ;
}

} // verus!
