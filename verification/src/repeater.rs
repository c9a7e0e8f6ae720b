//! The I2C repeater, as the transfers sent leave it.
//!
//! The tuner hears nothing while the repeater is off. The repeater belongs to the
//! device: it is switched on before an operation of the tuner and off after it, and
//! the tuner's driver leaves it alone.

use vstd::prelude::*;

use crate::exchange::{goes_on, Port, Run, Transfer};
use crate::reg::Block;
use crate::usb::{demod_value, demod_write_index, read_index, write_index};
use crate::wire::{beside_demod, spares_demod};

verus! {

/// What a transfer switches the repeater to, where it does. The switch is bit 3 of
/// the demodulator register 0x01 on page 1.
pub open spec fn switched(t: Transfer) -> Option<bool> {
    match t {
        Transfer::Out { value, index, data } => {
            if value == demod_value(0x01) && index == demod_write_index(1) && data.len() > 0 {
                Some((data.last() / 8) % 2 == 1)
            } else {
                None
            }
        },
        Transfer::In { .. } => None,
    }
}

/// Whether the repeater is on after the transfers `sent`, if it was off before them.
pub open spec fn repeater_on(sent: Seq<Transfer>) -> bool
    decreases sent.len(),
{
    if sent.len() == 0 {
        false
    } else {
        match switched(sent.last()) {
            Some(on) => on,
            None => repeater_on(sent.drop_last()),
        }
    }
}

/// Whether a transfer is one over the I2C bus, to the tuner or from it.
pub open spec fn over_i2c(t: Transfer) -> bool {
    match t {
        Transfer::In { index, .. } => index == read_index(Block::Iic),
        Transfer::Out { index, .. } => index == write_index(Block::Iic),
    }
}

/// Whether every transfer over the I2C bus from the position `from` on is made
/// while the repeater is on.
pub open spec fn heard(sent: Seq<Transfer>, from: int) -> bool {
    forall|i: int|
        from <= i < sent.len() && over_i2c(#[trigger] sent[i]) ==> repeater_on(sent.take(i))
}

/// Whether a run does not switch the repeater.
pub open spec fn untouched<S, A>(p: Port, r: Run<S, A>) -> bool {
    &&& goes_on(p.sent, r.port.sent)
    &&& forall|i: int|
        p.sent.len() <= i < r.port.sent.len() ==> switched(#[trigger] r.port.sent[i]) is None
}

/// Two runs that do not switch the repeater, one after the other, do not switch it.
pub proof fn untouched_in_turn<S, A, T, B>(p: Port, a: Run<S, A>, b: Run<T, B>)
    requires
        untouched(p, a),
        untouched(a.port, b),
    ensures
        untouched(p, b),
{
    assert forall|i: int| p.sent.len() <= i < b.port.sent.len() implies switched(
        #[trigger] b.port.sent[i],
    ) is None by {
        if i < a.port.sent.len() {
            assert(b.port.sent[i] == a.port.sent[i]);
        }
    }
    assert forall|i: int| 0 <= i < p.sent.len() implies p.sent[i]
        == #[trigger] b.port.sent[i] by {
        assert(a.port.sent[i] == b.port.sent[i]);
    }
}

/// A run that writes nothing in the demodulator does not switch the repeater.
pub proof fn spared_is_untouched<S, A>(p: Port, r: Run<S, A>)
    requires
        spares_demod(p, r),
    ensures
        untouched(p, r),
{
    assert(demod_write_index(1) == 17) by {
        assert(0x10u16 | 1u16 == 17u16) by (bit_vector);
    }
    assert forall|i: int| p.sent.len() <= i < r.port.sent.len() implies switched(
        #[trigger] r.port.sent[i],
    ) is None by {
        assert(beside_demod(r.port.sent[i]));
    }
}

/// Transfers that do not switch the repeater leave it as it was.
pub proof fn untouched_stays(short: Seq<Transfer>, long: Seq<Transfer>)
    requires
        goes_on(short, long),
        forall|i: int| short.len() <= i < long.len() ==> switched(#[trigger] long[i]) is None,
    ensures
        repeater_on(long) == repeater_on(short),
    decreases long.len(),
{
    if long.len() == short.len() {
        assert(long =~= short);
    } else {
        untouched_stays(short, long.drop_last());
    }
}

/// A run that starts with the repeater on and does not switch it is heard.
pub proof fn untouched_is_heard<S, A>(p: Port, r: Run<S, A>)
    requires
        untouched(p, r),
        repeater_on(p.sent),
    ensures
        heard(r.port.sent, p.sent.len() as int),
        repeater_on(r.port.sent),
{
    untouched_stays(p.sent, r.port.sent);
    assert forall|i: int|
        p.sent.len() <= i < r.port.sent.len() && over_i2c(
            #[trigger] r.port.sent[i],
        ) implies repeater_on(r.port.sent.take(i)) by {
        untouched_stays(p.sent, r.port.sent.take(i));
    }
}

/// What is heard in two parts is heard as a whole.
pub proof fn heard_in_turn(short: Seq<Transfer>, long: Seq<Transfer>, from: int)
    requires
        goes_on(short, long),
        0 <= from <= short.len(),
        heard(short, from),
        heard(long, short.len() as int),
    ensures
        heard(long, from),
{
    assert forall|i: int| from <= i < long.len() && over_i2c(#[trigger] long[i]) implies repeater_on(
        long.take(i),
    ) by {
        if i < short.len() {
            assert(long[i] == short[i]);
            assert(long.take(i) =~= short.take(i));
        }
    }
}

/// A transfer to a register block does not switch the repeater.
pub proof fn block_is_not_the_switch(block: Block, value: u16, data: Seq<u8>)
    ensures
        switched(Transfer::Out { value, index: write_index(block), data }) is None,
{
    assert(demod_write_index(1) == 17) by {
        assert(0x10u16 | 1u16 == 17u16) by (bit_vector);
    }
}

} // verus!
