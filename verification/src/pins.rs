//! The pins of the RTL2832U, as the transfers sent leave them.

use vstd::prelude::*;

use crate::exchange::{goes_on, Answer, Port, Transfer};
use crate::reg::{Block, GPD, GPOE};
use crate::usb::{other_pins_stay, pin_run, read_reg_run, set_gpio_output_run, with_pin};

verus! {

/// Bit `k` of a byte.
pub open spec fn bit(b: u8, k: u8) -> bool {
    (b >> k) & 1 == 1
}

/// Whether the transfers from the position `at` on are a read of a system register and a
/// write of it back, with the bit of the pin `gpio` set exactly where `on` says so, and
/// every other bit as it was read.
pub open spec fn changes_pin(port: Port, at: int, addr: u16, gpio: u8, on: bool) -> bool {
    &&& 0 <= at && at + 1 < port.sent.len()
    &&& port.sent[at] == (Transfer::In { value: addr, index: 0x0200, len: 1 })
    &&& port.replies[at] matches Answer::Received(was) && port.sent[at
        + 1] matches Transfer::Out { value, index, data } && {
        let old: u8 = if was.len() > 0 {
            was[0]
        } else {
            0
        };
        &&& value == addr
        &&& index == 0x0210
        &&& data.len() == 1
        &&& forall|k: u8|
            k < 8 ==> #[trigger] bit(data[0], k) == (if k == gpio {
                on
            } else {
                bit(old, k)
            })
    }
}

proof fn low_byte_bits(r: u16, k: u8)
    requires
        k < 8,
    ensures
        bit((r % 256) as u8, k) == ((r >> k) & 1 == 1),
{
    let b = (r % 256) as u8;
    assert(((b >> k) & 1 == 1) == ((r >> k) & 1 == 1)) by (bit_vector)
        requires
            k < 8,
            b == (r % 256) as u8,
    ;
}

/// Changing a pin, once it went through, changes it.
pub proof fn pin_is_changed(p: Port, addr: u16, gpio: u8, on: bool)
    requires
        gpio < 16,
        pin_run(p, addr, gpio, on).flow is Done,
    ensures
        ({
            let r = pin_run(p, addr, gpio, on);
            &&& goes_on(p.sent, r.port.sent)
            &&& r.port.sent.len() == p.sent.len() + 2
            &&& r.port.replies == p.replies
            &&& changes_pin(r.port, p.sent.len() as int, addr, gpio, on)
        }),
{
    let f = read_reg_run(p, Block::Sys, addr);
    let r = pin_run(p, addr, gpio, on);
    let was = p.replies[p.sent.len() as int]->Received_0;
    let old: u8 = if was.len() > 0 {
        was[0]
    } else {
        0
    };
    let wide = f.flow->Done_0;
    assert(wide == old as u16);
    let new = with_pin(wide, gpio, on);
    let data = r.port.sent[p.sent.len() as int + 1]->data;
    assert(data =~= seq![(new % 256) as u8]);
    assert forall|k: u8| k < 8 implies #[trigger] bit(data[0], k) == (if k == gpio {
        on
    } else {
        bit(old, k)
    }) by {
        low_byte_bits(new, k);
        low_byte_bits(wide, k);
        other_pins_stay(wide, gpio, on, k);
        assert((wide % 256) as u8 == old);
    }
}

/// What a transfer did to a pin stays done when others follow.
pub proof fn change_stays(early: Port, late: Port, at: int, addr: u16, gpio: u8, on: bool)
    requires
        changes_pin(early, at, addr, gpio, on),
        goes_on(early.sent, late.sent),
        early.replies == late.replies,
    ensures
        changes_pin(late, at, addr, gpio, on),
{
    assert(early.sent[at] == late.sent[at]);
    assert(early.sent[at + 1] == late.sent[at + 1]);
}

/// Making a pin an output clears its bit in the direction register, 0x3004, and sets it in
/// the output-enable register, 0x3003.
pub proof fn pin_becomes_an_output(p: Port, gpio: u8)
    requires
        gpio < 16,
        set_gpio_output_run(p, gpio).flow is Done,
    ensures
        ({
            let r = set_gpio_output_run(p, gpio);
            let at = p.sent.len() as int;
            &&& goes_on(p.sent, r.port.sent)
            &&& r.port.sent.len() == at + 4
            &&& r.port.replies == p.replies
            &&& changes_pin(r.port, at, 0x3004, gpio, false)
            &&& changes_pin(r.port, at + 2, 0x3003, gpio, true)
        }),
{
    let d = pin_run(p, GPD, gpio, false);
    pin_is_changed(p, GPD, gpio, false);
    pin_is_changed(d.port, GPOE, gpio, true);
    change_stays(
        d.port,
        set_gpio_output_run(p, gpio).port,
        p.sent.len() as int,
        GPD,
        gpio,
        false,
    );
}

} // verus!
