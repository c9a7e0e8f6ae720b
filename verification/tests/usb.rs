use librtlsdr_rs::error::{RtlSdrError, UsbError};
use librtlsdr_rs::exchange::{Exchange, Halt, Reply, Request};
use librtlsdr_rs::reg::{Block, DEMOD_CTL, GPD, GPO, GPOE};
use librtlsdr_rs::usb::{
    ctrl_timeout, deinit_baseband, demod_read_reg, demod_write_reg, i2c_read, i2c_read_reg,
    i2c_write, i2c_write_reg, init_baseband, pack_fir, read_array, read_reg, set_fir,
    set_gpio_bit, set_gpio_output, set_i2c_repeater, write_array, write_reg,
};

fn out(value: u16, index: u16, data: &[u8]) -> Request {
    Request::ControlOut { value, index, data: data.to_vec() }
}

fn input(value: u16, index: u16, len: usize) -> Request {
    Request::ControlIn { value, index, len }
}

const FIR: [i32; 16] = [
    -54, -36, -41, -40, -32, -14, 14, 53, 101, 156, 215, 273, 327, 372, 404, 421,
];

#[test]
fn operation_waits_for_its_answer() {
    let mut port = Exchange::new(vec![]);
    let r = read_reg(&mut port, Block::Sys, GPO);
    assert_eq!(r, Err(Halt::Waiting));
    assert_eq!(port.awaited(), Some(&input(0x3001, 0x0200, 1)));
    assert_eq!(port.awaited().map(|t| t.request_type()), Some(0xc0));

    let mut replies = port.into_replies();
    replies.push(Reply::Received(vec![0x5a]));
    let mut port = Exchange::new(replies);
    assert_eq!(read_reg(&mut port, Block::Sys, GPO), Ok(0x5a));
    assert_eq!(port.awaited(), None);
}

#[test]
fn read_of_nothing_is_zero() {
    let mut port = Exchange::new(vec![Reply::Received(vec![])]);
    assert_eq!(read_reg(&mut port, Block::Usb, 0x2000), Ok(0));
}

#[test]
fn failed_transfer_is_reported() {
    let mut port = Exchange::new(vec![Reply::Failed(UsbError::Pipe)]);
    assert_eq!(
        read_array(&mut port, Block::Iic, 0x34, 4),
        Err(Halt::Failed(RtlSdrError::Usb(UsbError::Pipe)))
    );
    let mut port = Exchange::new(vec![Reply::Failed(UsbError::Timeout)]);
    assert_eq!(
        write_array(&mut port, Block::Iic, 0x34, &[1, 2]),
        Err(Halt::Failed(RtlSdrError::Usb(UsbError::Timeout)))
    );
}

#[test]
fn answer_of_the_wrong_kind_is_an_error() {
    let mut port = Exchange::new(vec![Reply::Sent(1)]);
    assert_eq!(
        read_reg(&mut port, Block::Sys, GPO),
        Err(Halt::Failed(RtlSdrError::Usb(UsbError::Other)))
    );
    let mut port = Exchange::new(vec![Reply::Received(vec![1])]);
    assert_eq!(
        write_array(&mut port, Block::Sys, GPO, &[1]),
        Err(Halt::Failed(RtlSdrError::Usb(UsbError::Other)))
    );
}

#[test]
fn arrays_name_their_block() {
    let mut port = Exchange::new(vec![Reply::Received(vec![1, 2, 3, 4, 5]), Reply::Sent(2)]);
    assert_eq!(read_array(&mut port, Block::Rom, 0x10, 3), Ok(vec![1, 2, 3]));
    assert_eq!(write_array(&mut port, Block::Tuner, 0x20, &[7, 8]), Ok(2));
    assert_eq!(port.requests(), &vec![input(0x10, 0x0400, 3), out(0x20, 0x0310, &[7, 8])]);
    assert_eq!(port.requests()[1].request_type(), 0x40);
}

#[test]
fn register_writes_are_big_endian() {
    let mut port = Exchange::new(vec![Reply::Sent(1), Reply::Sent(2)]);
    assert_eq!(write_reg(&mut port, Block::Sys, DEMOD_CTL, 0x12e8, 1), Ok(()));
    assert_eq!(write_reg(&mut port, Block::Usb, 0x2148, 0x1002, 2), Ok(()));
    assert_eq!(
        port.requests(),
        &vec![out(0x3000, 0x0210, &[0xe8]), out(0x2148, 0x0110, &[0x10, 0x02])]
    );
}

#[test]
fn short_register_write_names_the_register() {
    let mut port = Exchange::new(vec![Reply::Sent(1)]);
    assert_eq!(
        write_reg(&mut port, Block::Usb, 0x2148, 0x1002, 2),
        Err(Halt::Failed(RtlSdrError::RegisterAccess { block: Block::Usb, address: 0x2148 }))
    );
    let mut port = Exchange::new(vec![Reply::Sent(0), Reply::Received(vec![0])]);
    assert_eq!(
        demod_write_reg(&mut port, 1, 0x9f, 0x1234, 2),
        Err(Halt::Failed(RtlSdrError::RegisterAccess { block: Block::Demod, address: 0x9f }))
    );
}

#[test]
fn demodulator_write_is_followed_by_a_read() {
    let mut port = Exchange::new(vec![Reply::Sent(1), Reply::Failed(UsbError::Pipe)]);
    assert_eq!(demod_write_reg(&mut port, 1, 0x15, 0x01, 1), Ok(()));
    assert_eq!(port.requests(), &vec![out(0x1520, 0x11, &[0x01]), input(0x0120, 0x0a, 1)]);

    let mut port = Exchange::new(vec![Reply::Sent(1)]);
    assert_eq!(demod_write_reg(&mut port, 1, 0x15, 0x01, 1), Err(Halt::Waiting));
}

#[test]
fn demodulator_register_is_read_from_its_page() {
    let mut port = Exchange::new(vec![Reply::Received(vec![0x42])]);
    assert_eq!(demod_read_reg(&mut port, 3, 0xb3), Ok(0x42));
    assert_eq!(port.requests(), &vec![input(0xb320, 0x03, 1)]);
}

#[test]
fn i2c_registers_go_through_the_i2c_block() {
    let mut port = Exchange::new(vec![
        Reply::Sent(2),
        Reply::Sent(1),
        Reply::Received(vec![0x69]),
        Reply::Sent(3),
        Reply::Received(vec![1, 2]),
    ]);
    assert_eq!(i2c_write_reg(&mut port, 0x34, 0x05, 0x83), Ok(()));
    assert_eq!(i2c_read_reg(&mut port, 0x34, 0x00), Ok(0x69));
    assert_eq!(i2c_write(&mut port, 0x34, &[9, 8, 7]), Ok(3));
    assert_eq!(i2c_read(&mut port, 0x34, 2), Ok(vec![1, 2]));
    assert_eq!(
        port.requests(),
        &vec![
            out(0x34, 0x0610, &[0x05, 0x83]),
            out(0x34, 0x0610, &[0x00]),
            input(0x34, 0x0600, 1),
            out(0x34, 0x0610, &[9, 8, 7]),
            input(0x34, 0x0600, 2),
        ]
    );
}

#[test]
fn pin_change_leaves_the_other_pins() {
    let mut port = Exchange::new(vec![Reply::Received(vec![0b1010_0101]), Reply::Sent(1)]);
    assert_eq!(set_gpio_bit(&mut port, 4, true), Ok(()));
    assert_eq!(port.requests()[1], out(0x3001, 0x0210, &[0b1011_0101]));

    let mut port = Exchange::new(vec![Reply::Received(vec![0b1010_0101]), Reply::Sent(1)]);
    assert_eq!(set_gpio_bit(&mut port, 0, false), Ok(()));
    assert_eq!(port.requests()[1], out(0x3001, 0x0210, &[0b1010_0100]));
}

#[test]
fn output_pin_changes_direction_and_enable() {
    let mut port = Exchange::new(vec![
        Reply::Received(vec![0xff]),
        Reply::Sent(1),
        Reply::Received(vec![0x00]),
        Reply::Sent(1),
    ]);
    assert_eq!(set_gpio_output(&mut port, 5), Ok(()));
    assert_eq!(
        port.requests(),
        &vec![
            input(GPD, 0x0200, 1),
            out(GPD, 0x0210, &[0xdf]),
            input(GPOE, 0x0200, 1),
            out(GPOE, 0x0210, &[0x20]),
        ]
    );
}

#[test]
fn repeater_is_a_bit_of_the_demodulator() {
    let mut port = Exchange::new(vec![
        Reply::Sent(1),
        Reply::Received(vec![0]),
        Reply::Sent(1),
        Reply::Received(vec![0]),
    ]);
    assert_eq!(set_i2c_repeater(&mut port, true), Ok(()));
    assert_eq!(set_i2c_repeater(&mut port, false), Ok(()));
    assert_eq!(port.requests()[0], out(0x0120, 0x11, &[0x18]));
    assert_eq!(port.requests()[2], out(0x0120, 0x11, &[0x10]));
}

fn signed(n: i32, size: i32) -> i32 {
    if n < size / 2 {
        n
    } else {
        n - size
    }
}

#[test]
fn fir_coefficients_can_be_read_off_their_bytes() {
    let mut fir = FIR;
    fir[9] = -2048;
    fir[10] = 2047;
    fir[15] = -1;
    let bytes = pack_fir(&fir).expect("all coefficients are in range");
    assert_eq!(bytes.len(), 20);
    for i in 0..8 {
        assert_eq!(signed(i32::from(bytes[i]), 256), fir[i]);
    }
    for k in 0..4 {
        let (b0, b1, b2) = (bytes[8 + 3 * k], bytes[9 + 3 * k], bytes[10 + 3 * k]);
        let (b0, b1, b2) = (i32::from(b0), i32::from(b1), i32::from(b2));
        assert_eq!(signed(b0 * 16 + b1 / 16, 4096), fir[8 + 2 * k]);
        assert_eq!(signed((b1 % 16) * 256 + b2, 4096), fir[9 + 2 * k]);
    }
}

#[test]
fn default_fir_bytes() {
    assert_eq!(
        pack_fir(&FIR),
        Ok(vec![
            0xca, 0xdc, 0xd7, 0xd8, 0xe0, 0xf2, 0x0e, 0x35, 0x06, 0x50, 0x9c, 0x0d, 0x71, 0x11,
            0x14, 0x71, 0x74, 0x19, 0x41, 0xa5,
        ])
    );
}

#[test]
fn fir_coefficient_out_of_range_is_refused() {
    let mut fir = FIR;
    fir[3] = -129;
    assert_eq!(
        pack_fir(&fir),
        Err(RtlSdrError::InvalidParameter(
            "FIR coefficient 3 out of int8 range: -129".to_string()
        ))
    );
    let mut fir = FIR;
    fir[13] = 2048;
    let mut port = Exchange::new(vec![]);
    assert_eq!(
        set_fir(&mut port, &fir),
        Err(Halt::Failed(RtlSdrError::InvalidParameter(
            "FIR coefficient 12 or 13 out of int12 range".to_string()
        )))
    );
    assert!(port.requests().is_empty());
}

fn run_to_the_end(op: impl Fn(&mut Exchange) -> Result<(), Halt>) -> Vec<(u16, u16, Vec<u8>)> {
    let mut replies = Vec::new();
    loop {
        let mut port = Exchange::new(replies);
        match op(&mut port) {
            Ok(()) => {
                return port
                    .requests()
                    .iter()
                    .filter_map(|t| match t {
                        Request::ControlOut { value, index, data } => {
                            Some((*value, *index, data.clone()))
                        }
                        Request::ControlIn { .. } => None,
                    })
                    .collect();
            }
            Err(Halt::Waiting) => {
                let reply = match port.awaited() {
                    Some(Request::ControlOut { data, .. }) => Reply::Sent(data.len()),
                    Some(Request::ControlIn { len, .. }) => Reply::Received(vec![0; *len]),
                    None => panic!("waiting for nothing"),
                };
                replies = port.into_replies();
                replies.push(reply);
            }
            Err(Halt::Failed(e)) => panic!("{e:?}"),
        }
    }
}

#[test]
fn baseband_comes_up_in_order() {
    let writes = run_to_the_end(|port| init_baseband(port, &FIR));
    assert_eq!(writes.len(), 15 + 20 + 9);
    assert_eq!(writes[0], (0x2000, 0x0110, vec![0x09]));
    assert_eq!(writes[4], (0x3000, 0x0210, vec![0xe8]));
    assert_eq!(writes[8], (0x1620, 0x11, vec![0x00, 0x00]));
    assert_eq!(writes[15], (0x1c20, 0x11, vec![0xca]));
    assert_eq!(writes[34], (0x2f20, 0x11, vec![0xa5]));
    assert_eq!(writes[35], (0x1920, 0x10, vec![0x05]));
    assert_eq!(writes[43], (0x0d20, 0x10, vec![0x83]));
}

#[test]
fn baseband_goes_down() {
    let writes = run_to_the_end(deinit_baseband);
    assert_eq!(writes, vec![(0x3000, 0x0210, vec![0x20])]);
}

#[test]
fn later_answers_change_nothing_that_was_asked_before() {
    let full: Vec<(u16, u16, Vec<u8>)> = run_to_the_end(|port| set_fir(port, &FIR));
    for answered in 0..8 {
        let mut replies = Vec::new();
        for i in 0..answered {
            replies.push(if i % 2 == 0 { Reply::Sent(1) } else { Reply::Received(vec![0]) });
        }
        let mut port = Exchange::new(replies);
        assert_eq!(set_fir(&mut port, &FIR), Err(Halt::Waiting));
        assert_eq!(port.requests().len(), answered + 1);
        for (i, t) in port.requests().iter().enumerate() {
            if let Request::ControlOut { value, index, data } = t {
                assert_eq!(&(*value, *index, data.clone()), &full[i / 2]);
            }
        }
    }
}

#[test]
fn control_transfers_have_a_timeout() {
    assert_eq!(ctrl_timeout(), 300);
}
