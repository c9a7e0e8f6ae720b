# librtlsdr-rs

A driver for RTL2832U-based DVB-T dongles with Rafael Micro R820T and R828D
tuners, written in Verus: what it says to the dongle, and what it makes of the
answers, is stated in contracts and proved.

## Layout

- `src/` is the verified library. It touches no USB bus.
  - `exchange`: the conversation with the dongle. An operation runs against the
    answers received so far and records the transfers that it asks for.
  - `repeater`: when the tuner can be heard.
  - `usb`: register blocks, demodulator pages, I2C, GPIO, FIR, baseband.
  - `tuner`: what a tuner driver does, and the R82XX driver: shadowed registers,
    PLL, gain, bandwidth, filter calibration.
  - `device`: sample rate, frequencies, gain, direct sampling, enumeration, and the
    rules of the sample stream.
  - `error`, `reg`, `constants`, `text`: errors, register addresses, tables,
    numbers as text.
- `app/` puts the library on a USB bus with `rusb`, and offers the samples as
  iterators and as tokio or runtime-neutral streams.
- `tests/` runs the library against simulated answers.

## How an operation runs

An operation takes an `Exchange` and returns a result, a failure, or
`Halt::Waiting`. In the last case the caller performs the transfer that
`Exchange::awaited` names, adds the answer to the others, and runs the operation
again on the state that it started from:

```text
loop {
    let mut port = Exchange::new(replies);
    let mut device = start.clone();
    match device.set_center_freq(&mut port, 100_000_000) {
        Err(Halt::Waiting) => {
            let reply = perform(port.awaited());
            replies = port.into_replies();
            replies.push(reply);
        }
        finished => return finished,
    }
}
```

Each operation is described by a function of the state and the conversation, whose
name ends in `_run`; its contract says that it does exactly that. For each of them a
proof whose name ends in `_resumes` says that further answers change nothing of what
was asked before.

## What is proved beyond the contracts

- The shadow of the tuner's registers is what the messages sent have written
  (`tuner::r82xx::shadow`).
- The PLL registers hold the word nearest to the wanted ratio, a divider exists for
  exactly one band of frequencies and is unique (`tuner::r82xx::pll`).
- With the nominal crystal every accepted sample rate is met to the Hz
  (`device::frequency`).
- A refused sample rate or a refused offset leaves the device as it was; a gain or a
  bandwidth that the tuner refused is not reported as set (`device`).
- The tuner is spoken to only while the I2C repeater is on, and every operation that
  finishes leaves it off (`device::repeater`).
- Samples are read only under a guard of that very device's flag; a guard is made only
  where exchanging the flag's value succeeded, and dropping it clears the flag
  (`device::reader`, `device::streaming`). What an atomic flag holds is not reasoned
  about.
- An iteration over samples ends once and for all; a hundred empty reads in a row
  end the callback loop (`device::streaming`).
