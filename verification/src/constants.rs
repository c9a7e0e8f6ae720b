//! Constants of the dongle and of its USB interface.

use vstd::prelude::*;

verus! {

/// Nominal frequency of the crystal in Hz.
pub const DEF_RTL_XTAL_FREQ: u32 = 28_800_000;

/// Intermediate frequency of the R82XX tuners in Hz.
pub const R82XX_IF_FREQ: u32 = 3_570_000;

/// Endpoint of the samples.
pub const BULK_ENDPOINT: u8 = 0x81;

/// Milliseconds that a read of samples may take; zero selects five seconds.
pub const BULK_TIMEOUT: u64 = 0;

/// Bytes of samples in a buffer where the caller names no number: 16 * 32 * 512.
pub const DEFAULT_BUF_LENGTH: u32 = 262_144;

/// Buffers that wait between the reading thread and a slow consumer.
pub const STREAM_BACKPRESSURE_DEPTH: usize = 4;

/// The name of the dongle with the given USB vendor and product numbers, where it
/// is one that holds an RTL2832U.
pub open spec fn known_name(vid: u16, pid: u16) -> Option<Seq<char>> {
    match (vid, pid) {
        (0x0bda, 0x2832) => Some("Generic RTL2832U"@),
        (0x0bda, 0x2838) => Some("Generic RTL2832U OEM"@),
        (0x0413, 0x6680) => Some("DigitalNow Quad DVB-T PCI-E card"@),
        (0x0413, 0x6f0f) => Some("Leadtek WinFast DTV Dongle mini D"@),
        (0x0458, 0x707f) => Some("Genius TVGo DVB-T03 USB dongle (Ver. B)"@),
        (0x0ccd, 0x00a9) => Some("Terratec Cinergy T Stick Black (rev 1)"@),
        (0x0ccd, 0x00b3) => Some("Terratec NOXON DAB/DAB+ USB dongle (rev 1)"@),
        (0x0ccd, 0x00b4) => Some("Terratec Deutschlandradio DAB Stick"@),
        (0x0ccd, 0x00b5) => Some("Terratec NOXON DAB Stick - Radio Energy"@),
        (0x0ccd, 0x00b7) => Some("Terratec Media Broadcast DAB Stick"@),
        (0x0ccd, 0x00b8) => Some("Terratec BR DAB Stick"@),
        (0x0ccd, 0x00b9) => Some("Terratec WDR DAB Stick"@),
        (0x0ccd, 0x00c0) => Some("Terratec MuellerVerlag DAB Stick"@),
        (0x0ccd, 0x00c6) => Some("Terratec Fraunhofer DAB Stick"@),
        (0x0ccd, 0x00d3) => Some("Terratec Cinergy T Stick RC (Rev.3)"@),
        (0x0ccd, 0x00d7) => Some("Terratec T Stick PLUS"@),
        (0x0ccd, 0x00e0) => Some("Terratec NOXON DAB/DAB+ USB dongle (rev 2)"@),
        (0x1554, 0x5020) => Some("PixelView PV-DT235U(RN)"@),
        (0x15f4, 0x0131) => Some("Astrometa DVB-T/DVB-T2"@),
        (0x15f4, 0x0133) => Some("HanfTek DAB+FM+DVB-T"@),
        (0x185b, 0x0620) => Some("Compro Videomate U620F"@),
        (0x185b, 0x0650) => Some("Compro Videomate U650F"@),
        (0x185b, 0x0680) => Some("Compro Videomate U680F"@),
        (0x1b80, 0xd393) => Some("GIGABYTE GT-U7300"@),
        (0x1b80, 0xd394) => Some("DIKOM USB-DVBT HD"@),
        (0x1b80, 0xd395) => Some("Peak 102569AGPK"@),
        (0x1b80, 0xd397) => Some("KWorld KW-UB450-T USB DVB-T Pico TV"@),
        (0x1b80, 0xd398) => Some("Zaapa ZT-MINDVBZP"@),
        (0x1b80, 0xd39d) => Some("SVEON STV20 DVB-T USB & FM"@),
        (0x1b80, 0xd3a4) => Some("Twintech UT-40"@),
        (0x1b80, 0xd3a8) => Some("ASUS U3100MINI_PLUS_V2"@),
        (0x1b80, 0xd3af) => Some("SVEON STV27 DVB-T USB & FM"@),
        (0x1b80, 0xd3b0) => Some("SVEON STV21 DVB-T USB & FM"@),
        (0x1d19, 0x1101) => Some("Dexatek DK DVB-T Dongle (Logilink VG0002A)"@),
        (0x1d19, 0x1102) => Some("Dexatek DK DVB-T Dongle (MSI DigiVox mini II V3.0)"@),
        (0x1d19, 0x1103) => Some("Dexatek Technology Ltd. DK 5217 DVB-T Dongle"@),
        (0x1d19, 0x1104) => Some("MSI DigiVox Micro HD"@),
        (0x1f4d, 0xa803) => Some("Sweex DVB-T USB"@),
        (0x1f4d, 0xb803) => Some("GTek T803"@),
        (0x1f4d, 0xc803) => Some("Lifeview LV5TDeluxe"@),
        (0x1f4d, 0xd286) => Some("MyGica TD312"@),
        (0x1f4d, 0xd803) => Some("PROlectrix DV107669"@),
        _ => None,
    }
}

/// A dongle that holds an RTL2832U.
#[derive(Clone, Copy, Debug)]
pub struct KnownDevice {
    pub vid: u16,
    pub pid: u16,
    pub name: &'static str,
}

/// Returns what is known of the dongle with the given USB vendor and product
/// numbers.
pub fn find_known_device(vid: u16, pid: u16) -> (r: Option<KnownDevice>)
    ensures
        match r {
            Some(known) => {
                &&& known.vid == vid
                &&& known.pid == pid
                &&& known_name(vid, pid) == Some(known.name@)
            },
            None => known_name(vid, pid) is None,
        },
{
    let name: &'static str = match (vid, pid) {
        (0x0bda, 0x2832) => "Generic RTL2832U",
        (0x0bda, 0x2838) => "Generic RTL2832U OEM",
        (0x0413, 0x6680) => "DigitalNow Quad DVB-T PCI-E card",
        (0x0413, 0x6f0f) => "Leadtek WinFast DTV Dongle mini D",
        (0x0458, 0x707f) => "Genius TVGo DVB-T03 USB dongle (Ver. B)",
        (0x0ccd, 0x00a9) => "Terratec Cinergy T Stick Black (rev 1)",
        (0x0ccd, 0x00b3) => "Terratec NOXON DAB/DAB+ USB dongle (rev 1)",
        (0x0ccd, 0x00b4) => "Terratec Deutschlandradio DAB Stick",
        (0x0ccd, 0x00b5) => "Terratec NOXON DAB Stick - Radio Energy",
        (0x0ccd, 0x00b7) => "Terratec Media Broadcast DAB Stick",
        (0x0ccd, 0x00b8) => "Terratec BR DAB Stick",
        (0x0ccd, 0x00b9) => "Terratec WDR DAB Stick",
        (0x0ccd, 0x00c0) => "Terratec MuellerVerlag DAB Stick",
        (0x0ccd, 0x00c6) => "Terratec Fraunhofer DAB Stick",
        (0x0ccd, 0x00d3) => "Terratec Cinergy T Stick RC (Rev.3)",
        (0x0ccd, 0x00d7) => "Terratec T Stick PLUS",
        (0x0ccd, 0x00e0) => "Terratec NOXON DAB/DAB+ USB dongle (rev 2)",
        (0x1554, 0x5020) => "PixelView PV-DT235U(RN)",
        (0x15f4, 0x0131) => "Astrometa DVB-T/DVB-T2",
        (0x15f4, 0x0133) => "HanfTek DAB+FM+DVB-T",
        (0x185b, 0x0620) => "Compro Videomate U620F",
        (0x185b, 0x0650) => "Compro Videomate U650F",
        (0x185b, 0x0680) => "Compro Videomate U680F",
        (0x1b80, 0xd393) => "GIGABYTE GT-U7300",
        (0x1b80, 0xd394) => "DIKOM USB-DVBT HD",
        (0x1b80, 0xd395) => "Peak 102569AGPK",
        (0x1b80, 0xd397) => "KWorld KW-UB450-T USB DVB-T Pico TV",
        (0x1b80, 0xd398) => "Zaapa ZT-MINDVBZP",
        (0x1b80, 0xd39d) => "SVEON STV20 DVB-T USB & FM",
        (0x1b80, 0xd3a4) => "Twintech UT-40",
        (0x1b80, 0xd3a8) => "ASUS U3100MINI_PLUS_V2",
        (0x1b80, 0xd3af) => "SVEON STV27 DVB-T USB & FM",
        (0x1b80, 0xd3b0) => "SVEON STV21 DVB-T USB & FM",
        (0x1d19, 0x1101) => "Dexatek DK DVB-T Dongle (Logilink VG0002A)",
        (0x1d19, 0x1102) => "Dexatek DK DVB-T Dongle (MSI DigiVox mini II V3.0)",
        (0x1d19, 0x1103) => "Dexatek Technology Ltd. DK 5217 DVB-T Dongle",
        (0x1d19, 0x1104) => "MSI DigiVox Micro HD",
        (0x1f4d, 0xa803) => "Sweex DVB-T USB",
        (0x1f4d, 0xb803) => "GTek T803",
        (0x1f4d, 0xc803) => "Lifeview LV5TDeluxe",
        (0x1f4d, 0xd286) => "MyGica TD312",
        (0x1f4d, 0xd803) => "PROlectrix DV107669",
        _ => {
            return None;
        },
    };
    Some(KnownDevice { vid, pid, name })
}

} // verus!
