use librtlsdr_rs::tuner::r82xx::constants::{
    bitrev, freq_range, R82xxChip, FREQ_RANGE_STARTS, IF_LOW_PASS_BW_TABLE, NUM_REGS,
};
use librtlsdr_rs::tuner::r82xx::i2c::i2c_chunk_size;
use librtlsdr_rs::tuner::r82xx::pll::mask_reg8;
use librtlsdr_rs::tuner::r82xx::{
    find_freq_range_idx, find_if_lpf_idx, R82xxConfig, R82xxPriv,
};

const BUF_CAP: usize = NUM_REGS + 1;

#[test]
fn normal_max_msg_picks_max_msg_minus_one() {
    assert_eq!(i2c_chunk_size(20, 8, BUF_CAP), 7);
    assert_eq!(i2c_chunk_size(7, 8, BUF_CAP), 7);
}

#[test]
fn remaining_smaller_than_chunk_returns_remaining() {
    assert_eq!(i2c_chunk_size(3, 8, BUF_CAP), 3);
    assert_eq!(i2c_chunk_size(1, 8, BUF_CAP), 1);
}

#[test]
fn max_msg_below_floor_clamps_so_loop_makes_progress() {
    assert_eq!(i2c_chunk_size(10, 1, BUF_CAP), 1);
    assert_eq!(i2c_chunk_size(10, 0, BUF_CAP), 1);
}

#[test]
fn max_msg_above_buf_capacity_clamps_so_no_oob() {
    assert_eq!(i2c_chunk_size(100, 1000, BUF_CAP), BUF_CAP - 1);
    assert_eq!(i2c_chunk_size(100, BUF_CAP + 1, BUF_CAP), BUF_CAP - 1);
}

#[test]
fn chunk_size_always_makes_progress_when_remaining_positive() {
    for max_msg in 0..=64 {
        for remaining in 1..=64 {
            let size = i2c_chunk_size(remaining, max_msg, BUF_CAP);
            assert!(
                size > 0,
                "no progress: remaining={remaining}, max_msg={max_msg}"
            );
        }
    }
}

#[test]
fn test_mask_reg8() {
    assert_eq!(mask_reg8(0xff, 0x00, 0x0f), 0xf0);
    assert_eq!(mask_reg8(0x00, 0xff, 0x0f), 0x0f);
    assert_eq!(mask_reg8(0xaa, 0x55, 0xff), 0x55);
    assert_eq!(mask_reg8(0xaa, 0x55, 0x00), 0xaa);
}

#[test]
fn test_r82xx_priv_new() {
    let config = R82xxConfig {
        i2c_addr: 0x34,
        xtal: 28_800_000,
        rafael_chip: R82xxChip::R820T,
        max_i2c_msg_len: 8,
        use_predetect: false,
    };
    let priv_ = R82xxPriv::new(&config);
    assert_eq!(priv_.i2c_addr, 0x34);
    assert_eq!(priv_.xtal, 28_800_000);
    assert!(!priv_.init_done);
}

#[test]
fn test_freq_range_lookup() {
    // 100 MHz should hit the range starting at 100
    let freq_mhz = 100;
    let range_idx = find_freq_range_idx(freq_mhz);
    assert!(freq_range(range_idx).freq <= freq_mhz);
}

#[test]
fn find_freq_range_idx_at_minimum_picks_first() {
    assert_eq!(find_freq_range_idx(0), 0);
}

#[test]
fn find_freq_range_idx_below_first_boundary_picks_first() {
    assert_eq!(find_freq_range_idx(49), 0);
}

#[test]
fn find_freq_range_idx_at_exact_boundary_picks_that_entry() {
    assert_eq!(find_freq_range_idx(50), 1);
    assert_eq!(find_freq_range_idx(100), 9);
    assert_eq!(find_freq_range_idx(450), 18);
}

#[test]
fn find_freq_range_idx_just_below_top_boundary_picks_second_to_last() {
    assert_eq!(find_freq_range_idx(649), 19);
}

#[test]
fn find_freq_range_idx_at_top_boundary_picks_last() {
    assert_eq!(find_freq_range_idx(650), FREQ_RANGE_STARTS.len() - 1);
}

#[test]
fn find_freq_range_idx_above_top_picks_last() {
    assert_eq!(find_freq_range_idx(700), FREQ_RANGE_STARTS.len() - 1);
    assert_eq!(find_freq_range_idx(1500), FREQ_RANGE_STARTS.len() - 1);
}

#[test]
fn find_if_lpf_idx_above_widest_picks_widest() {
    assert_eq!(find_if_lpf_idx(2_000_000), 0);
}

#[test]
fn find_if_lpf_idx_at_widest_exact_picks_widest() {
    assert_eq!(find_if_lpf_idx(1_700_000), 0);
}

#[test]
fn find_if_lpf_idx_between_table_entries_picks_wider() {
    assert_eq!(find_if_lpf_idx(800_000), 5);
}

#[test]
fn find_if_lpf_idx_at_narrowest_exact_picks_last() {
    assert_eq!(find_if_lpf_idx(350_000), IF_LOW_PASS_BW_TABLE.len() - 1);
}

#[test]
fn find_if_lpf_idx_below_narrowest_picks_last() {
    assert_eq!(find_if_lpf_idx(200_000), IF_LOW_PASS_BW_TABLE.len() - 1);
    assert_eq!(find_if_lpf_idx(1), IF_LOW_PASS_BW_TABLE.len() - 1);
}

#[test]
fn bits_are_reversed() {
    assert_eq!(bitrev(0x01), 0x80);
    assert_eq!(bitrev(0x96), 0x69);
    assert_eq!(bitrev(0x1d), 0xb8);
    for b in 0..=255u8 {
        assert_eq!(bitrev(bitrev(b)), b);
    }
}
