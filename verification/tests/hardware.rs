use deimos_bcm2835::dilf::OpFieldId;
use deimos_bcm2835::dma::bus::arm_to_vc;
use deimos_bcm2835::dma::raw::channel_ptr;
use deimos_bcm2835::dma::registers::clear;
use deimos_bcm2835::dma::registers::end_flag;
use deimos_bcm2835::dma::registers::linear_copy;
use deimos_bcm2835::dma::registers::op_field_offset;
use deimos_bcm2835::dma::registers::read;
use deimos_bcm2835::dma::registers;
use deimos_bcm2835::dma::registers::start;
use deimos_bcm2835::dma::registers::CB;
use deimos_bcm2835::dma::registers::CS_ACTIVE;
use deimos_bcm2835::dma::registers::CS_PRIORITY;
use deimos_bcm2835::dma::registers::CS_PRIORITY_WIDTH;
use deimos_bcm2835::dma::registers::TI_BURST_LENGTH;
use deimos_bcm2835::dma::registers::TI_BURST_LENGTH_WIDTH;
use deimos_bcm2835::dma::registers::TI_NO_WIDE_BURSTS;
use deimos_bcm2835::dma::registers::TI_SRC_INC;
use deimos_bcm2835::fault::Fault;
use deimos_bcm2835::uart::baud_to_clock_divider;
use deimos_bcm2835::uart::checked_clock_divider;

#[test]
fn plain_memory_gets_the_alias_bit() {
    assert_eq!(arm_to_vc(0), Ok(0x4000_0000));
    assert_eq!(arm_to_vc(0x0200_0204), Ok(0x4200_0204));
    assert_eq!(arm_to_vc(0x1fff_ffff), Ok(0x5fff_ffff));
}

#[test]
fn peripherals_move_to_their_bus_window() {
    assert_eq!(arm_to_vc(0x2000_0000), Ok(0x7e00_0000));
    assert_eq!(arm_to_vc(0x2000_7500), Ok(0x7e00_7500));
    assert_eq!(arm_to_vc(0x20ff_ffff), Ok(0x7eff_ffff));
}

#[test]
fn other_addresses_have_no_mapping() {
    assert_eq!(arm_to_vc(0x2100_0000), Err(Fault::NoMapping));
    assert_eq!(arm_to_vc(0x4000_0000), Err(Fault::NoMapping));
    assert_eq!(arm_to_vc(0xffff_ffff), Err(Fault::NoMapping));
}

#[test]
fn translation_law_on_samples_of_both_windows() {
    let mut a: u32 = 0;
    while a < 0x2000_0000 {
        assert_eq!(arm_to_vc(a), Ok(a | 0x4000_0000));
        a += 0x000f_fff1;
    }
    let mut a: u32 = 0x2000_0000;
    while a < 0x2100_0000 {
        assert_eq!(arm_to_vc(a), Ok((a - 0x2000_0000) + 0x7e00_0000));
        a += 0x0000_fff1;
    }
    let mut a: u32 = 0x2100_0000;
    while a < 0xf000_0000 {
        assert_eq!(arm_to_vc(a), Err(Fault::NoMapping));
        a += 0x00ff_fff1;
    }
}

#[test]
fn channels_lie_a_stride_apart_and_the_last_stands_alone() {
    assert_eq!(channel_ptr(0), Ok(0x2000_7000));
    assert_eq!(channel_ptr(5), Ok(0x2000_7500));
    assert_eq!(channel_ptr(14), Ok(0x2000_7e00));
    assert_eq!(channel_ptr(15), Ok(0x20e0_5000));
    assert_eq!(channel_ptr(16), Err(Fault::NoSuchChannel));
    assert_eq!(channel_ptr(usize::MAX), Err(Fault::NoSuchChannel));
}

#[test]
fn transfer_information_is_a_linear_copy() {
    assert_eq!(linear_copy(), 0x0400_0118);
    assert_eq!(linear_copy(), (1 << 26) | (1 << 8) | (1 << 4) | (1 << 3));
}

#[test]
fn start_and_end_words() {
    assert_eq!(start(), 0x1000_0001);
    assert_eq!(end_flag(), 2);
}

#[test]
fn fields_are_set_cleared_and_read_in_place() {
    assert_eq!(registers::set(0, TI_NO_WIDE_BURSTS, 1), 0x0400_0000);
    assert_eq!(registers::set(0x0000_0001, TI_SRC_INC, 1), 0x0000_0101);
    assert_eq!(registers::set(0, CS_PRIORITY, CS_PRIORITY_WIDTH), 0x000f_0000);
    assert_eq!(clear(0xffff_ffff, TI_BURST_LENGTH, TI_BURST_LENGTH_WIDTH), 0xffff_0fff);
    assert_eq!(clear(0x1000_0001, CS_ACTIVE, 1), 0x1000_0000);
    assert_eq!(read(0x0000_a000, TI_BURST_LENGTH, TI_BURST_LENGTH_WIDTH), 0xa);
    assert_eq!(read(0x1000_0001, CS_ACTIVE, 1), 1);
    assert_eq!(read(0x1000_0000, CS_ACTIVE, 1), 0);
    assert_eq!(registers::set(7, 0, 32), 0xffff_ffff);
    assert_eq!(clear(7, 0, 32), 0);
}

#[test]
fn control_block_words_follow_the_hardware_layout() {
    let cb = CB {
        ti: 1,
        source_ad: 2,
        dest_ad: 3,
        txfr_len: 4,
        stride: 5,
        nextconbk: 6,
        pad0: 7,
        pad1: 8,
    };
    assert_eq!(cb.words(), [1, 2, 3, 4, 5, 6, 7, 8]);
    assert_eq!(cb.words()[op_field_offset(OpFieldId::Src)], cb.source_ad);
    assert_eq!(cb.words()[op_field_offset(OpFieldId::Dst)], cb.dest_ad);
    assert_eq!(cb.words()[op_field_offset(OpFieldId::Len)], cb.txfr_len);
    assert_eq!(cb.words()[op_field_offset(OpFieldId::Nxt)], cb.nextconbk);
    assert_eq!(CB::zero().words(), [0; 8]);
}

#[test]
fn clock_divider_for_common_baud_rates() {
    assert_eq!(baud_to_clock_divider(115200), 270);
    assert_eq!(baud_to_clock_divider(9600), 3254);
    assert_eq!(baud_to_clock_divider(31_250_000), 0);
    assert_eq!(checked_clock_divider(115200), Some(270));
    assert_eq!(checked_clock_divider(0), None);
    assert_eq!(checked_clock_divider(31_250_001), None);
    // 250 MHz / (8 * 476) - 1 = 65650 does not fit sixteen bits; 477 gives 65512
    assert_eq!(checked_clock_divider(476), None);
    assert_eq!(checked_clock_divider(477), Some(65512));
}

#[test]
fn a_divider_too_large_keeps_its_low_sixteen_bits() {
    // 250 MHz / (8 * 476) - 1 = 65650 = 65536 + 114
    assert_eq!(baud_to_clock_divider(476), 114);
    assert_eq!(baud_to_clock_divider(477), 65512);
    // 250 MHz / 8 - 1 = 31249999 = 476 * 65536 + 54863
    assert_eq!(baud_to_clock_divider(1), 54863);
}
