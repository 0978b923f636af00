use gol_ledstrip::color::Rgb;
use gol_ledstrip::protocol::{
    clock_divider, color_bits, frame_words, pack_word, BitTiming, ClockDivider, BIT_RATE_HZ,
    CLOCK_HZ,
};

#[test]
fn packs_green_red_blue() {
    let w = pack_word(Rgb::new(0x12, 0x34, 0x56));
    assert_eq!(w, (0x34u32 << 24) | (0x12 << 16) | (0x56 << 8));
    assert_eq!(w, 0x3412_5600);
}

#[test]
fn frame_words_in_address_order() {
    let colors = [Rgb::new(1, 2, 3), Rgb::new(0xff, 0, 0x80)];
    assert_eq!(frame_words(&colors), vec![0x0201_0300, 0x00ff_8000]);
    assert_eq!(frame_words(&[]), Vec::<u32>::new());
}

#[test]
fn data_bits_msb_first_green_red_blue() {
    let bits = color_bits(Rgb::new(0x12, 0x34, 0x56));
    let as_digits: Vec<u8> = bits.iter().map(|&b| b as u8).collect();
    assert_eq!(
        as_digits,
        vec![
            0, 0, 1, 1, 0, 1, 0, 0, // green 0x34
            0, 0, 0, 1, 0, 0, 1, 0, // red 0x12
            0, 1, 0, 1, 0, 1, 1, 0, // blue 0x56
        ]
    );
}

#[test]
fn bit_waveforms() {
    let t = BitTiming::ws2812();
    assert_eq!(t.cycles_per_bit(), 10);
    let one: Vec<u8> = t.bit_waveform(true).iter().map(|&b| b as u8).collect();
    let zero: Vec<u8> = t.bit_waveform(false).iter().map(|&b| b as u8).collect();
    assert_eq!(one, vec![1, 1, 1, 1, 1, 1, 1, 0, 0, 0]);
    assert_eq!(zero, vec![1, 1, 0, 0, 0, 0, 0, 0, 0, 0]);
}

#[test]
fn colour_waveform_concatenates_bits() {
    let t = BitTiming { start: 1, data: 1, stop: 1 };
    let levels = t.color_waveform(Rgb::new(0, 0x80, 1));
    assert_eq!(levels.len(), 72);
    // first bit: green MSB = 1
    assert_eq!(&levels[0..3], &[true, true, false]);
    // second bit: 0
    assert_eq!(&levels[3..6], &[true, false, false]);
    // last bit: blue LSB = 1
    assert_eq!(&levels[69..72], &[true, true, false]);
}

#[test]
fn clock_divider_of_installation() {
    let d = clock_divider(CLOCK_HZ, BIT_RATE_HZ, 10).unwrap();
    assert_eq!(d, ClockDivider { integer: 15, fraction: 160 });
    assert_eq!(d.register_value(), (15 << 8) | 160);
}

#[test]
fn clock_divider_maximum_is_zero() {
    let d = clock_divider(65536 * 100, 10, 10).unwrap();
    assert_eq!(d, ClockDivider { integer: 0, fraction: 0 });
    assert_eq!(d.register_value(), 0);
    let d = clock_divider(65535 * 100 + 50, 10, 10).unwrap();
    assert_eq!(d, ClockDivider { integer: 65535, fraction: 128 });
}

#[test]
fn clock_divider_out_of_range() {
    assert_eq!(clock_divider(1000, 0, 10), None);
    assert_eq!(clock_divider(1000, 10, 0), None);
    assert_eq!(clock_divider(10, 100, 1), None);
    assert_eq!(clock_divider(u32::MAX, 1, 1), None);
}

#[test]
fn divisor_in_256ths() {
    assert_eq!(ClockDivider { integer: 15, fraction: 160 }.divisor_256ths(), 4000);
    assert_eq!(ClockDivider { integer: 0, fraction: 0 }.divisor_256ths(), 65536 * 256);
}
