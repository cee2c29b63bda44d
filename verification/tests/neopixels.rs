use nrf_hal_common::pwm::{CounterMode, LoadMode, Loop, Prescaler};
use superbit::neopixel::{
    ACTIVE_PIXELS, COLOR_STORE_LEN, PIXEL_BIT_PERIOD_TICKS, PIXEL_BUFFER_BIT_COUNT, PIXEL_RESET,
    PIXEL_SLOTS, PIXEL_T0H, PIXEL_T1H, TRANSMITTED_BYTES,
};
use superbit::{Error, Neopixel, NeopixelPosition, NeopixelPwmError, RgbColor};

const BLACK: RgbColor = RgbColor { r: 0, g: 0, b: 0 };

const ACTIVE: [NeopixelPosition; 4] = [
    NeopixelPosition::Pixel0,
    NeopixelPosition::Pixel1,
    NeopixelPosition::Pixel2,
    NeopixelPosition::Pixel3,
];

fn set(encoder: &mut Neopixel, position: NeopixelPosition, color: RgbColor) {
    encoder.set_neopixel_color::<()>(position, color).unwrap();
}

fn frame(encoder: &mut Neopixel) -> [u16; 98] {
    let transfer = encoder.show().unwrap();
    let codes = *transfer.buffer.codes();
    encoder.reclaim(Ok(transfer.buffer)).unwrap();
    codes
}

/// The codes of one byte, most significant bit first.
fn codes_of(byte: u8) -> Vec<u16> {
    (0..8)
        .map(|bit| if byte & (0x80 >> bit) == 0 { PIXEL_T0H } else { PIXEL_T1H })
        .collect()
}

#[test]
fn sizes_and_codes() {
    assert_eq!(ACTIVE_PIXELS, 4);
    assert_eq!(PIXEL_SLOTS, 5);
    assert_eq!(COLOR_STORE_LEN, 3 * PIXEL_SLOTS);
    assert_eq!(TRANSMITTED_BYTES, 3 * ACTIVE_PIXELS);
    assert_eq!(PIXEL_BUFFER_BIT_COUNT, 98);
    assert_eq!(PIXEL_BUFFER_BIT_COUNT, 3 * 8 * ACTIVE_PIXELS + 2);
    assert_eq!(PIXEL_T0H, 32774);
    assert_eq!(PIXEL_T1H, 32781);
    assert_eq!(PIXEL_RESET, 0x8000);
    assert_eq!(PIXEL_BIT_PERIOD_TICKS, 20);
}

#[test]
fn a_new_encoder_is_black() {
    let encoder = Neopixel::new();
    assert_eq!(encoder.get_current_colors(), [BLACK; 4]);
}

#[test]
fn default_color_is_black() {
    assert_eq!(RgbColor::default(), BLACK);
}

#[test]
fn position_ranks() {
    assert_eq!(NeopixelPosition::Pixel0.index(), 0);
    assert_eq!(NeopixelPosition::Pixel1.index(), 1);
    assert_eq!(NeopixelPosition::Pixel2.index(), 2);
    assert_eq!(NeopixelPosition::Pixel3.index(), 3);
    assert_eq!(NeopixelPosition::Pixel4.index(), 4);
}

#[test]
fn a_color_that_is_set_is_read_back() {
    let color = RgbColor { r: 10, g: 20, b: 30 };
    for (rank, position) in ACTIVE.into_iter().enumerate() {
        let mut encoder = Neopixel::new();
        set(&mut encoder, position, color);
        let colors = encoder.get_current_colors();
        for (other, read) in colors.iter().enumerate() {
            if other == rank {
                assert_eq!(*read, color);
            } else {
                assert_eq!(*read, BLACK);
            }
        }
    }
}

#[test]
fn each_position_keeps_its_own_color() {
    let mut encoder = Neopixel::new();
    let colors = [
        RgbColor { r: 1, g: 2, b: 3 },
        RgbColor { r: 4, g: 5, b: 6 },
        RgbColor { r: 7, g: 8, b: 9 },
        RgbColor { r: 10, g: 11, b: 12 },
    ];
    for (position, color) in ACTIVE.into_iter().zip(colors) {
        set(&mut encoder, position, color);
    }
    assert_eq!(encoder.get_current_colors(), colors);
    // setting a color again replaces it
    set(&mut encoder, NeopixelPosition::Pixel2, BLACK);
    assert_eq!(encoder.get_current_colors(), [colors[0], colors[1], BLACK, colors[3]]);
}

#[test]
fn the_spare_position_is_stored_but_not_read_back() {
    let mut encoder = Neopixel::new();
    let result = encoder.set_neopixel_color::<()>(
        NeopixelPosition::Pixel4,
        RgbColor { r: 255, g: 255, b: 255 },
    );
    assert!(result.is_ok());
    assert_eq!(encoder.get_current_colors(), [BLACK; 4]);
    let codes = frame(&mut encoder);
    assert!(codes[..96].iter().all(|code| *code == PIXEL_T0H));
}

#[test]
fn set_all_sets_every_led() {
    let mut encoder = Neopixel::new();
    let color = RgbColor { r: 200, g: 100, b: 50 };
    set(&mut encoder, NeopixelPosition::Pixel1, RgbColor { r: 1, g: 1, b: 1 });
    assert!(encoder.set_all_neopixels::<()>(color).is_ok());
    assert_eq!(encoder.get_current_colors(), [color; 4]);
}

#[test]
fn a_frame_has_98_codes_and_ends_in_two_latch_codes() {
    let mut encoder = Neopixel::new();
    encoder.set_all_neopixels::<()>(RgbColor { r: 0xA5, g: 0x5A, b: 0xFF }).unwrap();
    let codes = frame(&mut encoder);
    assert_eq!(codes.len(), 98);
    assert!(codes[..96].iter().all(|code| *code == PIXEL_T0H || *code == PIXEL_T1H));
    assert_eq!(codes[96], 0x8000);
    assert_eq!(codes[97], 0x8000);
    assert_eq!(codes[96], codes[97]);
    assert_ne!(codes[96], PIXEL_T0H);
    assert_ne!(codes[96], PIXEL_T1H);
}

#[test]
fn a_black_frame_is_all_zero_bits() {
    let mut encoder = Neopixel::new();
    let codes = frame(&mut encoder);
    assert!(codes[..96].iter().all(|code| *code == PIXEL_T0H));
    assert_eq!(&codes[96..], &[PIXEL_RESET, PIXEL_RESET]);
}

#[test]
fn a_white_frame_is_all_one_bits() {
    let mut encoder = Neopixel::new();
    encoder.set_all_neopixels::<()>(RgbColor { r: 255, g: 255, b: 255 }).unwrap();
    let codes = frame(&mut encoder);
    assert!(codes[..96].iter().all(|code| *code == PIXEL_T1H));
    assert_eq!(&codes[96..], &[PIXEL_RESET, PIXEL_RESET]);
}

#[test]
fn bytes_go_out_green_red_blue() {
    let mut encoder = Neopixel::new();
    set(&mut encoder, NeopixelPosition::Pixel0, RgbColor { r: 0xFF, g: 0x00, b: 0x00 });
    let codes = frame(&mut encoder);
    assert!(codes[0..8].iter().all(|code| *code == PIXEL_T0H));
    assert!(codes[8..16].iter().all(|code| *code == PIXEL_T1H));
    assert!(codes[16..24].iter().all(|code| *code == PIXEL_T0H));
    // and the round trip still reads red
    assert_eq!(encoder.get_current_colors()[0], RgbColor { r: 0xFF, g: 0, b: 0 });
}

#[test]
fn bits_go_out_most_significant_first() {
    let mut encoder = Neopixel::new();
    set(&mut encoder, NeopixelPosition::Pixel0, RgbColor { r: 0x01, g: 0x80, b: 0xA1 });
    let codes = frame(&mut encoder);
    let (zero, one) = (PIXEL_T0H, PIXEL_T1H);
    assert_eq!(&codes[0..8], &[one, zero, zero, zero, zero, zero, zero, zero]);
    assert_eq!(&codes[8..16], &[zero, zero, zero, zero, zero, zero, zero, one]);
    assert_eq!(&codes[16..24], &[one, zero, one, zero, zero, zero, zero, one]);
}

#[test]
fn a_frame_spells_the_colors_of_the_four_leds_in_order() {
    let mut encoder = Neopixel::new();
    let colors = [
        RgbColor { r: 0x12, g: 0x34, b: 0x56 },
        RgbColor { r: 0x78, g: 0x9A, b: 0xBC },
        RgbColor { r: 0xDE, g: 0xF0, b: 0x0F },
        RgbColor { r: 0xED, g: 0xCB, b: 0xA9 },
    ];
    for (position, color) in ACTIVE.into_iter().zip(colors) {
        set(&mut encoder, position, color);
    }
    set(&mut encoder, NeopixelPosition::Pixel4, RgbColor { r: 0x55, g: 0x55, b: 0x55 });
    let mut expected = Vec::new();
    for color in colors {
        expected.extend(codes_of(color.g));
        expected.extend(codes_of(color.r));
        expected.extend(codes_of(color.b));
    }
    expected.extend([PIXEL_RESET, PIXEL_RESET]);
    assert_eq!(frame(&mut encoder).to_vec(), expected);
}

#[test]
fn every_frame_is_spelled_anew() {
    let mut encoder = Neopixel::new();
    set(&mut encoder, NeopixelPosition::Pixel3, RgbColor { r: 0, g: 0, b: 1 });
    let first = frame(&mut encoder);
    assert_eq!(first[95], PIXEL_T1H);
    set(&mut encoder, NeopixelPosition::Pixel3, BLACK);
    let second = frame(&mut encoder);
    assert_eq!(second[95], PIXEL_T0H);
}

#[test]
fn the_peripheral_setup_of_a_frame() {
    let mut encoder = Neopixel::new();
    let transfer = encoder.show().unwrap();
    assert_eq!(transfer.settings.counter_mode, CounterMode::Up);
    assert_eq!(transfer.settings.prescaler, Prescaler::Div1);
    assert_eq!(transfer.settings.max_duty, 20);
    assert_eq!(transfer.settings.loop_mode, Loop::Disabled);
    assert_eq!(transfer.settings.load_mode, LoadMode::Common);
}

#[test]
fn a_second_show_before_the_buffer_is_back_is_refused() {
    let mut encoder = Neopixel::new();
    let transfer = encoder.show().unwrap();
    assert!(matches!(encoder.show(), Err(Error::PwmIsUnbound)));
    assert!(matches!(encoder.show(), Err(Error::PwmIsUnbound)));
    // once the first frame is done the next one goes out
    assert!(encoder.reclaim(Ok(transfer.buffer)).is_ok());
    assert!(encoder.show().is_ok());
}

#[test]
fn show_succeeds_again_after_every_completion() {
    let mut encoder = Neopixel::new();
    for _ in 0..3 {
        let transfer = encoder.show().unwrap();
        assert!(encoder.reclaim(Ok(transfer.buffer)).is_ok());
    }
}

#[test]
fn a_peripheral_fault_is_reported_and_the_buffer_stays_away() {
    let mut encoder = Neopixel::new();
    let _lost = encoder.show().unwrap();
    let reported = encoder.reclaim(Err(NeopixelPwmError::DMABufferNotInDataMemory));
    assert!(matches!(
        reported,
        Err(Error::Pwm(NeopixelPwmError::DMABufferNotInDataMemory))
    ));
    assert!(matches!(encoder.show(), Err(Error::PwmIsUnbound)));
}

#[test]
fn the_other_peripheral_fault_is_reported_too() {
    let mut encoder = Neopixel::new();
    let _lost = encoder.show().unwrap();
    let reported = encoder.reclaim(Err(NeopixelPwmError::BufferTooLong));
    assert!(matches!(reported, Err(Error::Pwm(NeopixelPwmError::BufferTooLong))));
}

#[test]
fn a_fault_with_nothing_in_flight_leaves_the_encoder_ready() {
    let mut encoder = Neopixel::new();
    assert!(encoder.reclaim(Err(NeopixelPwmError::BufferTooLong)).is_err());
    assert!(encoder.show().is_ok());
}

#[test]
fn colors_can_be_set_while_a_frame_is_in_flight() {
    let mut encoder = Neopixel::new();
    let transfer = encoder.show().unwrap();
    let color = RgbColor { r: 3, g: 2, b: 1 };
    set(&mut encoder, NeopixelPosition::Pixel0, color);
    assert_eq!(encoder.get_current_colors()[0], color);
    // the frame on loan was spelled before the change
    assert!(transfer.buffer.codes()[..96].iter().all(|code| *code == PIXEL_T0H));
    encoder.reclaim(Ok(transfer.buffer)).unwrap();
    let codes = frame(&mut encoder);
    assert_eq!(&codes[0..8], codes_of(2).as_slice());
}

#[test]
fn refused_show_keeps_the_colors() {
    let mut encoder = Neopixel::new();
    let color = RgbColor { r: 9, g: 9, b: 9 };
    set(&mut encoder, NeopixelPosition::Pixel1, color);
    let _lost = encoder.show().unwrap();
    assert!(encoder.show().is_err());
    assert_eq!(encoder.get_current_colors()[1], color);
}
