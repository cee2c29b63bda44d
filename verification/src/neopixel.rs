//! Waveform encoder for the board's addressable RGB LEDs.
//!
//! The LEDs take their colors over one wire, one bit per 1.25 us period: a
//! short high phase is a 0, a long one is a 1, and a pause latches the frame.
//! The nRF PWM peripheral produces that waveform when it plays a buffer of
//! duty codes, one code per bit. This module keeps the colors, spells them out
//! as duty codes, and keeps track of who holds the buffer; feeding the
//! peripheral is left to whoever owns it.

use crate::helper_types::Error;
use nrf_hal_common::pwm::Error as NeopixelPwmError;
use nrf_hal_common::pwm::{CounterMode, LoadMode, Loop, Prescaler};
#[allow(unused_imports)]
use vstd::arithmetic::power2::{lemma2_to64, pow2};
use vstd::prelude::*;

verus! {

/// `nrf_hal_common::pwm::CounterMode`. Verus reads the variants from the HAL
/// crate itself; nothing is assumed here.
#[verifier::external_type_specification]
pub struct ExCounterMode(CounterMode);

/// `nrf_hal_common::pwm::Prescaler`. Verus reads the variants from the HAL
/// crate itself.
#[verifier::external_type_specification]
pub struct ExPrescaler(Prescaler);

/// `nrf_hal_common::pwm::Loop`. Verus reads the variants from the HAL crate
/// itself.
#[verifier::external_type_specification]
pub struct ExLoop(Loop);

/// `nrf_hal_common::pwm::LoadMode`. Verus reads the variants from the HAL
/// crate itself.
#[verifier::external_type_specification]
pub struct ExLoadMode(LoadMode);

/// `nrf_hal_common::pwm::Error`, what the peripheral reports when it refuses
/// a buffer. Verus reads the variants from the HAL crate itself.
#[verifier::external_type_specification]
pub struct ExNeopixelPwmError(NeopixelPwmError);

/// LEDs on the wire.
pub const ACTIVE_PIXELS: usize = 4;

/// Positions a color can be stored for. The last one is a spare: it is
/// stored, but neither transmitted nor read back.
pub const PIXEL_SLOTS: usize = 5;

/// Bytes in the color store: three per position.
pub const COLOR_STORE_LEN: usize = 15;

/// Bytes that go out on the wire: three per LED.
pub const TRANSMITTED_BYTES: usize = 12;

/// Duty codes in one frame: eight per transmitted byte, and two to latch.
pub const PIXEL_BUFFER_BIT_COUNT: usize = 98;

/// Ticks in one bit period. At the peripheral's 16 MHz clock, undivided, a
/// tick is 62.5 ns and 20 of them make the 1.25 us the LEDs expect.
pub const PIXEL_BIT_PERIOD_TICKS: u16 = 20;

/// Duty code for a 0 bit: high for 6 ticks (375 ns), then low. Bit 15 makes
/// the period start high.
///
/// This and the two codes below hold for the clock and period above and for
/// no other; they are not computed from them.
pub const PIXEL_T0H: u16 = 32774;

/// Duty code for a 1 bit: high for 13 ticks (812.5 ns), then low.
pub const PIXEL_T1H: u16 = 32781;

/// Duty code that keeps the line low for a whole period.
pub const PIXEL_RESET: u16 = 0x8000;

/// A color as three independent channels.
#[derive(Debug, Clone, Copy, PartialEq, Eq, Structural)]
pub struct RgbColor {
    pub r: u8,
    pub g: u8,
    pub b: u8,
}

impl Default for RgbColor {
    /// Black.
    fn default() -> (color: Self)
        ensures
            color == (RgbColor { r: 0, g: 0, b: 0 }),
    {
        RgbColor { r: 0, g: 0, b: 0 }
    }
}

/// A position a color can be set for.
#[derive(Debug, Clone, Copy, PartialEq, Eq, Structural)]
pub enum NeopixelPosition {
    Pixel0,
    Pixel1,
    Pixel2,
    Pixel3,
    Pixel4,
}

/// The rank of a position. Three times the rank is where the position's
/// bytes start in the color store.
pub open spec fn slot_index(position: NeopixelPosition) -> int {
    match position {
        NeopixelPosition::Pixel0 => 0,
        NeopixelPosition::Pixel1 => 1,
        NeopixelPosition::Pixel2 => 2,
        NeopixelPosition::Pixel3 => 3,
        NeopixelPosition::Pixel4 => 4,
    }
}

impl NeopixelPosition {
    /// The rank of this position, from 0.
    pub fn index(self) -> (index: usize)
        ensures
            index == slot_index(self),
    {
        match self {
            NeopixelPosition::Pixel0 => 0,
            NeopixelPosition::Pixel1 => 1,
            NeopixelPosition::Pixel2 => 2,
            NeopixelPosition::Pixel3 => 3,
            NeopixelPosition::Pixel4 => 4,
        }
    }
}

/// The color store once `color` is set for `position`: the position's three
/// bytes hold green, red and blue, in the order the LEDs take them.
pub open spec fn store_with_color(
    store: Seq<u8>,
    position: NeopixelPosition,
    color: RgbColor,
) -> Seq<u8> {
    let base = 3 * slot_index(position);
    store.update(base, color.g).update(base + 1, color.r).update(base + 2, color.b)
}

/// The color store once `color` is set for every position.
pub open spec fn uniform_store(color: RgbColor) -> Seq<u8> {
    Seq::new(
        COLOR_STORE_LEN as nat,
        |i: int|
            if i % 3 == 0 {
                color.g
            } else if i % 3 == 1 {
                color.r
            } else {
                color.b
            },
    )
}

/// The colors of the four LEDs, as the store has them.
pub open spec fn stored_colors(store: Seq<u8>) -> Seq<RgbColor> {
    Seq::new(
        ACTIVE_PIXELS as nat,
        |i: int| RgbColor { g: store[3 * i], r: store[3 * i + 1], b: store[3 * i + 2] },
    )
}

/// Whether bit `bit` of `byte` is set, counting from the most significant
/// bit: bit 0 weighs 128, bit 7 weighs 1.
pub open spec fn bit_is_set(byte: u8, bit: int) -> bool {
    (byte as int / pow2((7 - bit) as nat) as int) % 2 == 1
}

/// The duty code that puts bit `bit` of `byte` on the wire.
pub open spec fn pulse_code(byte: u8, bit: int) -> u16 {
    if bit_is_set(byte, bit) {
        PIXEL_T1H
    } else {
        PIXEL_T0H
    }
}

/// The frame for a color store: the first twelve bytes in store order, each
/// most significant bit first, then two periods of silence.
pub open spec fn pulse_train(store: Seq<u8>) -> Seq<u16> {
    Seq::new(
        PIXEL_BUFFER_BIT_COUNT as nat,
        |i: int|
            if i < 8 * TRANSMITTED_BYTES {
                pulse_code(store[i / 8], i % 8)
            } else {
                PIXEL_RESET
            },
    )
}

/// How the peripheral has to be set up to play a frame.
#[derive(Debug, Clone, Copy, PartialEq, Eq)]
pub struct PwmSettings {
    pub counter_mode: CounterMode,
    pub prescaler: Prescaler,
    pub max_duty: u16,
    pub loop_mode: Loop,
    pub load_mode: LoadMode,
}

/// The setup the duty codes are calibrated for: counting up at the undivided
/// clock, 20 ticks to the period, the frame played once, every output fed
/// from the same code.
pub open spec fn neopixel_settings() -> PwmSettings {
    PwmSettings {
        counter_mode: CounterMode::Up,
        prescaler: Prescaler::Div1,
        max_duty: PIXEL_BIT_PERIOD_TICKS,
        loop_mode: Loop::Disabled,
        load_mode: LoadMode::Common,
    }
}

/// The buffer of duty codes that the peripheral plays.
///
/// There is one per encoder and it cannot be copied: it is either with the
/// encoder or out on loan to the peripheral.
#[derive(Debug)]
pub struct PulseBuffer {
    codes: [u16; PIXEL_BUFFER_BIT_COUNT],
}

impl View for PulseBuffer {
    type V = Seq<u16>;

    /// The codes, in playing order.
    closed spec fn view(&self) -> Seq<u16> {
        self.codes@
    }
}

impl PulseBuffer {
    /// The codes, in playing order.
    pub fn codes(&self) -> (codes: &[u16; PIXEL_BUFFER_BIT_COUNT])
        ensures
            codes@ == self@,
    {
        &self.codes
    }
}

/// A frame on its way to the peripheral: the setup, and the buffer on loan.
#[derive(Debug)]
pub struct PwmTransfer {
    pub settings: PwmSettings,
    pub buffer: PulseBuffer,
}

/// Who holds the pulse buffer.
#[derive(Debug)]
enum Transmitter {
    /// The encoder does; a frame can be sent.
    Idle(PulseBuffer),
    /// The peripheral does; a frame is in flight.
    Transmitting,
}

/// The encoder: the colors that were asked for, and the pulse buffer unless
/// it is out on loan.
#[non_exhaustive]
#[derive(Debug)]
pub struct Neopixel {
    transmitter: Transmitter,
    neopixel_color_bits: [u8; COLOR_STORE_LEN],
}

/// What an encoder stands for.
pub struct NeopixelView {
    /// A frame is in flight and its buffer has not come back.
    pub transmitting: bool,
    /// The stored colors, three bytes per position: green, red, blue.
    pub store: Seq<u8>,
}

impl View for Neopixel {
    type V = NeopixelView;

    closed spec fn view(&self) -> NeopixelView {
        NeopixelView {
            transmitting: self.transmitter is Transmitting,
            store: self.neopixel_color_bits@,
        }
    }
}

/// Whether an encoder in state `pre` sends a frame when asked to.
pub open spec fn show_accepted(pre: NeopixelView) -> bool {
    !pre.transmitting
}

/// The state after a frame was asked for: one is in flight, newly or still.
pub open spec fn after_show(pre: NeopixelView) -> NeopixelView {
    NeopixelView { transmitting: true, store: pre.store }
}

/// The state after the peripheral answered. A finished frame brings the
/// buffer back; a failed one does not.
pub open spec fn after_reclaim(pre: NeopixelView, completed: bool) -> NeopixelView {
    NeopixelView { transmitting: !completed && pre.transmitting, store: pre.store }
}

/// What testing a byte against a one-bit mask says about the byte's bits, and
/// where the mask goes when it is shifted down.
proof fn lemma_mask_test(byte: u8, mask: u8, bit: int)
    requires
        0 <= bit < 8,
        mask as int == pow2((7 - bit) as nat),
    ensures
        (byte & mask == 0) == !bit_is_set(byte, bit),
        bit < 7 ==> (mask >> 1) as int == pow2((7 - (bit + 1)) as nat),
        bit == 7 ==> mask >> 1 == 0,
{
    lemma2_to64();
    assert((byte & mask == 0) == ((byte / mask) % 2 == 0) && mask >> 1 == mask / 2)
        by (bit_vector)
        requires
            mask == 1 || mask == 2 || mask == 4 || mask == 8 || mask == 16 || mask == 32 || mask
                == 64 || mask == 128,
    ;
}

impl Neopixel {
    /// An encoder with every color black and nothing in flight.
    pub fn new() -> (encoder: Self)
        ensures
            encoder@ == (NeopixelView {
                transmitting: false,
                store: Seq::new(COLOR_STORE_LEN as nat, |i: int| 0u8),
            }),
    {
        let encoder = Neopixel {
            transmitter: Transmitter::Idle(PulseBuffer { codes: [0;PIXEL_BUFFER_BIT_COUNT] }),
            neopixel_color_bits: [0;COLOR_STORE_LEN],
        };
        assert(encoder@.store =~= Seq::new(COLOR_STORE_LEN as nat, |i: int| 0u8));
        encoder
    }

    /// Every encoder stores three bytes for each of the five positions.
    pub proof fn lemma_store_len(&self)
        ensures
            self@.store.len() == COLOR_STORE_LEN,
    {
    }

    /// Asks for the stored colors to be sent.
    ///
    /// With nothing in flight the frame is spelled out and handed over, with
    /// the setup it needs; the buffer is then on loan until
    /// [`reclaim`](Neopixel::reclaim) brings it back. With a frame in flight
    /// the request is refused and nothing changes.
    pub fn show(&mut self) -> (shown: Result<PwmTransfer, Error<NeopixelPwmError>>)
        ensures
            final(self)@ == after_show(old(self)@),
            shown is Ok <==> show_accepted(old(self)@),
            shown matches Ok(transfer) ==> transfer.settings == neopixel_settings()
                && transfer.buffer@ == pulse_train(old(self)@.store),
            shown matches Err(refusal) ==> refusal == Error::<NeopixelPwmError>::PwmIsUnbound,
    {
        let mut transmitter = Transmitter::Transmitting;
        core::mem::swap(&mut self.transmitter, &mut transmitter);
        match transmitter {
            Transmitter::Transmitting => Err(Error::PwmIsUnbound),
            Transmitter::Idle(mut buffer) => {
                self.set_color_buffer(&mut buffer);
                let settings = PwmSettings {
                    counter_mode: CounterMode::Up,
                    prescaler: Prescaler::Div1,
                    max_duty: PIXEL_BIT_PERIOD_TICKS,
                    loop_mode: Loop::Disabled,
                    load_mode: LoadMode::Common,
                };
                Ok(PwmTransfer { settings, buffer })
            },
        }
    }

    /// Takes the peripheral's answer to the frame that was handed over.
    ///
    /// A finished frame hands the buffer back and the encoder can send again.
    /// A failure is reported as [`Error::Pwm`]; the buffer did not come back,
    /// so a frame that was in flight stays in flight.
    pub fn reclaim(
        &mut self,
        outcome: Result<PulseBuffer, NeopixelPwmError>,
    ) -> (reported: Result<(), Error<NeopixelPwmError>>)
        ensures
            final(self)@ == after_reclaim(old(self)@, outcome is Ok),
            reported == (match outcome {
                Ok(_) => Ok(()),
                Err(fault) => Err(Error::Pwm(fault)),
            }),
    {
        match outcome {
            Ok(buffer) => {
                self.transmitter = Transmitter::Idle(buffer);
                Ok(())
            },
            Err(fault) => Err(Error::Pwm(fault)),
        }
    }

    /// Spells the colors that go out on the wire into `pixel_buffer`: eight
    /// codes for each of the first twelve bytes of the store, then the two
    /// latch codes.
    fn set_color_buffer(&self, pixel_buffer: &mut PulseBuffer)
        ensures
            final(pixel_buffer)@ == pulse_train(self@.store),
    {
        let mut pos: usize = 0;
        for n in 0..TRANSMITTED_BYTES
            invariant
                pos == 8 * n,
                forall|i: int|
                    0 <= i < pos ==> pixel_buffer.codes[i] == pulse_train(self@.store)[i],
        {
            let pix: u8 = self.neopixel_color_bits[n];
            let mut mask: u8 = 0x80;
            let ghost mut bit: int = 0;
            proof {
                lemma2_to64();
            }
            while mask > 0
                invariant
                    0 <= bit <= 8,
                    n < TRANSMITTED_BYTES,
                    pix == self@.store[n as int],
                    pos == 8 * n + bit,
                    bit < 8 ==> mask as int == pow2((7 - bit) as nat),
                    bit == 8 ==> mask == 0,
                    forall|i: int|
                        0 <= i < pos ==> pixel_buffer.codes[i] == pulse_train(self@.store)[i],
                decreases 8 - bit,
            {
                proof {
                    lemma2_to64();
                    lemma_mask_test(pix, mask, bit);
                }
                pixel_buffer.codes[pos] = if (pix & mask) == 0 {
                    PIXEL_T0H
                } else {
                    PIXEL_T1H
                };
                pos += 1;
                mask >>= 1;
                proof {
                    bit = bit + 1;
                }
            }
        }
        // two periods of silence latch the frame
        pixel_buffer.codes[pos] = PIXEL_RESET;
        pos += 1;
        pixel_buffer.codes[pos] = PIXEL_RESET;
        assert(pixel_buffer@ =~= pulse_train(self@.store));
    }

    /// Stores `color` for `light_position`. Nothing is sent until
    /// [`show`](Neopixel::show).
    pub fn set_neopixel_color<E>(
        &mut self,
        light_position: NeopixelPosition,
        color: RgbColor,
    ) -> (set: Result<(), Error<E>>)
        ensures
            set == Ok::<(), Error<E>>(()),
            final(self)@ == (NeopixelView {
                store: store_with_color(old(self)@.store, light_position, color),
                ..old(self)@
            }),
    {
        let base = light_position.index() * 3;
        self.neopixel_color_bits[base] = color.g;
        self.neopixel_color_bits[base + 1] = color.r;
        self.neopixel_color_bits[base + 2] = color.b;
        Ok(())
    }

    /// Stores `color` for every position, the spare one included.
    pub fn set_all_neopixels<E>(&mut self, color: RgbColor) -> (set: Result<(), Error<E>>)
        ensures
            set == Ok::<(), Error<E>>(()),
            final(self)@ == (NeopixelView { store: uniform_store(color), ..old(self)@ }),
    {
        let positions = [
            NeopixelPosition::Pixel0,
            NeopixelPosition::Pixel1,
            NeopixelPosition::Pixel2,
            NeopixelPosition::Pixel3,
            NeopixelPosition::Pixel4,
        ];
        for slot in 0..PIXEL_SLOTS
            invariant
                forall|i: int| 0 <= i < PIXEL_SLOTS ==> slot_index(#[trigger] positions[i]) == i,
                self@.transmitting == old(self)@.transmitting,
                forall|i: int| 0 <= i < 3 * slot ==> self@.store[i] == uniform_store(color)[i],
        {
            self.set_neopixel_color::<E>(positions[slot], color)?;
        }
        assert(self@.store =~= uniform_store(color));
        Ok(())
    }

    /// The colors of the four LEDs, as last set.
    pub fn get_current_colors(&self) -> (colors: [RgbColor; ACTIVE_PIXELS])
        ensures
            colors@ == stored_colors(self@.store),
    {
        let mut current_colors = [RgbColor { r: 0, g: 0, b: 0 };ACTIVE_PIXELS];
        for index in 0..ACTIVE_PIXELS
            invariant
                forall|i: int|
                    0 <= i < index ==> current_colors[i] == stored_colors(self@.store)[i],
        {
            current_colors[index] = RgbColor {
                g: self.neopixel_color_bits[3 * index],
                r: self.neopixel_color_bits[3 * index + 1],
                b: self.neopixel_color_bits[3 * index + 2],
            };
        }
        assert(current_colors@ =~= stored_colors(self@.store));
        current_colors
    }
}

/// Setting a color changes the three bytes of its position, to green, red
/// and blue in that order, and no other byte.
pub proof fn lemma_set_color_bytes(store: Seq<u8>, position: NeopixelPosition, color: RgbColor)
    requires
        store.len() == COLOR_STORE_LEN,
    ensures
        ({
            let after = store_with_color(store, position, color);
            let base = 3 * slot_index(position);
            &&& after.len() == COLOR_STORE_LEN
            &&& after[base] == color.g
            &&& after[base + 1] == color.r
            &&& after[base + 2] == color.b
            &&& forall|i: int|
                0 <= i < COLOR_STORE_LEN && !(base <= i < base + 3) ==> after[i] == store[i]
        }),
{
}

/// A color that is set for one of the four LEDs is the color read back for
/// it, and the other LEDs read back as before. Setting the spare position
/// changes nothing that is read back.
pub proof fn lemma_set_then_get(store: Seq<u8>, position: NeopixelPosition, color: RgbColor)
    requires
        store.len() == COLOR_STORE_LEN,
    ensures
        forall|i: int|
            0 <= i < ACTIVE_PIXELS ==> #[trigger] stored_colors(
                store_with_color(store, position, color),
            )[i] == (if i == slot_index(position) {
                color
            } else {
                stored_colors(store)[i]
            }),
{
}

/// After a color was set for every position, every LED reads back as that
/// color.
pub proof fn lemma_set_all_then_get(color: RgbColor)
    ensures
        forall|i: int|
            0 <= i < ACTIVE_PIXELS ==> #[trigger] stored_colors(uniform_store(color))[i] == color,
{
}

/// Setting a color for every position comes to the same as setting it for
/// the five positions one by one.
pub proof fn lemma_set_all_is_five_sets(store: Seq<u8>, color: RgbColor)
    requires
        store.len() == COLOR_STORE_LEN,
    ensures
        uniform_store(color) == store_with_color(
            store_with_color(
                store_with_color(
                    store_with_color(
                        store_with_color(store, NeopixelPosition::Pixel0, color),
                        NeopixelPosition::Pixel1,
                        color,
                    ),
                    NeopixelPosition::Pixel2,
                    color,
                ),
                NeopixelPosition::Pixel3,
                color,
            ),
            NeopixelPosition::Pixel4,
            color,
        ),
{
}

/// While a frame is in flight a second one is refused, and the refusal
/// changes nothing.
pub proof fn lemma_second_show_is_refused(pre: NeopixelView)
    ensures
        !show_accepted(after_show(pre)),
        after_show(after_show(pre)) == after_show(pre),
{
}

/// Once a frame has finished the next one is accepted.
pub proof fn lemma_show_after_completion(pre: NeopixelView)
    ensures
        show_accepted(after_reclaim(after_show(pre), true)),
{
}

/// A frame that failed took the buffer with it: every later frame is
/// refused.
pub proof fn lemma_failed_frame_stays_in_flight(pre: NeopixelView)
    ensures
        !show_accepted(after_reclaim(after_show(pre), false)),
{
}

/// Neither asking for a frame nor the peripheral's answer touches the stored
/// colors.
pub proof fn lemma_frames_keep_colors(pre: NeopixelView, completed: bool)
    ensures
        after_show(pre).store == pre.store,
        after_reclaim(pre, completed).store == pre.store,
{
}

/// A frame has 98 codes: 96 that are each a 0 bit or a 1 bit, and then two
/// equal latch codes that are neither.
pub proof fn lemma_pulse_train_shape(store: Seq<u8>)
    ensures
        pulse_train(store).len() == PIXEL_BUFFER_BIT_COUNT,
        PIXEL_BUFFER_BIT_COUNT == 3 * 8 * ACTIVE_PIXELS + 2,
        forall|i: int|
            0 <= i < 96 ==> #[trigger] pulse_train(store)[i] == PIXEL_T0H || pulse_train(store)[i]
                == PIXEL_T1H,
        pulse_train(store)[96] == PIXEL_RESET,
        pulse_train(store)[97] == PIXEL_RESET,
        PIXEL_RESET != PIXEL_T0H,
        PIXEL_RESET != PIXEL_T1H,
        PIXEL_T0H != PIXEL_T1H,
{
}

/// The spare position never reaches the wire: whatever is set for it, the
/// frame is the same.
pub proof fn lemma_spare_position_is_not_sent(store: Seq<u8>, color: RgbColor)
    requires
        store.len() == COLOR_STORE_LEN,
    ensures
        pulse_train(store_with_color(store, NeopixelPosition::Pixel4, color)) == pulse_train(store),
{
    let after = store_with_color(store, NeopixelPosition::Pixel4, color);
    assert forall|i: int| 0 <= i < PIXEL_BUFFER_BIT_COUNT implies pulse_train(after)[i]
        == pulse_train(store)[i] by {
        if i < 8 * TRANSMITTED_BYTES {
            assert(after[i / 8] == store[i / 8]);
        }
    }
    assert(pulse_train(after) =~= pulse_train(store));
}

/// What the duty codes say to the peripheral: all three start the period
/// high, for 6, 13 and 0 ticks of the 20 that make a period.
pub proof fn lemma_duty_codes()
    ensures
        PIXEL_T0H == 0x8000 + 6,
        PIXEL_T1H == 0x8000 + 13,
        PIXEL_RESET == 0x8000 + 0,
        6 < 13 < PIXEL_BIT_PERIOD_TICKS,
{
}

/// 1 for the code of a 1 bit, 0 for any other code.
pub open spec fn bit_of_code(code: u16) -> int {
    if code == PIXEL_T1H {
        1
    } else {
        0
    }
}

/// The byte that the eight codes from `start` on spell, most significant bit
/// first.
pub open spec fn byte_spelled(codes: Seq<u16>, start: int) -> int {
    128 * bit_of_code(codes[start]) + 64 * bit_of_code(codes[start + 1]) + 32 * bit_of_code(
        codes[start + 2],
    ) + 16 * bit_of_code(codes[start + 3]) + 8 * bit_of_code(codes[start + 4]) + 4 * bit_of_code(
        codes[start + 5],
    ) + 2 * bit_of_code(codes[start + 6]) + bit_of_code(codes[start + 7])
}

/// Reading a frame back gives the first twelve bytes of the store, in store
/// order: nothing is lost or reordered on the way to the wire.
pub proof fn lemma_frame_spells_store(store: Seq<u8>, n: int)
    requires
        store.len() == COLOR_STORE_LEN,
        0 <= n < TRANSMITTED_BYTES,
    ensures
        byte_spelled(pulse_train(store), 8 * n) == store[n],
{
    lemma2_to64();
    let train = pulse_train(store);
    let byte = store[n];
    assert forall|bit: int| 0 <= bit < 8 implies #[trigger] train[8 * n + bit] == pulse_code(
        byte,
        bit,
    ) by {
        assert((8 * n + bit) / 8 == n);
        assert((8 * n + bit) % 8 == bit);
    }
    assert(train[8 * n] == pulse_code(byte, 0));
    assert(train[8 * n + 1] == pulse_code(byte, 1));
    assert(train[8 * n + 2] == pulse_code(byte, 2));
    assert(train[8 * n + 3] == pulse_code(byte, 3));
    assert(train[8 * n + 4] == pulse_code(byte, 4));
    assert(train[8 * n + 5] == pulse_code(byte, 5));
    assert(train[8 * n + 6] == pulse_code(byte, 6));
    assert(train[8 * n + 7] == pulse_code(byte, 7));
    assert(byte == 128 * ((byte / 128) % 2) + 64 * ((byte / 64) % 2) + 32 * ((byte / 32) % 2) + 16
        * ((byte / 16) % 2) + 8 * ((byte / 8) % 2) + 4 * ((byte / 4) % 2) + 2 * ((byte / 2) % 2)
        + (byte / 1) % 2) by (bit_vector);
}

} // verus!
