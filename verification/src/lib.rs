//! Control core for the Superbit expansion board: four motors and eight
//! servos behind a PCA9685 PWM expander, and four RGB LEDs on a one-wire bus.
//!
//! The crate decides what has to reach the hardware and never touches it.
//! A motor or servo command yields the register writes for the expander, to
//! be put on the I2C bus one at a time. A request to show the LED colors
//! yields a buffer of duty codes for the nRF PWM peripheral. The caller
//! performs each of these and reports back what the hardware answered, and
//! gets told what the command as a whole came to.

pub mod helper_types;
pub mod neopixel;
pub mod pca9685_controller;

use vstd::prelude::*;

pub use helper_types::Error;
pub use neopixel::{
    Neopixel, NeopixelPosition, NeopixelView, PulseBuffer, PwmSettings, PwmTransfer, RgbColor,
};
// the peripheral's own error type
pub use nrf_hal_common::pwm::Error as NeopixelPwmError;
pub use pca9685_controller::{
    ChannelWrite, ChannelWrites, ChipSetup, MotorDirection, MotorPosition, Pca9685, ServoPosition,
};
pub use pwm_pca9685::Channel;
// the chip driver's own error type
pub use pwm_pca9685::Error as Pca9685Error;

#[allow(unused_imports)]
use neopixel::{
    after_reclaim, after_show, neopixel_settings, pulse_train, show_accepted, store_with_color,
    stored_colors, uniform_store, ACTIVE_PIXELS, COLOR_STORE_LEN,
};
#[allow(unused_imports)]
use pca9685_controller::{board_chip_setup, motor_writes, servo_write, writes_after};

verus! {

/// The board: one channel mapper for the motors and servos, one encoder for
/// the LEDs. `E` is the type of the faults of the bus the expander sits on.
#[non_exhaustive]
#[derive(Debug)]
pub struct SuperBit<E> {
    pca_9685: Pca9685<E>,
    neopixel: Neopixel,
}

impl<E> View for SuperBit<E> {
    type V = NeopixelView;

    /// The mapper keeps nothing between commands, so the board stands for
    /// what its encoder stands for.
    closed spec fn view(&self) -> NeopixelView {
        self.neopixel@
    }
}

impl<E> SuperBit<E> {
    /// The setup of the chip that the board's mapper was made for.
    pub closed spec fn expander_setup(&self) -> ChipSetup {
        self.pca_9685@
    }
}

/// A leaf result with its error filed under the expander.
pub open spec fn as_expander_result<T, E>(result: Result<T, E>) -> Result<T, Error<E>> {
    match result {
        Ok(value) => Ok(value),
        Err(fault) => Err(Error::Pca9685(fault)),
    }
}

impl<E> SuperBit<E> {
    /// A board with every LED color black and nothing in flight, for an
    /// expander at the board's address that is clocked for 50 Hz.
    pub fn new() -> (board: Self)
        ensures
            board@ == (NeopixelView {
                transmitting: false,
                store: Seq::new(COLOR_STORE_LEN as nat, |i: int| 0u8),
            }),
            board.expander_setup() == board_chip_setup(),
    {
        let neopixel = Neopixel::new();
        let pca_9685 = Pca9685::new();
        Self { pca_9685, neopixel }
    }

    /// How the expander has to be opened and clocked before the first write
    /// of a motor or servo command is performed.
    pub fn chip_setup(&self) -> (setup: ChipSetup)
        ensures
            setup == self.expander_setup(),
    {
        self.pca_9685.chip_setup()
    }

    /// Every board stores three bytes for each of the five LED positions.
    pub proof fn lemma_store_len(&self)
        ensures
            self@.store.len() == COLOR_STORE_LEN,
    {
        self.neopixel.lemma_store_len();
    }

    /// Runs the motor at `motor` at `speed`, in the given direction. The
    /// result is the two register writes to perform.
    pub fn drive_motor(
        &self,
        motor: MotorPosition,
        speed: u8,
        direction: MotorDirection,
    ) -> (writes: ChannelWrites)
        ensures
            writes@ == motor_writes(motor, speed, direction),
    {
        self.pca_9685.drive_motor(motor, speed, direction)
    }

    /// Holds the 270 degree servo at `servo_pos` at `degrees`; more than 270
    /// counts as 270. The result is the register write to perform.
    pub fn move_270_servo(
        &self,
        servo_pos: ServoPosition,
        degrees: u16,
    ) -> (writes: Result<ChannelWrites, Error<Pca9685Error<E>>>)
        ensures
            writes matches Ok(w) && w@ == seq![servo_write(servo_pos, degrees)],
    {
        match self.pca_9685.move_270_servo(servo_pos, degrees) {
            Ok(writes) => Ok(writes),
            Err(e) => Err(Error::Pca9685(e)),
        }
    }

    /// Takes the chip's answer to the write that `writes` last handed out.
    /// A failure ends the command and is reported as [`Error::Pca9685`].
    pub fn channel_write_done(
        &self,
        writes: &mut ChannelWrites,
        outcome: Result<(), Pca9685Error<E>>,
    ) -> (reported: Result<(), Error<Pca9685Error<E>>>)
        ensures
            final(writes)@ == writes_after(old(writes)@, outcome is Ok),
            reported == as_expander_result(outcome),
    {
        match writes.record(outcome) {
            Ok(()) => Ok(()),
            Err(e) => Err(Error::Pca9685(e)),
        }
    }

    /// Stores `color` for the LED at `neopixel_position`. The LED changes
    /// with the next frame that is shown.
    pub fn set_neopixel_color(
        &mut self,
        neopixel_position: NeopixelPosition,
        color: RgbColor,
    ) -> (set: Result<(), Error<E>>)
        ensures
            set == Ok::<(), Error<E>>(()),
            final(self)@ == (NeopixelView {
                store: store_with_color(old(self)@.store, neopixel_position, color),
                ..old(self)@
            }),
    {
        self.neopixel.set_neopixel_color(neopixel_position, color)
    }

    /// Stores `color` for every LED. The LEDs change with the next frame
    /// that is shown.
    pub fn set_all_neopixel_colors(&mut self, color: RgbColor) -> (set: Result<(), Error<E>>)
        ensures
            set == Ok::<(), Error<E>>(()),
            final(self)@ == (NeopixelView { store: uniform_store(color), ..old(self)@ }),
    {
        self.neopixel.set_all_neopixels(color)
    }

    /// Stores black for the LED at `neopixel_position`, which turns it off
    /// with the next frame that is shown.
    pub fn turn_off_neopixel(
        &mut self,
        neopixel_position: NeopixelPosition,
    ) -> (set: Result<(), Error<E>>)
        ensures
            set == Ok::<(), Error<E>>(()),
            final(self)@ == (NeopixelView {
                store: store_with_color(
                    old(self)@.store,
                    neopixel_position,
                    RgbColor { r: 0, g: 0, b: 0 },
                ),
                ..old(self)@
            }),
    {
        self.set_neopixel_color(neopixel_position, RgbColor { r: 0, g: 0, b: 0 })
    }

    /// Asks for the stored colors to be sent to the LEDs.
    ///
    /// With nothing in flight the result is the frame to play; its buffer is
    /// on loan until [`neopixel_reclaim`](SuperBit::neopixel_reclaim) brings
    /// it back. With a frame in flight the request is refused.
    pub fn neopixel_show(&mut self) -> (shown: Result<PwmTransfer, Error<NeopixelPwmError>>)
        ensures
            final(self)@ == after_show(old(self)@),
            shown is Ok == show_accepted(old(self)@),
            shown matches Ok(transfer) ==> transfer.settings == neopixel_settings()
                && transfer.buffer@ == pulse_train(old(self)@.store),
            shown matches Err(refusal) ==> refusal == Error::<NeopixelPwmError>::PwmIsUnbound,
    {
        self.neopixel.show()
    }

    /// Takes the peripheral's answer to the frame that was handed over: the
    /// buffer if the frame was played, the fault if it was not.
    pub fn neopixel_reclaim(
        &mut self,
        outcome: Result<PulseBuffer, NeopixelPwmError>,
    ) -> (reported: Result<(), Error<NeopixelPwmError>>)
        ensures
            final(self)@ == after_reclaim(old(self)@, outcome is Ok),
            reported == (match outcome {
                Ok(_) => Ok(()),
                Err(fault) => Err(Error::Pwm(fault)),
            }),
    {
        self.neopixel.reclaim(outcome)
    }

    /// The colors of the four LEDs, as last set.
    pub fn get_current_colors(&self) -> (colors: [RgbColor; ACTIVE_PIXELS])
        ensures
            colors@ == stored_colors(self@.store),
    {
        self.neopixel.get_current_colors()
    }
}

} // verus!
