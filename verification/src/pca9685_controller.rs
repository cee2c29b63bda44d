//! Channel mapper for the PCA9685 PWM expander that drives the board's motors
//! and servos.
//!
//! The chip counts 4096 ticks per output cycle and is clocked for 50 Hz, so
//! one cycle lasts 20 ms. Everything here turns a command in human units into
//! the `(channel, on tick, off tick)` register writes that realise it; putting
//! those writes on the bus is left to whoever owns the chip driver.

use core::marker::PhantomData;
use core::ops::RangeInclusive;
use pwm_pca9685::Channel;
use pwm_pca9685::Error as Pca9685Error;
#[allow(unused_imports)]
use vstd::math::min;
use vstd::prelude::*;
#[allow(unused_imports)]
use vstd::std_specs::range::ContainsSpec;

verus! {

/// `pwm_pca9685::Channel`, the driver's output channel selector.
///
/// Declared so that channels can appear in signatures and contracts. Verus
/// reads the variants from the driver crate itself; nothing is assumed here.
#[verifier::external_type_specification]
pub struct ExChannel(Channel);

/// `pwm_pca9685::Error`, what the driver reports when a call fails.
///
/// Declared so that chip results can be passed through and inspected. Verus
/// reads the two variants from the driver crate itself.
#[verifier::external_type_specification]
#[verifier::reject_recursive_types(E)]
pub struct ExPca9685Error<E>(Pca9685Error<E>);

/// `RangeInclusive::start`: the lower bound the range was built with.
pub assume_specification<Idx>[ RangeInclusive::<Idx>::start ](
    range: &RangeInclusive<Idx>,
) -> (bound: &Idx)
    ensures
        *bound == range@.start,
;

/// `RangeInclusive::end`: the upper bound the range was built with.
pub assume_specification<Idx>[ RangeInclusive::<Idx>::end ](
    range: &RangeInclusive<Idx>,
) -> (bound: &Idx)
    ensures
        *bound == range@.end,
;

/// Bus address at which the board wires the expander.
pub const SUPERBIT_PCA9685_ADDRESS: u8 = 0x40;

/// Prescale that clocks the expander for 50 Hz output, the frame rate of the
/// board's servos.
pub const SUPERBIT_PCA_PRESCALE: u8 = 121;

/// Frequency of the expander's own oscillator, in Hz.
pub const OSCILLATOR_HZ: u32 = 25_000_000;

/// Ticks in one output cycle of the expander.
pub const TICKS_PER_CYCLE: u32 = 4096;

/// Largest tick a duty-cycle register accepts.
pub const MAX_TICK: u16 = 4095;

/// Length of one output cycle at 50 Hz, in microseconds.
pub const CYCLE_MICROS: u32 = 20_000;

/// Mechanical range of the servos, in degrees.
pub const SERVO_MAX_DEGREES: u32 = 270;

/// The servos take the pulse of a 180 degree servo: the whole turn is spread
/// over an angle from 0 to this.
pub const SERVO_MAX_ANGLE: u32 = 180;

/// Pulse width that holds a servo at angle 0, in microseconds.
pub const SERVO_MIN_PULSE_MICROS: u32 = 600;

/// Pulse width added per unit of angle, in microseconds.
pub const SERVO_MICROS_PER_ANGLE: u32 = 10;

/// Duty ticks per unit of motor speed.
pub const MOTOR_TICKS_PER_SPEED: u16 = 16;

/// One of the eight servo headers of the board.
#[derive(Debug, Clone, Copy, PartialEq, Eq, Structural)]
pub enum ServoPosition {
    S1,
    S2,
    S3,
    S4,
    S5,
    S6,
    S7,
    S8,
}

/// The channel a servo header is soldered to: header `n` sits on channel
/// `n - 1`.
pub open spec fn servo_channel(servo_pos: ServoPosition) -> Channel {
    match servo_pos {
        ServoPosition::S1 => Channel::C0,
        ServoPosition::S2 => Channel::C1,
        ServoPosition::S3 => Channel::C2,
        ServoPosition::S4 => Channel::C3,
        ServoPosition::S5 => Channel::C4,
        ServoPosition::S6 => Channel::C5,
        ServoPosition::S7 => Channel::C6,
        ServoPosition::S8 => Channel::C7,
    }
}

/// One of the four motor sockets of the board.
#[derive(Debug, Clone, Copy, PartialEq, Eq, Structural)]
pub enum MotorPosition {
    M1,
    M2,
    M3,
    M4,
}

/// Which way a motor turns.
#[derive(Debug, Clone, Copy, PartialEq, Eq, Structural)]
pub enum MotorDirection {
    Forward,
    Reverse,
}

/// One write to a channel's pair of duty-cycle registers: the output rises at
/// tick `on` of every cycle and falls at tick `off`.
#[derive(Debug, Clone, Copy, PartialEq)]
pub struct ChannelWrite {
    pub channel: Channel,
    pub on: u16,
    pub off: u16,
}

impl ChannelWrite {
    /// The chip takes the write: both ticks fit its 12-bit counter.
    pub open spec fn within_chip_range(self) -> bool {
        self.on <= MAX_TICK && self.off <= MAX_TICK
    }
}

/// The two channels a motor socket is soldered to, in board order.
pub open spec fn board_channels(motor: MotorPosition) -> (Channel, Channel) {
    match motor {
        MotorPosition::M1 => (Channel::C8, Channel::C9),
        MotorPosition::M2 => (Channel::C10, Channel::C11),
        MotorPosition::M3 => (Channel::C12, Channel::C13),
        MotorPosition::M4 => (Channel::C14, Channel::C15),
    }
}

/// The channel that carries the duty when the motor runs forward.
///
/// The board wires sockets M1 and M2 the other way round from M3 and M4: on
/// the first two the forward channel is the second of the pair, on the last
/// two it is the first.
pub open spec fn forward_channel(motor: MotorPosition) -> Channel {
    match motor {
        MotorPosition::M1 | MotorPosition::M2 => board_channels(motor).1,
        MotorPosition::M3 | MotorPosition::M4 => board_channels(motor).0,
    }
}

/// The channel that carries the duty when the motor runs in reverse: the
/// other one of the socket's pair.
pub open spec fn reverse_channel(motor: MotorPosition) -> Channel {
    match motor {
        MotorPosition::M1 | MotorPosition::M2 => board_channels(motor).0,
        MotorPosition::M3 | MotorPosition::M4 => board_channels(motor).1,
    }
}

/// Duty for a motor speed: sixteen ticks per unit, never more than a register
/// holds.
pub open spec fn motor_duty(speed: int) -> int {
    min(MAX_TICK as int, speed * MOTOR_TICKS_PER_SPEED)
}

/// The register writes that run `motor` at `speed`, in the order in which
/// they go out: the forward channel first, then the reverse channel. The
/// channel for the chosen direction gets the duty, the other one is switched
/// off.
pub open spec fn motor_writes(
    motor: MotorPosition,
    speed: u8,
    direction: MotorDirection,
) -> Seq<ChannelWrite> {
    let duty = motor_duty(speed as int) as u16;
    let (forward_duty, reverse_duty) = match direction {
        MotorDirection::Forward => (duty, 0u16),
        MotorDirection::Reverse => (0u16, duty),
    };
    seq![
        ChannelWrite { channel: forward_channel(motor), on: 0, off: forward_duty },
        ChannelWrite { channel: reverse_channel(motor), on: 0, off: reverse_duty },
    ]
}

/// How the expander has to be opened and clocked before it takes a command:
/// first it is opened at `address`, then `prescale` is written to it.
#[derive(Debug, Clone, Copy, PartialEq, Eq, Structural)]
pub struct ChipSetup {
    /// Bus address at which the chip answers.
    pub address: u8,
    /// Prescale that sets the length of the chip's output cycle.
    pub prescale: u8,
}

/// The setup of the board's expander: at the address the board wires it to,
/// clocked for the 50 Hz that the servo pulses are worked out for.
pub open spec fn board_chip_setup() -> ChipSetup {
    ChipSetup { address: SUPERBIT_PCA9685_ADDRESS, prescale: SUPERBIT_PCA_PRESCALE }
}

/// The prescale that makes the expander put out `rate_hz` cycles a second:
/// the oscillator's ticks per output tick, rounded to the nearest, less one.
pub open spec fn prescale_for(rate_hz: int) -> int {
    (2 * OSCILLATOR_HZ + TICKS_PER_CYCLE * rate_hz) / (2 * TICKS_PER_CYCLE * rate_hz) - 1
}

/// Where `value` lands when `[from_start, from_end]` is laid linearly over
/// `[to_start, to_end]`, rounded down.
pub open spec fn map_to_range(
    value: int,
    from_start: int,
    from_end: int,
    to_start: int,
    to_end: int,
) -> int {
    (value - from_start) * (to_end - to_start) / (from_end - from_start) + to_start
}

/// The angle, out of 180, that stands for a turn of `degrees` out of 270.
/// Anything beyond the mechanical range counts as the end of the range.
pub open spec fn servo_angle(degrees: int) -> int {
    map_to_range(
        min(degrees, SERVO_MAX_DEGREES as int),
        0,
        SERVO_MAX_DEGREES as int,
        0,
        SERVO_MAX_ANGLE as int,
    )
}

/// Width of the pulse that holds a servo at `degrees`, in microseconds:
/// 600 at one end of the range, 2400 at the other.
pub open spec fn servo_pulse_micros(degrees: int) -> int {
    servo_angle(degrees) * SERVO_MICROS_PER_ANGLE + SERVO_MIN_PULSE_MICROS
}

/// The tick at which the pulse for `degrees` ends: its share of the 20 ms
/// cycle, in ticks, rounded down.
pub open spec fn servo_off_tick(degrees: int) -> int {
    servo_pulse_micros(degrees) * TICKS_PER_CYCLE / (CYCLE_MICROS as int)
}

/// The register write that holds the servo at `servo_pos` at `degrees`: the
/// pulse starts with the cycle and ends at the tick for the angle.
pub open spec fn servo_write(servo_pos: ServoPosition, degrees: u16) -> ChannelWrite {
    ChannelWrite {
        channel: servo_channel(servo_pos),
        on: 0,
        off: servo_off_tick(degrees as int) as u16,
    }
}

impl ServoPosition {
    /// The expander channel this header is soldered to.
    pub fn get_board_channel(&self) -> (channel: Channel)
        ensures
            channel == servo_channel(*self),
    {
        match self {
            ServoPosition::S1 => Channel::C0,
            ServoPosition::S2 => Channel::C1,
            ServoPosition::S3 => Channel::C2,
            ServoPosition::S4 => Channel::C3,
            ServoPosition::S5 => Channel::C4,
            ServoPosition::S6 => Channel::C5,
            ServoPosition::S7 => Channel::C6,
            ServoPosition::S8 => Channel::C7,
        }
    }
}

impl MotorPosition {
    /// The two expander channels this socket is soldered to, in board order.
    pub fn get_board_channels(&self) -> (channels: (Channel, Channel))
        ensures
            channels == board_channels(*self),
    {
        match self {
            MotorPosition::M1 => (Channel::C8, Channel::C9),
            MotorPosition::M2 => (Channel::C10, Channel::C11),
            MotorPosition::M3 => (Channel::C12, Channel::C13),
            MotorPosition::M4 => (Channel::C14, Channel::C15),
        }
    }
}

/// The register writes one command asks for, issued strictly one at a time.
///
/// Whoever owns the chip takes [`next_write`](ChannelWrites::next_write),
/// performs it, and reports what the chip answered with
/// [`record`](ChannelWrites::record). A failed write ends the command: the
/// writes after it are never issued, and the ones before it stay in effect.
#[derive(Debug)]
pub enum ChannelWrites {
    /// Nothing is left to issue.
    Finished,
    /// One write is left.
    One(ChannelWrite),
    /// Two writes are left; the first goes out first.
    Two(ChannelWrite, ChannelWrite),
}

impl View for ChannelWrites {
    type V = Seq<ChannelWrite>;

    /// The writes still to be issued, next one first.
    open spec fn view(&self) -> Seq<ChannelWrite> {
        match *self {
            ChannelWrites::Finished => seq![],
            ChannelWrites::One(only) => seq![only],
            ChannelWrites::Two(first, second) => seq![first, second],
        }
    }
}

/// What is left of a command after its next write got the answer `succeeded`.
pub open spec fn writes_after(pending: Seq<ChannelWrite>, succeeded: bool) -> Seq<ChannelWrite> {
    if succeeded && pending.len() > 0 {
        pending.drop_first()
    } else {
        seq![]
    }
}

impl ChannelWrites {
    /// The write to perform now, if the command is not over.
    pub fn next_write(&self) -> (next: Option<ChannelWrite>)
        ensures
            next == (if self@.len() > 0 {
                Some(self@[0])
            } else {
                None
            }),
    {
        match self {
            ChannelWrites::Finished => None,
            ChannelWrites::One(only) => Some(*only),
            ChannelWrites::Two(first, _) => Some(*first),
        }
    }

    /// Whether every write has been issued, or one has failed.
    pub fn is_finished(&self) -> (finished: bool)
        ensures
            finished == (self@.len() == 0),
    {
        match self {
            ChannelWrites::Finished => true,
            _ => false,
        }
    }

    /// Takes the chip's answer to the write that was last handed out and
    /// passes it on. After a success the next write is up; after a failure
    /// nothing more is issued.
    pub fn record<E>(
        &mut self,
        outcome: Result<(), Pca9685Error<E>>,
    ) -> (reported: Result<(), Pca9685Error<E>>)
        ensures
            reported == outcome,
            final(self)@ == writes_after(old(self)@, outcome is Ok),
    {
        let remaining = match (&*self, &outcome) {
            (ChannelWrites::Two(_, second), Ok(_)) => ChannelWrites::One(*second),
            _ => ChannelWrites::Finished,
        };
        *self = remaining;
        outcome
    }
}

/// The mapper from motor and servo commands to register writes, for an
/// expander on a bus whose faults are of type `E`.
///
/// A mapper is made for one setup of the chip, and its writes mean what they
/// say only on a chip that was set up that way.
#[non_exhaustive]
#[derive(Debug)]
pub struct Pca9685<E> {
    setup: ChipSetup,
    bus_fault: PhantomData<E>,
}

impl<E> View for Pca9685<E> {
    type V = ChipSetup;

    /// The setup of the chip that the mapper was made for.
    closed spec fn view(&self) -> ChipSetup {
        self.setup
    }
}

impl<E> Pca9685<E> {
    /// A mapper for the board's expander: the chip at the board's address,
    /// clocked for 50 Hz.
    pub fn new() -> (mapper: Self)
        ensures
            mapper@ == board_chip_setup(),
    {
        Pca9685 {
            setup: ChipSetup {
                address: SUPERBIT_PCA9685_ADDRESS,
                prescale: SUPERBIT_PCA_PRESCALE,
            },
            bus_fault: PhantomData,
        }
    }

    /// How the chip has to be opened and clocked before the first write of
    /// this mapper is performed.
    pub fn chip_setup(&self) -> (setup: ChipSetup)
        ensures
            setup == self@,
    {
        self.setup
    }

    /// Lays `original_range` linearly over `new_range` and says where `value`
    /// lands, rounded down; `None` for a value outside `original_range`.
    pub fn map_number_to_new_range(
        value: u32,
        original_range: RangeInclusive<u32>,
        new_range: RangeInclusive<u32>,
    ) -> (mapped: Option<u32>)
        requires
            original_range.contains_spec(&value) ==> original_range@.start < original_range@.end,
            new_range@.start <= new_range@.end,
        ensures
            mapped == (if original_range.contains_spec(&value) {
                Some(
                    map_to_range(
                        value as int,
                        original_range@.start as int,
                        original_range@.end as int,
                        new_range@.start as int,
                        new_range@.end as int,
                    ) as u32,
                )
            } else {
                None
            }),
            mapped matches Some(m) ==> new_range@.start <= m <= new_range@.end,
    {
        if !original_range.contains(&value) {
            return None;
        }
        let offset: u64 = (value - *original_range.start()) as u64;
        let original_len: u64 = (*original_range.end() - *original_range.start()) as u64;
        let new_len: u64 = (*new_range.end() - *new_range.start()) as u64;
        proof {
            lemma_map_to_range_bounds(
                value as int,
                original_range@.start as int,
                original_range@.end as int,
                new_range@.start as int,
                new_range@.end as int,
            );
            assert(offset * new_len <= 0xffff_ffff * 0xffff_ffff) by (nonlinear_arith)
                requires
                    offset <= 0xffff_ffff,
                    new_len <= 0xffff_ffff,
            ;
        }
        let value_in_new_range: u64 = offset * new_len / original_len + (*new_range.start()) as u64;
        Some(value_in_new_range as u32)
    }

    /// Holds the servo at `servo_pos` at `degrees`, out of 270; more than 270
    /// counts as 270.
    ///
    /// One write results. The pulse always fits the chip's registers, so the
    /// command is never refused.
    pub fn move_270_servo(
        &self,
        servo_pos: ServoPosition,
        degrees: u16,
    ) -> (writes: Result<ChannelWrites, Pca9685Error<E>>)
        ensures
            writes matches Ok(w) && w@ == seq![servo_write(servo_pos, degrees)],
    {
        let mut scaled_degrees: u32 = degrees.into();
        if scaled_degrees > SERVO_MAX_DEGREES {
            scaled_degrees = SERVO_MAX_DEGREES;
        }
        let mapped = Self::map_number_to_new_range(
            scaled_degrees,
            0..=SERVO_MAX_DEGREES,
            0..=SERVO_MAX_ANGLE,
        );
        let scaled_degrees = match mapped {
            Some(angle) => angle,
            None => {
                return Err(Pca9685Error::InvalidInputData);
            },
        };
        let degrees_mapped_to_micros = scaled_degrees * SERVO_MICROS_PER_ANGLE
            + SERVO_MIN_PULSE_MICROS;
        let pulse_duration = degrees_mapped_to_micros * TICKS_PER_CYCLE / CYCLE_MICROS;
        let off: Result<u16, _> = pulse_duration.try_into();
        match off {
            Ok(off) => Ok(
                ChannelWrites::One(
                    ChannelWrite { channel: servo_pos.get_board_channel(), on: 0, off },
                ),
            ),
            Err(_) => Err(Pca9685Error::InvalidInputData),
        }
    }

    /// Runs the motor at `motor` at `speed` in the given direction.
    ///
    /// Two writes result, forward channel first. Which physical channel is
    /// the forward one depends on the socket.
    pub fn drive_motor(
        &self,
        motor: MotorPosition,
        speed: u8,
        direction: MotorDirection,
    ) -> (writes: ChannelWrites)
        ensures
            writes@ == motor_writes(motor, speed, direction),
    {
        let mut scaled_up_speed: u16 = u16::from(speed) * MOTOR_TICKS_PER_SPEED;
        if scaled_up_speed > MAX_TICK {
            scaled_up_speed = MAX_TICK;
        }
        let (forward_motor_channel, reverse_motor_channel) = match motor {
            MotorPosition::M1 | MotorPosition::M2 => {
                let (reverse_motor_channel, forward_motor_channel) = motor.get_board_channels();
                (forward_motor_channel, reverse_motor_channel)
            },
            MotorPosition::M3 | MotorPosition::M4 => motor.get_board_channels(),
        };
        match direction {
            MotorDirection::Forward => ChannelWrites::Two(
                ChannelWrite { channel: forward_motor_channel, on: 0, off: scaled_up_speed },
                ChannelWrite { channel: reverse_motor_channel, on: 0, off: 0 },
            ),
            MotorDirection::Reverse => ChannelWrites::Two(
                ChannelWrite { channel: forward_motor_channel, on: 0, off: 0 },
                ChannelWrite { channel: reverse_motor_channel, on: 0, off: scaled_up_speed },
            ),
        }
    }
}

/// The board's prescale is the one for 50 Hz, and 50 cycles of 20 ms fill a
/// second.
pub proof fn lemma_prescale_gives_50_hz()
    ensures
        prescale_for(50) == board_chip_setup().prescale,
        50 * CYCLE_MICROS == 1_000_000,
{
    assert(2 * OSCILLATOR_HZ + TICKS_PER_CYCLE * 50 == 50_204_800);
    assert(2 * TICKS_PER_CYCLE * 50 == 409_600);
}

/// A remapped value stays inside the target range.
pub proof fn lemma_map_to_range_bounds(
    value: int,
    from_start: int,
    from_end: int,
    to_start: int,
    to_end: int,
)
    requires
        from_start <= value <= from_end,
        from_start < from_end,
        to_start <= to_end,
    ensures
        to_start <= map_to_range(value, from_start, from_end, to_start, to_end) <= to_end,
{
    let offset = value - from_start;
    let from_len = from_end - from_start;
    let to_len = to_end - to_start;
    assert(0 <= offset * to_len <= from_len * to_len) by (nonlinear_arith)
        requires
            0 <= offset <= from_len,
            0 <= to_len,
    ;
    assert(0 <= (offset * to_len) / from_len <= to_len) by (nonlinear_arith)
        requires
            0 <= offset * to_len <= from_len * to_len,
            0 < from_len,
    ;
}

/// Remapping never moves a larger value below a smaller one.
pub proof fn lemma_map_to_range_monotonic(
    low: int,
    high: int,
    from_start: int,
    from_end: int,
    to_start: int,
    to_end: int,
)
    requires
        low <= high,
        from_start < from_end,
        to_start <= to_end,
    ensures
        map_to_range(low, from_start, from_end, to_start, to_end) <= map_to_range(
            high,
            from_start,
            from_end,
            to_start,
            to_end,
        ),
{
    let from_len = from_end - from_start;
    let to_len = to_end - to_start;
    let a = (low - from_start) * to_len;
    let b = (high - from_start) * to_len;
    assert(a <= b) by (nonlinear_arith)
        requires
            a == (low - from_start) * to_len,
            b == (high - from_start) * to_len,
            low <= high,
            0 <= to_len,
    ;
    assert(a / from_len <= b / from_len) by (nonlinear_arith)
        requires
            a <= b,
            0 < from_len,
    ;
}

/// Turning a servo further never shortens its pulse.
pub proof fn lemma_servo_tick_monotonic(low: u16, high: u16)
    requires
        low <= high,
    ensures
        servo_off_tick(low as int) <= servo_off_tick(high as int),
{
    lemma_map_to_range_monotonic(
        min(low as int, SERVO_MAX_DEGREES as int),
        min(high as int, SERVO_MAX_DEGREES as int),
        0,
        SERVO_MAX_DEGREES as int,
        0,
        SERVO_MAX_ANGLE as int,
    );
}

/// Beyond the mechanical range every request gives the pulse of 270 degrees,
/// which ends at tick 491.
pub proof fn lemma_servo_tick_saturates(degrees: u16)
    requires
        degrees >= SERVO_MAX_DEGREES,
    ensures
        servo_off_tick(degrees as int) == servo_off_tick(SERVO_MAX_DEGREES as int),
        servo_off_tick(SERVO_MAX_DEGREES as int) == 491,
{
}

/// Every servo pulse is between 0.6 ms and 2.4 ms long and so ends between
/// ticks 122 and 491.
pub proof fn lemma_servo_pulse_range(degrees: u16)
    ensures
        600 <= servo_pulse_micros(degrees as int) <= 2400,
        122 <= servo_off_tick(degrees as int) <= 491,
{
    lemma_map_to_range_bounds(
        min(degrees as int, SERVO_MAX_DEGREES as int),
        0,
        SERVO_MAX_DEGREES as int,
        0,
        SERVO_MAX_ANGLE as int,
    );
}

/// For every speed the duty is sixteen times the speed; the cap at 4095 is
/// never reached, the largest duty being 4080.
pub proof fn lemma_motor_duty_scales(speed: u8)
    ensures
        motor_duty(speed as int) == 16 * speed,
        motor_duty(speed as int) <= 4080,
{
}

/// Running forward, sockets M1 and M2 write the channels of their pair in the
/// opposite order from sockets M3 and M4: the duty goes first to the second
/// channel of the pair on M1 and M2, and first to the first channel on M3 and
/// M4. Either way the other channel is then switched off.
pub proof fn lemma_forward_write_order(motor: MotorPosition, speed: u8)
    ensures
        ({
            let writes = motor_writes(motor, speed, MotorDirection::Forward);
            let (first, second) = board_channels(motor);
            &&& writes.len() == 2
            &&& writes[0].off == motor_duty(speed as int)
            &&& writes[1].off == 0
            &&& (motor == MotorPosition::M1 || motor == MotorPosition::M2) ==> writes[0].channel
                == second && writes[1].channel == first
            &&& (motor == MotorPosition::M3 || motor == MotorPosition::M4) ==> writes[0].channel
                == first && writes[1].channel == second
        }),
{
}

/// Reversing a motor keeps the order of the channels and swaps the duties.
pub proof fn lemma_reverse_swaps_duties(motor: MotorPosition, speed: u8)
    ensures
        ({
            let forward = motor_writes(motor, speed, MotorDirection::Forward);
            let reverse = motor_writes(motor, speed, MotorDirection::Reverse);
            &&& reverse.len() == 2
            &&& reverse[0].channel == forward[0].channel
            &&& reverse[1].channel == forward[1].channel
            &&& reverse[0].off == forward[1].off
            &&& reverse[1].off == forward[0].off
        }),
{
}

/// The chip takes every write that a motor or servo command asks for.
pub proof fn lemma_writes_within_chip_range(
    motor: MotorPosition,
    speed: u8,
    direction: MotorDirection,
    servo_pos: ServoPosition,
    degrees: u16,
)
    ensures
        motor_writes(motor, speed, direction)[0].within_chip_range(),
        motor_writes(motor, speed, direction)[1].within_chip_range(),
        servo_write(servo_pos, degrees).within_chip_range(),
{
    lemma_servo_pulse_range(degrees);
}

/// Once a write has failed, a command hands out no further write, whatever
/// is reported to it afterwards.
pub proof fn lemma_failure_ends_command(pending: Seq<ChannelWrite>, later_succeeded: bool)
    ensures
        writes_after(pending, false).len() == 0,
        writes_after(writes_after(pending, false), later_succeeded).len() == 0,
{
}

} // verus!
