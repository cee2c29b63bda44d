//! The one error type every command of the board reports with.

use vstd::prelude::*;

verus! {

/// Everything that can go wrong when commanding the board.
///
/// The payload `E` is whatever the collaborator that failed reported; it is
/// carried through untouched.
#[non_exhaustive]
#[derive(Debug, Clone, Copy)]
pub enum Error<E> {
    /// The PWM peripheral rejected or aborted a pulse-train transfer.
    Pwm(E),
    /// The PWM expander chip, or the bus it sits on, reported a fault.
    Pca9685(E),
    /// A pulse train was requested while the previous one is still in flight.
    PwmIsUnbound,
    /// A pixel outside the defined positions was named.
    InvalidNeoPixelPosition,
}

} // verus!
