//! Infallible digital pin traits.
//!
//! Operations in this generation cannot report an error: a call either
//! completes and leaves the pin in the stated level, or it may not be made
//! at all. Each trait therefore carries a `ready` predicate saying when its
//! operations may be invoked; a pin that is natively infallible is always
//! ready, while an adapter over a fallible pin is ready only while the
//! wrapped pin is reporting success.

use vstd::prelude::*;

verus! {

/// Single digital push-pull output pin.
pub trait OutputPin {
    /// Whether the pin may be operated. Every operation of this trait keeps
    /// the pin ready, so a ready pin supports any sequence of calls.
    spec fn ready(&self) -> bool;

    /// The level the pin is driving: `true` is high, `false` is low.
    spec fn high(&self) -> bool;

    /// Drives the pin low.
    fn set_low(&mut self)
        requires
            old(self).ready(),
        ensures
            final(self).ready(),
            !final(self).high(),
    ;

    /// Drives the pin high.
    fn set_high(&mut self)
        requires
            old(self).ready(),
        ensures
            final(self).ready(),
            final(self).high(),
    ;
}

/// Output pin that can read back the level it is set to drive.
pub trait StatefulOutputPin: OutputPin {
    /// Is the pin set to drive low?
    fn is_set_low(&self) -> (r: bool)
        requires
            self.ready(),
        ensures
            r == !self.high(),
    ;

    /// Is the pin set to drive high?
    fn is_set_high(&self) -> (r: bool)
        requires
            self.ready(),
        ensures
            r == self.high(),
    ;
}

/// Output pin that can invert its level.
///
/// The provided implementation reads the level back and drives the opposite
/// one; implementors opt in with an empty `impl`.
pub trait ToggleableOutputPin: StatefulOutputPin {
    /// Inverts the level the pin is driving.
    fn toggle(&mut self)
        requires
            old(self).ready(),
        ensures
            final(self).ready(),
            final(self).high() == !old(self).high(),
    {
        if self.is_set_low() {
            self.set_high()
        } else {
            self.set_low()
        }
    }
}

/// Single digital input pin.
pub trait InputPin {
    /// Whether the pin may be read.
    spec fn ready(&self) -> bool;

    /// The level present on the pin: `true` is high, `false` is low.
    spec fn high(&self) -> bool;

    /// Is the input low?
    fn is_low(&self) -> (r: bool)
        requires
            self.ready(),
        ensures
            r == !self.high(),
    ;

    /// Is the input high?
    fn is_high(&self) -> (r: bool)
        requires
            self.ready(),
        ensures
            r == self.high(),
    ;
}

} // verus!
