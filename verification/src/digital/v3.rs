//! Fallible digital pin traits, with `try_` method names.
//!
//! This generation restates the `v2` traits under names that do not collide
//! with the infallible `v1` traits, so that both can be in scope at once.
//! The contracts are those of `v2`: a call returns `Ok` exactly when the
//! pin is `working`, leaves that property unchanged, and may be made
//! whenever the pin is `ready`.

use vstd::prelude::*;

verus! {

/// Single digital push-pull output pin.
pub trait OutputPin {
    /// The error reported when an operation fails.
    type Error;

    /// Whether the pin may be operated. Every operation of this trait keeps
    /// the pin ready, so a ready pin supports any sequence of calls.
    spec fn ready(&self) -> bool;

    /// Whether operations on the pin succeed. A call returns `Ok` exactly
    /// when the pin is working, and never changes this property.
    spec fn working(&self) -> bool;

    /// The level the pin is driving: `true` is high, `false` is low.
    spec fn high(&self) -> bool;

    /// Drives the pin low.
    fn try_set_low(&mut self) -> (r: Result<(), Self::Error>)
        requires
            old(self).ready(),
        ensures
            final(self).ready(),
            final(self).working() == old(self).working(),
            r is Ok <==> old(self).working(),
            r is Ok ==> !final(self).high(),
    ;

    /// Drives the pin high.
    fn try_set_high(&mut self) -> (r: Result<(), Self::Error>)
        requires
            old(self).ready(),
        ensures
            final(self).ready(),
            final(self).working() == old(self).working(),
            r is Ok <==> old(self).working(),
            r is Ok ==> final(self).high(),
    ;
}

/// Output pin that can read back the level it is set to drive.
pub trait StatefulOutputPin: OutputPin {
    /// Is the pin set to drive low?
    fn try_is_set_low(&self) -> (r: Result<bool, Self::Error>)
        requires
            self.ready(),
        ensures
            r is Ok <==> self.working(),
            (r matches Ok(b) ==> b == !self.high()),
    ;

    /// Is the pin set to drive high?
    fn try_is_set_high(&self) -> (r: Result<bool, Self::Error>)
        requires
            self.ready(),
        ensures
            r is Ok <==> self.working(),
            (r matches Ok(b) ==> b == self.high()),
    ;
}

/// Output pin that can invert its level.
///
/// The provided implementation reads the level back and drives the opposite
/// one; implementors opt in with an empty `impl`.
pub trait ToggleableOutputPin: StatefulOutputPin {
    /// Inverts the level the pin is driving.
    fn try_toggle(&mut self) -> (r: Result<(), Self::Error>)
        requires
            old(self).ready(),
        ensures
            final(self).ready(),
            final(self).working() == old(self).working(),
            r is Ok <==> old(self).working(),
            r is Ok ==> final(self).high() == !old(self).high(),
    {
        match self.try_is_set_low() {
            Ok(low) => {
                if low {
                    self.try_set_high()
                } else {
                    self.try_set_low()
                }
            },
            Err(e) => Err(e),
        }
    }
}

/// Single digital input pin.
pub trait InputPin {
    /// The error reported when a read fails.
    type Error;

    /// Whether the pin may be read.
    spec fn ready(&self) -> bool;

    /// Whether reads of the pin succeed.
    spec fn working(&self) -> bool;

    /// The level present on the pin: `true` is high, `false` is low.
    spec fn high(&self) -> bool;

    /// Is the input low?
    fn try_is_low(&self) -> (r: Result<bool, Self::Error>)
        requires
            self.ready(),
        ensures
            r is Ok <==> self.working(),
            (r matches Ok(b) ==> b == !self.high()),
    ;

    /// Is the input high?
    fn try_is_high(&self) -> (r: Result<bool, Self::Error>)
        requires
            self.ready(),
        ensures
            r is Ok <==> self.working(),
            (r matches Ok(b) ==> b == self.high()),
    ;
}

} // verus!
