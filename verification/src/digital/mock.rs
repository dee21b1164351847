//! Pin implementations with fully known behaviour.
//!
//! These pins record their level in an ordinary field, so a consumer of any
//! trait generation can be run against them and the resulting level
//! inspected. The fallible pins additionally carry the result their
//! operations report, which makes every failure path of the shims
//! reachable.

use vstd::prelude::*;

use crate::digital::v1;
use crate::digital::v2;

verus! {

/// An output pin that stores the level it drives and reports the result it
/// was built with: it is working exactly when that result is `Ok`.
pub struct FallibleOutputPin {
    /// The level the pin is driving: `true` is high.
    pub state: bool,
    /// The result every operation reports.
    pub res: Result<(), ()>,
}

impl v2::OutputPin for FallibleOutputPin {
    type Error = ();

    open spec fn ready(&self) -> bool {
        true
    }

    open spec fn working(&self) -> bool {
        self.res is Ok
    }

    open spec fn high(&self) -> bool {
        self.state
    }

    fn set_low(&mut self) -> (r: Result<(), ()>) {
        self.state = false;
        self.res
    }

    fn set_high(&mut self) -> (r: Result<(), ()>) {
        self.state = true;
        self.res
    }
}

impl v2::StatefulOutputPin for FallibleOutputPin {
    fn is_set_low(&self) -> (r: Result<bool, ()>) {
        match self.res {
            Ok(()) => Ok(!self.state),
            Err(()) => Err(()),
        }
    }

    fn is_set_high(&self) -> (r: Result<bool, ()>) {
        match self.res {
            Ok(()) => Ok(self.state),
            Err(()) => Err(()),
        }
    }
}

impl v2::ToggleableOutputPin for FallibleOutputPin {
}

/// An input pin whose reads report a level or an error, as stored.
pub struct FallibleInputPin {
    /// The outcome of every read: a level (`true` is high) or an error.
    pub state: Result<bool, ()>,
}

impl v2::InputPin for FallibleInputPin {
    type Error = ();

    open spec fn ready(&self) -> bool {
        true
    }

    open spec fn working(&self) -> bool {
        self.state is Ok
    }

    open spec fn high(&self) -> bool {
        self.state->Ok_0
    }

    fn is_low(&self) -> (r: Result<bool, ()>) {
        match self.state {
            Ok(level) => Ok(!level),
            Err(()) => Err(()),
        }
    }

    fn is_high(&self) -> (r: Result<bool, ()>) {
        match self.state {
            Ok(level) => Ok(level),
            Err(()) => Err(()),
        }
    }
}

/// An output pin that never fails and stores the level it drives.
pub struct InfallibleOutputPin {
    /// The level the pin is driving: `true` is high.
    pub state: bool,
}

impl v1::OutputPin for InfallibleOutputPin {
    open spec fn ready(&self) -> bool {
        true
    }

    open spec fn high(&self) -> bool {
        self.state
    }

    fn set_low(&mut self) {
        self.state = false;
    }

    fn set_high(&mut self) {
        self.state = true;
    }
}

impl v1::StatefulOutputPin for InfallibleOutputPin {
    fn is_set_low(&self) -> (r: bool) {
        !self.state
    }

    fn is_set_high(&self) -> (r: bool) {
        self.state
    }
}

impl v1::ToggleableOutputPin for InfallibleOutputPin {
}

/// An input pin that never fails and reports a stored level.
pub struct InfallibleInputPin {
    /// The level present on the pin: `true` is high.
    pub state: bool,
}

impl v1::InputPin for InfallibleInputPin {
    open spec fn ready(&self) -> bool {
        true
    }

    open spec fn high(&self) -> bool {
        self.state
    }

    fn is_low(&self) -> (r: bool) {
        !self.state
    }

    fn is_high(&self) -> (r: bool) {
        self.state
    }
}

} // verus!
