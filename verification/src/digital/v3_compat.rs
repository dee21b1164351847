//! v3 compatibility shims.
//!
//! Blanket implementations give every `v2` pin the renamed `v3`
//! interface, forwarding each call and its result unchanged. Together with
//! the `v1` to `v2` shims, this lets `v1` and `v2` implementations be used
//! directly by `v3` consumers, with level and failure behaviour preserved
//! across both hops.

use vstd::prelude::*;

use crate::digital::v1;
use crate::digital::v2;
use crate::digital::v3;

verus! {

/// `v3::OutputPin` for every `v2::OutputPin`: a plain renaming.
impl<T> v3::OutputPin for T where T: v2::OutputPin {
    type Error = <T as v2::OutputPin>::Error;

    open spec fn ready(&self) -> bool {
        v2::OutputPin::ready(self)
    }

    open spec fn working(&self) -> bool {
        v2::OutputPin::working(self)
    }

    open spec fn high(&self) -> bool {
        v2::OutputPin::high(self)
    }

    fn try_set_low(&mut self) -> (r: Result<(), Self::Error>) {
        v2::OutputPin::set_low(self)
    }

    fn try_set_high(&mut self) -> (r: Result<(), Self::Error>) {
        v2::OutputPin::set_high(self)
    }
}

/// `v3::StatefulOutputPin` for every `v2::StatefulOutputPin`.
impl<T> v3::StatefulOutputPin for T where T: v2::StatefulOutputPin {
    fn try_is_set_low(&self) -> (r: Result<bool, Self::Error>) {
        v2::StatefulOutputPin::is_set_low(self)
    }

    fn try_is_set_high(&self) -> (r: Result<bool, Self::Error>) {
        v2::StatefulOutputPin::is_set_high(self)
    }
}

/// Law: the renaming shim changes nothing an output pin's consumer can
/// observe — readiness, working and level are those of the `v2` view.
pub proof fn renamed_output_pin_same_view<T: v2::OutputPin>(pin: &T)
    ensures
        <T as v3::OutputPin>::ready(pin) == <T as v2::OutputPin>::ready(pin),
        <T as v3::OutputPin>::working(pin) == <T as v2::OutputPin>::working(pin),
        <T as v3::OutputPin>::high(pin) == <T as v2::OutputPin>::high(pin),
{
}

/// Law: the renaming shim changes nothing an input pin's consumer can
/// observe — readiness, working and level are those of the `v2` view.
pub proof fn renamed_input_pin_same_view<T: v2::InputPin>(pin: &T)
    ensures
        <T as v3::InputPin>::ready(pin) == <T as v2::InputPin>::ready(pin),
        <T as v3::InputPin>::working(pin) == <T as v2::InputPin>::working(pin),
        <T as v3::InputPin>::high(pin) == <T as v2::InputPin>::high(pin),
{
}

/// Law: carried from the infallible generation across both shims, an
/// output pin reaches `v3` consumers always working, equally ready, and
/// with its level intact.
pub proof fn round_trip_output_pin_same_view<T: v1::OutputPin>(pin: &T)
    ensures
        <T as v3::OutputPin>::working(pin),
        <T as v3::OutputPin>::ready(pin) == <T as v1::OutputPin>::ready(pin),
        <T as v3::OutputPin>::high(pin) == <T as v1::OutputPin>::high(pin),
{
}

/// Law: carried from the infallible generation across both shims, an
/// input pin reaches `v3` consumers always working, equally ready, and
/// with its level intact.
pub proof fn round_trip_input_pin_same_view<T: v1::InputPin>(pin: &T)
    ensures
        <T as v3::InputPin>::working(pin),
        <T as v3::InputPin>::ready(pin) == <T as v1::InputPin>::ready(pin),
        <T as v3::InputPin>::high(pin) == <T as v1::InputPin>::high(pin),
{
}

/// `v3::ToggleableOutputPin` for every `v2::ToggleableOutputPin`.
impl<T> v3::ToggleableOutputPin for T where T: v2::ToggleableOutputPin {
}

/// `v3::InputPin` for every `v2::InputPin`: a plain renaming.
impl<T> v3::InputPin for T where T: v2::InputPin {
    type Error = <T as v2::InputPin>::Error;

    open spec fn ready(&self) -> bool {
        v2::InputPin::ready(self)
    }

    open spec fn working(&self) -> bool {
        v2::InputPin::working(self)
    }

    open spec fn high(&self) -> bool {
        v2::InputPin::high(self)
    }

    fn try_is_low(&self) -> (r: Result<bool, Self::Error>) {
        v2::InputPin::is_low(self)
    }

    fn try_is_high(&self) -> (r: Result<bool, Self::Error>) {
        v2::InputPin::is_high(self)
    }
}

} // verus!
