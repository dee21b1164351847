//! v2 compatibility shims.
//!
//! Blanket implementations give every `v1` pin the fallible `v2`
//! interface: the underlying call cannot fail, so the shim always reports
//! success, and the `v2` view of such a pin is working unconditionally.
//! The `V2OutputPin` and `V2InputPin` wrappers go the other way round for
//! the renamed generation: they carry a `v3` pin under the `v2` names,
//! forwarding results unchanged.

use vstd::prelude::*;

use crate::digital::v1;
use crate::digital::v2;
use crate::digital::v3;

verus! {

/// Fallible `v2::OutputPin` for every infallible `v1::OutputPin`:
/// the shim always reports success.
impl<T> v2::OutputPin for T where T: v1::OutputPin {
    type Error = ();

    open spec fn ready(&self) -> bool {
        v1::OutputPin::ready(self)
    }

    open spec fn working(&self) -> bool {
        true
    }

    open spec fn high(&self) -> bool {
        v1::OutputPin::high(self)
    }

    fn set_low(&mut self) -> (r: Result<(), ()>) {
        v1::OutputPin::set_low(self);
        Ok(())
    }

    fn set_high(&mut self) -> (r: Result<(), ()>) {
        v1::OutputPin::set_high(self);
        Ok(())
    }
}

/// Fallible `v2::StatefulOutputPin` for every `v1::StatefulOutputPin`.
impl<T> v2::StatefulOutputPin for T where T: v1::StatefulOutputPin {
    fn is_set_low(&self) -> (r: Result<bool, ()>) {
        Ok(v1::StatefulOutputPin::is_set_low(self))
    }

    fn is_set_high(&self) -> (r: Result<bool, ()>) {
        Ok(v1::StatefulOutputPin::is_set_high(self))
    }
}

/// Fallible `v2::ToggleableOutputPin` for every `v1::ToggleableOutputPin`.
impl<T> v2::ToggleableOutputPin for T where T: v1::ToggleableOutputPin {
}

/// Fallible `v2::InputPin` for every infallible `v1::InputPin`:
/// the shim always reports success.
impl<T> v2::InputPin for T where T: v1::InputPin {
    type Error = ();

    open spec fn ready(&self) -> bool {
        v1::InputPin::ready(self)
    }

    open spec fn working(&self) -> bool {
        true
    }

    open spec fn high(&self) -> bool {
        v1::InputPin::high(self)
    }

    fn is_low(&self) -> (r: Result<bool, ()>) {
        Ok(v1::InputPin::is_low(self))
    }

    fn is_high(&self) -> (r: Result<bool, ()>) {
        Ok(v1::InputPin::is_high(self))
    }
}

/// Law: an infallible output pin used through the fallible interface is
/// always working, so every operation on it reports success; and it shows
/// the same readiness and the same level under both interfaces.
pub proof fn infallible_output_pin_always_working<T: v1::OutputPin>(pin: &T)
    ensures
        <T as v2::OutputPin>::working(pin),
        <T as v2::OutputPin>::ready(pin) == <T as v1::OutputPin>::ready(pin),
        <T as v2::OutputPin>::high(pin) == <T as v1::OutputPin>::high(pin),
{
}

/// Law: an infallible input pin used through the fallible interface is
/// always working, so every read of it reports success; and it shows the
/// same readiness and the same level under both interfaces.
pub proof fn infallible_input_pin_always_working<T: v1::InputPin>(pin: &T)
    ensures
        <T as v2::InputPin>::working(pin),
        <T as v2::InputPin>::ready(pin) == <T as v1::InputPin>::ready(pin),
        <T as v2::InputPin>::high(pin) == <T as v1::InputPin>::high(pin),
{
}

/// Wrapper that lets a `v3::OutputPin` serve consumers of `v2::OutputPin`.
pub struct V2OutputPin<T> {
    /// The wrapped `v3` pin.
    pub pin: T,
}

impl<T> V2OutputPin<T> where T: v3::OutputPin {
    /// Wraps a `v3::OutputPin` for use under the `v2` names.
    pub fn new(pin: T) -> (r: Self)
        ensures
            r.pin == pin,
    {
        Self { pin }
    }

    /// A reference to the wrapped `v3::OutputPin`.
    pub fn inner(&self) -> (r: &T)
        ensures
            *r == self.pin,
    {
        &self.pin
    }
}

impl<T> From<T> for V2OutputPin<T> where T: v3::OutputPin {
    fn from(pin: T) -> (r: Self)
        ensures
            r.pin == pin,
    {
        V2OutputPin { pin }
    }
}

impl<T> vstd::std_specs::convert::FromSpecImpl<T> for V2OutputPin<T> where T: v3::OutputPin {
    open spec fn obeys_from_spec() -> bool {
        true
    }

    open spec fn from_spec(pin: T) -> Self {
        (V2OutputPin { pin })
    }
}

/// `v2::OutputPin` for the wrapper: the wrapped pin's results, levels and
/// failures carry over unchanged.
impl<T> v2::OutputPin for V2OutputPin<T> where T: v3::OutputPin {
    type Error = T::Error;

    open spec fn ready(&self) -> bool {
        self.pin.ready()
    }

    open spec fn working(&self) -> bool {
        self.pin.working()
    }

    open spec fn high(&self) -> bool {
        self.pin.high()
    }

    fn set_low(&mut self) -> (r: Result<(), T::Error>) {
        self.pin.try_set_low()
    }

    fn set_high(&mut self) -> (r: Result<(), T::Error>) {
        self.pin.try_set_high()
    }
}

/// `v2::StatefulOutputPin` for the wrapper over a stateful `v3` pin.
impl<T> v2::StatefulOutputPin for V2OutputPin<T> where T: v3::StatefulOutputPin {
    fn is_set_low(&self) -> (r: Result<bool, T::Error>) {
        self.pin.try_is_set_low()
    }

    fn is_set_high(&self) -> (r: Result<bool, T::Error>) {
        self.pin.try_is_set_high()
    }
}

/// `v2::ToggleableOutputPin` for the wrapper over a toggleable `v3` pin.
impl<T> v2::ToggleableOutputPin for V2OutputPin<T> where T: v3::ToggleableOutputPin {
}

/// Law: the output wrapper is transparent — its `v2` view is exactly the
/// wrapped pin's `v3` view, levels and failures included.
pub proof fn v2_output_wrapper_view<T: v3::OutputPin>(w: &V2OutputPin<T>)
    ensures
        <V2OutputPin<T> as v2::OutputPin>::ready(w) == w.pin.ready(),
        <V2OutputPin<T> as v2::OutputPin>::working(w) == w.pin.working(),
        <V2OutputPin<T> as v2::OutputPin>::high(w) == w.pin.high(),
{
}

/// Wrapper that lets a `v3::InputPin` serve consumers of `v2::InputPin`.
pub struct V2InputPin<T> {
    /// The wrapped `v3` pin.
    pub pin: T,
}

impl<T> V2InputPin<T> where T: v3::InputPin {
    /// Wraps a `v3::InputPin` for use under the `v2` names.
    pub fn new(pin: T) -> (r: Self)
        ensures
            r.pin == pin,
    {
        Self { pin }
    }
}

impl<T> From<T> for V2InputPin<T> where T: v3::InputPin {
    fn from(pin: T) -> (r: Self)
        ensures
            r.pin == pin,
    {
        V2InputPin { pin }
    }
}

impl<T> vstd::std_specs::convert::FromSpecImpl<T> for V2InputPin<T> where T: v3::InputPin {
    open spec fn obeys_from_spec() -> bool {
        true
    }

    open spec fn from_spec(pin: T) -> Self {
        (V2InputPin { pin })
    }
}

/// `v2::InputPin` for the wrapper: reads forward to the wrapped pin.
impl<T> v2::InputPin for V2InputPin<T> where T: v3::InputPin {
    type Error = T::Error;

    open spec fn ready(&self) -> bool {
        self.pin.ready()
    }

    open spec fn working(&self) -> bool {
        self.pin.working()
    }

    open spec fn high(&self) -> bool {
        self.pin.high()
    }

    fn is_low(&self) -> (r: Result<bool, T::Error>) {
        self.pin.try_is_low()
    }

    fn is_high(&self) -> (r: Result<bool, T::Error>) {
        self.pin.try_is_high()
    }
}

/// Law: the input wrapper is transparent — its `v2` view is exactly the
/// wrapped pin's `v3` view, levels and failures included.
pub proof fn v2_input_wrapper_view<T: v3::InputPin>(w: &V2InputPin<T>)
    ensures
        <V2InputPin<T> as v2::InputPin>::ready(w) == w.pin.ready(),
        <V2InputPin<T> as v2::InputPin>::working(w) == w.pin.working(),
        <V2InputPin<T> as v2::InputPin>::high(w) == w.pin.high(),
{
}

} // verus!
