//! v1 compatibility wrappers.
//!
//! These wrappers let fallible `v3` pins serve consumers of the infallible
//! `v1` traits. A `v3` pin must be converted explicitly, with `new` or
//! `into`, and an error reported by the wrapped pin is an unrecoverable
//! condition: the call aborts instead of returning. The `v1` view of a
//! wrapper is therefore ready only while the wrapped pin is both ready and
//! working, which is exactly when no call can reach an error.

use vstd::prelude::*;

use crate::digital::v1;
use crate::digital::v3;

verus! {

/// Wrapper that lets a fallible `v3::OutputPin` serve consumers of
/// `v1::OutputPin`.
pub struct OldOutputPin<T> {
    /// The wrapped `v3` pin.
    pub pin: T,
}

impl<T, E> OldOutputPin<T> where T: v3::OutputPin<Error = E>, E: core::fmt::Debug {
    /// Wraps a `v3::OutputPin` for use through the `v1` traits.
    pub fn new(pin: T) -> (r: Self)
        ensures
            r.pin == pin,
    {
        Self { pin }
    }

    /// A reference to the wrapped `v3::OutputPin`.
    pub fn inner(&self) -> (r: &T)
        ensures
            *r == self.pin,
    {
        &self.pin
    }
}

impl<T, E> From<T> for OldOutputPin<T> where T: v3::OutputPin<Error = E>, E: core::fmt::Debug {
    fn from(pin: T) -> (r: Self)
        ensures
            r.pin == pin,
    {
        OldOutputPin { pin }
    }
}

impl<T, E> vstd::std_specs::convert::FromSpecImpl<T> for OldOutputPin<T> where T: v3::OutputPin<Error = E>, E: core::fmt::Debug {
    open spec fn obeys_from_spec() -> bool {
        true
    }

    open spec fn from_spec(pin: T) -> Self {
        (OldOutputPin { pin })
    }
}

/// `v1::OutputPin` for the wrapper: an error from the wrapped pin aborts
/// the call, so the wrapper is ready only while the wrapped pin is ready
/// and working.
impl<T, E> v1::OutputPin for OldOutputPin<T> where T: v3::OutputPin<Error = E>, E: core::fmt::Debug {
    open spec fn ready(&self) -> bool {
        self.pin.ready() && self.pin.working()
    }

    open spec fn high(&self) -> bool {
        self.pin.high()
    }

    fn set_low(&mut self) {
        self.pin.try_set_low().unwrap()
    }

    fn set_high(&mut self) {
        self.pin.try_set_high().unwrap()
    }
}

/// `v1::StatefulOutputPin` for the wrapper over a stateful `v3` pin.
impl<T, E> v1::StatefulOutputPin for OldOutputPin<T> where
    T: v3::StatefulOutputPin<Error = E>,
    E: core::fmt::Debug,
{
    fn is_set_low(&self) -> (r: bool) {
        self.pin.try_is_set_low().unwrap()
    }

    fn is_set_high(&self) -> (r: bool) {
        self.pin.try_is_set_high().unwrap()
    }
}

/// `v1::ToggleableOutputPin` for the wrapper over a toggleable `v3` pin.
impl<T, E> v1::ToggleableOutputPin for OldOutputPin<T> where
    T: v3::ToggleableOutputPin<Error = E>,
    E: core::fmt::Debug,
{
}

/// Law: the wrapper shows `v1` consumers the level of the wrapped pin, and
/// it may be used exactly while the wrapped pin is ready and reporting
/// success — an error from the wrapped pin aborts the call instead of
/// returning, so such states are not ready.
pub proof fn output_wrapper_view<T: v3::OutputPin<Error = E>, E: core::fmt::Debug>(
    w: &OldOutputPin<T>,
)
    ensures
        <OldOutputPin<T> as v1::OutputPin>::high(w) == w.pin.high(),
        <OldOutputPin<T> as v1::OutputPin>::ready(w) == (w.pin.ready() && w.pin.working()),
{
}

/// Wrapper that lets a fallible `v3::InputPin` serve consumers of
/// `v1::InputPin`.
pub struct OldInputPin<T> {
    /// The wrapped `v3` pin.
    pub pin: T,
}

impl<T, E> OldInputPin<T> where T: v3::InputPin<Error = E>, E: core::fmt::Debug {
    /// Wraps a `v3::InputPin` for use through the `v1` traits.
    pub fn new(pin: T) -> (r: Self)
        ensures
            r.pin == pin,
    {
        Self { pin }
    }
}

impl<T, E> From<T> for OldInputPin<T> where T: v3::InputPin<Error = E>, E: core::fmt::Debug {
    fn from(pin: T) -> (r: Self)
        ensures
            r.pin == pin,
    {
        OldInputPin { pin }
    }
}

impl<T, E> vstd::std_specs::convert::FromSpecImpl<T> for OldInputPin<T> where T: v3::InputPin<Error = E>, E: core::fmt::Debug {
    open spec fn obeys_from_spec() -> bool {
        true
    }

    open spec fn from_spec(pin: T) -> Self {
        (OldInputPin { pin })
    }
}

/// `v1::InputPin` for the wrapper: an error from the wrapped pin aborts
/// the call, so the wrapper is ready only while the wrapped pin is ready
/// and working.
impl<T, E> v1::InputPin for OldInputPin<T> where T: v3::InputPin<Error = E>, E: core::fmt::Debug {
    open spec fn ready(&self) -> bool {
        self.pin.ready() && self.pin.working()
    }

    open spec fn high(&self) -> bool {
        self.pin.high()
    }

    fn is_low(&self) -> (r: bool) {
        self.pin.try_is_low().unwrap()
    }

    fn is_high(&self) -> (r: bool) {
        self.pin.try_is_high().unwrap()
    }
}

/// Law: the input wrapper shows `v1` consumers the level of the wrapped
/// pin, and it may be read exactly while the wrapped pin is ready and
/// reporting success.
pub proof fn input_wrapper_view<T: v3::InputPin<Error = E>, E: core::fmt::Debug>(
    w: &OldInputPin<T>,
)
    ensures
        <OldInputPin<T> as v1::InputPin>::high(w) == w.pin.high(),
        <OldInputPin<T> as v1::InputPin>::ready(w) == (w.pin.ready() && w.pin.working()),
{
}

} // verus!
