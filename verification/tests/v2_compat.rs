//! Fallible `v2` pins used through the implicit shims, and `v3` pins under
//! the `v2` wrappers.

use embedded_hal::digital::mock::FallibleInputPin;
use embedded_hal::digital::mock::FallibleOutputPin;
use embedded_hal::digital::v2;
use embedded_hal::digital::v2_compat::V2InputPin;
use embedded_hal::digital::v2_compat::V2OutputPin;
use embedded_hal::digital::v3;

struct NewOutputPinConsumer<T: v3::OutputPin> {
    _pin: T,
}

impl<T: v3::OutputPin> NewOutputPinConsumer<T> {
    pub fn new(pin: T) -> NewOutputPinConsumer<T> {
        NewOutputPinConsumer { _pin: pin }
    }
}

struct NewToggleablePinConsumer<T: v3::ToggleableOutputPin> {
    _pin: T,
}

impl<T> NewToggleablePinConsumer<T>
where
    T: v3::ToggleableOutputPin,
{
    pub fn new(pin: T) -> NewToggleablePinConsumer<T> {
        NewToggleablePinConsumer { _pin: pin }
    }
}

struct NewInputPinConsumer<T: v2::InputPin> {
    _pin: T,
}

impl<T> NewInputPinConsumer<T>
where
    T: v2::InputPin,
{
    pub fn new(pin: T) -> NewInputPinConsumer<T> {
        NewInputPinConsumer { _pin: pin }
    }
}

#[test]
fn v3_v2_toggleable_implicit() {
    let i = FallibleOutputPin { state: false, res: Ok(()) };
    let _c = NewToggleablePinConsumer::new(i);
}

#[test]
fn v2_v1_output_implicit() {
    let i = FallibleOutputPin { state: false, res: Ok(()) };
    let _c = NewOutputPinConsumer::new(i);
}

#[test]
fn v2_v1_output_state() {
    let mut o = FallibleOutputPin { state: false, res: Ok(()) };

    v2::OutputPin::set_high(&mut o).unwrap();
    assert_eq!(o.state, true);

    v2::OutputPin::set_low(&mut o).unwrap();
    assert_eq!(o.state, false);
}

#[test]
fn v2_v1_input_implicit() {
    let i = FallibleInputPin { state: Ok(false) };
    let _c = NewInputPinConsumer::new(i);
}

#[test]
fn v2_v1_input_state() {
    let mut i = FallibleInputPin { state: Ok(false) };

    assert_eq!(v2::InputPin::is_high(&mut i).unwrap(), false);
    assert_eq!(v2::InputPin::is_low(&mut i).unwrap(), true);
}

#[test]
fn fallible_output_error_reported() {
    let mut o = FallibleOutputPin { state: false, res: Err(()) };

    assert_eq!(v2::OutputPin::set_high(&mut o), Err(()));
    assert_eq!(v2::StatefulOutputPin::is_set_high(&o), Err(()));
    assert_eq!(v2::ToggleableOutputPin::toggle(&mut o), Err(()));
}

#[test]
fn fallible_input_error_reported() {
    let i = FallibleInputPin { state: Err(()) };

    assert_eq!(v2::InputPin::is_high(&i), Err(()));
    assert_eq!(v2::InputPin::is_low(&i), Err(()));
}

#[test]
fn fallible_toggle_flips_state() {
    let mut o = FallibleOutputPin { state: false, res: Ok(()) };

    assert_eq!(v2::ToggleableOutputPin::toggle(&mut o), Ok(()));
    assert_eq!(o.state, true);

    assert_eq!(v2::ToggleableOutputPin::toggle(&mut o), Ok(()));
    assert_eq!(o.state, false);
}

#[test]
fn v2_output_wrapper_forwards() {
    let mut o = V2OutputPin::new(FallibleOutputPin { state: false, res: Ok(()) });

    assert_eq!(v2::OutputPin::set_high(&mut o), Ok(()));
    assert_eq!(o.inner().state, true);
    assert_eq!(v2::StatefulOutputPin::is_set_high(&o), Ok(true));

    assert_eq!(v2::OutputPin::set_low(&mut o), Ok(()));
    assert_eq!(o.inner().state, false);
    assert_eq!(v2::StatefulOutputPin::is_set_low(&o), Ok(true));
}

#[test]
fn v2_output_wrapper_forwards_error() {
    let mut o: V2OutputPin<_> = FallibleOutputPin { state: false, res: Err(()) }.into();

    assert_eq!(v2::OutputPin::set_high(&mut o), Err(()));
    assert_eq!(v2::ToggleableOutputPin::toggle(&mut o), Err(()));
}

#[test]
fn v2_input_wrapper_forwards() {
    let i = V2InputPin::new(FallibleInputPin { state: Ok(true) });

    assert_eq!(v2::InputPin::is_high(&i), Ok(true));
    assert_eq!(v2::InputPin::is_low(&i), Ok(false));

    let e: V2InputPin<_> = FallibleInputPin { state: Err(()) }.into();
    assert_eq!(v2::InputPin::is_high(&e), Err(()));
}
