//! Infallible `v1` pins used through the implicit shims by `v3` consumers.

use embedded_hal::digital::mock::InfallibleInputPin;
use embedded_hal::digital::mock::InfallibleOutputPin;
use embedded_hal::digital::v1;
use embedded_hal::digital::v3;

struct NewOutputPinConsumer<T: v3::OutputPin> {
    _pin: T,
}

impl<T> NewOutputPinConsumer<T>
where
    T: v3::OutputPin,
{
    pub fn new(pin: T) -> NewOutputPinConsumer<T> {
        NewOutputPinConsumer { _pin: pin }
    }
}

struct NewToggleablePinConsumer<T: v3::ToggleableOutputPin> {
    _pin: T,
}

impl<T> NewToggleablePinConsumer<T>
where
    T: v3::ToggleableOutputPin,
{
    pub fn new(pin: T) -> NewToggleablePinConsumer<T> {
        NewToggleablePinConsumer { _pin: pin }
    }
}

struct NewInputPinConsumer<T: v3::InputPin> {
    _pin: T,
}

impl<T> NewInputPinConsumer<T>
where
    T: v3::InputPin,
{
    pub fn new(pin: T) -> NewInputPinConsumer<T> {
        NewInputPinConsumer { _pin: pin }
    }
}

#[test]
fn v3_v1_toggleable_implicit() {
    let i = InfallibleOutputPin { state: false };
    let _c = NewToggleablePinConsumer::new(i);
}

#[test]
fn v3_v1_output_implicit() {
    let i = InfallibleOutputPin { state: false };
    let _c = NewOutputPinConsumer::new(i);
}

#[test]
fn v3_v1_output_state() {
    let mut o = InfallibleOutputPin { state: false };

    v3::OutputPin::try_set_high(&mut o).unwrap();
    assert_eq!(o.state, true);

    v3::OutputPin::try_set_low(&mut o).unwrap();
    assert_eq!(o.state, false);
}

#[test]
fn v3_v1_input_implicit() {
    let i = InfallibleInputPin { state: false };
    let _c = NewInputPinConsumer::new(i);
}

#[test]
fn v3_v1_input_state() {
    let mut i = InfallibleInputPin { state: false };

    assert_eq!(v3::InputPin::try_is_high(&mut i).unwrap(), false);
    assert_eq!(v3::InputPin::try_is_low(&mut i).unwrap(), true);
}

#[test]
fn v3_v1_stateful_reads_back() {
    let mut o = InfallibleOutputPin { state: true };

    assert_eq!(v3::StatefulOutputPin::try_is_set_high(&o), Ok(true));
    assert_eq!(v3::StatefulOutputPin::try_is_set_low(&o), Ok(false));

    v3::OutputPin::try_set_low(&mut o).unwrap();
    assert_eq!(v3::StatefulOutputPin::try_is_set_high(&o), Ok(false));
}

#[test]
fn v3_v1_toggle_flips_state() {
    let mut o = InfallibleOutputPin { state: false };

    assert_eq!(v3::ToggleableOutputPin::try_toggle(&mut o), Ok(()));
    assert_eq!(o.state, true);

    assert_eq!(v3::ToggleableOutputPin::try_toggle(&mut o), Ok(()));
    assert_eq!(o.state, false);
}

#[test]
fn v1_toggle_flips_state() {
    let mut o = InfallibleOutputPin { state: false };

    v1::ToggleableOutputPin::toggle(&mut o);
    assert_eq!(o.state, true);

    v1::ToggleableOutputPin::toggle(&mut o);
    assert_eq!(o.state, false);
}

#[test]
fn v1_pin_never_fails_through_shims() {
    let mut o = InfallibleOutputPin { state: false };
    let mut i = InfallibleInputPin { state: true };

    assert_eq!(v3::OutputPin::try_set_high(&mut o), Ok(()));
    assert_eq!(v3::InputPin::try_is_high(&mut i), Ok(true));
    assert_eq!(v3::InputPin::try_is_low(&mut i), Ok(false));
}
