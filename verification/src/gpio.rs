use vstd::prelude::*;
use crate::ll::{LlCall, gpio_pad};

verus! {

/// A GPIO pad driven as a push-pull output through the low-level library.
///
/// Its view is the pad number it drives.
pub struct GpioOutput {
    index: u32,
}

impl View for GpioOutput {
    type V = u32;

    closed spec fn view(&self) -> u32 {
        self.index
    }
}

/// The calls that route pad `pin` to the GPIO matrix, enable its output
/// driver and enable its pull-down, in that order.
pub open spec fn gpio_output_setup(pin: u32) -> Seq<LlCall> {
    seq![
        LlCall::GpioIomuxFuncSelGpio(pin as i32),
        LlCall::GpioOutputEnable(pin as i32),
        LlCall::GpioPulldownEn(pin as i32),
    ]
}

/// The call that drives pad `pin` to `level`.
pub open spec fn gpio_level_call(pin: u32, level: u32) -> LlCall {
    LlCall::GpioOutputSetLevel(pin as i32, level)
}

impl GpioOutput {
    /// Takes pad `pin` as an output: the handle, and the calls that must be
    /// made, in order, before it is used.
    pub fn new(pin: u32) -> (r: (GpioOutput, Vec<LlCall>))
        ensures
            r.0@ == pin,
            r.1@ == gpio_output_setup(pin),
    {
        let num = pin as i32;
        let calls = vec![
            LlCall::GpioIomuxFuncSelGpio(num),
            LlCall::GpioOutputEnable(num),
            LlCall::GpioPulldownEn(num),
        ];
        (GpioOutput { index: pin }, calls)
    }

    /// The call that drives the pad low (level 0).
    pub fn set_low(&self) -> (call: LlCall)
        ensures
            call == gpio_level_call(self@, 0),
    {
        LlCall::GpioOutputSetLevel(self.index as i32, 0)
    }

    /// The call that drives the pad high (level 1).
    pub fn set_high(&self) -> (call: LlCall)
        ensures
            call == gpio_level_call(self@, 1),
    {
        LlCall::GpioOutputSetLevel(self.index as i32, 1)
    }
}

/// Both levels are set on the pad number that the setup calls configured,
/// low as level 0 and high as level 1; for a pad number below 2^31 that
/// number is the pad itself.
pub proof fn lemma_levels_drive_the_configured_pad(pin: u32)
    ensures
        gpio_level_call(pin, 0) == LlCall::GpioOutputSetLevel(gpio_output_setup(pin)[1]->GpioOutputEnable_0, 0),
        gpio_level_call(pin, 1) == LlCall::GpioOutputSetLevel(gpio_output_setup(pin)[1]->GpioOutputEnable_0, 1),
        pin < 0x8000_0000 ==> gpio_output_setup(pin)[1]->GpioOutputEnable_0 == pin,
{
}

/// Setting up pad `pin` routes, enables and pulls down that pad and no other:
/// there are three calls, in this order, and each of them names `pin`; the
/// level calls name it too. Two different pads get different calls at every
/// position, so the setup of one pad never touches another.
pub proof fn lemma_setup_names_the_pad(pin: u32, other: u32)
    ensures
        gpio_output_setup(pin).len() == 3,
        gpio_output_setup(pin)[0] is GpioIomuxFuncSelGpio,
        gpio_output_setup(pin)[1] is GpioOutputEnable,
        gpio_output_setup(pin)[2] is GpioPulldownEn,
        forall|i: int|
            0 <= i < 3 ==> #[trigger] gpio_pad(gpio_output_setup(pin)[i]) == Some(pin as i32),
        gpio_pad(gpio_level_call(pin, 0)) == Some(pin as i32),
        gpio_pad(gpio_level_call(pin, 1)) == Some(pin as i32),
        pin != other ==> forall|i: int|
            0 <= i < 3 ==> #[trigger] gpio_pad(gpio_output_setup(pin)[i]) != gpio_pad(
                gpio_output_setup(other)[i],
            ),
        (gpio_output_setup(pin) == gpio_output_setup(other)) <==> pin == other,
{
    assert(pin != other ==> (pin as i32) != (other as i32)) by (bit_vector);
    let s = gpio_output_setup(pin);
    let t = gpio_output_setup(other);
    assert forall|i: int| 0 <= i < 3 implies #[trigger] gpio_pad(s[i]) == Some(pin as i32) by {
        if i == 0 {
        } else if i == 1 {
        } else {
        }
    }
    if pin != other {
        assert forall|i: int| 0 <= i < 3 implies #[trigger] gpio_pad(s[i]) != gpio_pad(t[i]) by {
            if i == 0 {
            } else if i == 1 {
            } else {
            }
        }
        assert(s[0] != t[0]);
    }
}

} // verus!
