use vstd::prelude::*;

verus! {

/// GPIO direction modes, as bit masks over input, output and open-drain.
pub const GPIO_MODE_DEF_DISABLE: i32 = 0;

/// Bit mask for input.
pub const GPIO_MODE_DEF_INPUT: i32 = 1;

/// Bit mask for output.
pub const GPIO_MODE_DEF_OUTPUT: i32 = 2;

/// Bit mask for open-drain mode.
pub const GPIO_MODE_DEF_OD: i32 = 3;

/// Input and output disabled.
pub const GPIO_MODE_DISABLE: i32 = GPIO_MODE_DEF_DISABLE;

/// Input only.
pub const GPIO_MODE_INPUT: i32 = GPIO_MODE_DEF_INPUT;

/// Output only.
pub const GPIO_MODE_OUTPUT: i32 = GPIO_MODE_DEF_OUTPUT;

/// Output only, open-drain.
pub const GPIO_MODE_OUTPUT_OD: i32 = GPIO_MODE_DEF_OUTPUT | GPIO_MODE_DEF_OD;

/// Output and input, open-drain.
pub const GPIO_MODE_INPUT_OUTPUT_OD: i32 = GPIO_MODE_DEF_INPUT | GPIO_MODE_DEF_OUTPUT
    | GPIO_MODE_DEF_OD;

/// Output and input.
pub const GPIO_MODE_INPUT_OUTPUT: i32 = GPIO_MODE_DEF_INPUT | GPIO_MODE_DEF_OUTPUT;

/// Pad pull up.
pub const GPIO_PULLUP_ONLY: i32 = 0;

/// Pad pull down.
pub const GPIO_PULLDOWN_ONLY: i32 = 0;

/// Pad pull up and pull down.
pub const GPIO_PULLUP_PULLDOWN: i32 = 0;

/// Pad floating.
pub const GPIO_FLOATING: i32 = 0;

/// I2C source clock not selected.
pub const I2C_SCLK_DEFAULT: i32 = 0;

/// I2C source clock from APB, 80 MHz.
pub const I2C_SCLK_APB: i32 = 1;

/// I2C source clock from XTAL, 40 MHz.
pub const I2C_SCLK_XTAL: i32 = 2;

/// I2C source clock from the 8 MHz RTC clock.
pub const I2C_SCLK_RTC: i32 = 3;

/// I2C source clock from REF_TICK, 1 MHz.
pub const I2C_SCLK_REF_TICK: i32 = 4;

/// One past the last I2C source clock.
pub const I2C_SCLK_MAX: i32 = 5;

/// I2C slave mode.
pub const I2C_MODE_SLAVE: i32 = 0;

/// I2C master mode.
pub const I2C_MODE_MASTER: i32 = 1;

/// One past the last I2C mode.
pub const I2C_MODE_MAX: i32 = 2;

/// The GPIO mode masks compose as their names say: every mode that names
/// input has the input bit, every mode that names output has the output bit,
/// and the open-drain modes hold the whole open-drain mask.
pub proof fn lemma_gpio_mode_masks()
    ensures
        GPIO_MODE_INPUT & GPIO_MODE_DEF_INPUT == GPIO_MODE_DEF_INPUT,
        GPIO_MODE_INPUT_OUTPUT & GPIO_MODE_DEF_INPUT == GPIO_MODE_DEF_INPUT,
        GPIO_MODE_INPUT_OUTPUT_OD & GPIO_MODE_DEF_INPUT == GPIO_MODE_DEF_INPUT,
        GPIO_MODE_OUTPUT & GPIO_MODE_DEF_OUTPUT == GPIO_MODE_DEF_OUTPUT,
        GPIO_MODE_OUTPUT_OD & GPIO_MODE_DEF_OUTPUT == GPIO_MODE_DEF_OUTPUT,
        GPIO_MODE_INPUT_OUTPUT & GPIO_MODE_DEF_OUTPUT == GPIO_MODE_DEF_OUTPUT,
        GPIO_MODE_INPUT_OUTPUT_OD & GPIO_MODE_DEF_OUTPUT == GPIO_MODE_DEF_OUTPUT,
        GPIO_MODE_OUTPUT_OD & GPIO_MODE_DEF_OD == GPIO_MODE_DEF_OD,
        GPIO_MODE_INPUT_OUTPUT_OD & GPIO_MODE_DEF_OD == GPIO_MODE_DEF_OD,
        GPIO_MODE_DISABLE == 0,
{
    assert(2i32 | 3i32 == 3i32) by (bit_vector);
    assert(1i32 | 2i32 | 3i32 == 3i32) by (bit_vector);
    assert(1i32 | 2i32 == 3i32) by (bit_vector);
    assert(1i32 & 1i32 == 1i32) by (bit_vector);
    assert(3i32 & 1i32 == 1i32) by (bit_vector);
    assert(2i32 & 2i32 == 2i32) by (bit_vector);
    assert(3i32 & 2i32 == 2i32) by (bit_vector);
    assert(3i32 & 3i32 == 3i32) by (bit_vector);
}

/// One call into the chip's low-level C library (the IDF `ll` layer), with
/// the arguments it is made with. Drivers of this crate describe their side
/// effects as sequences of these; the firmware performs them in order.
#[derive(PartialEq, Eq, Structural, Clone, Copy, Debug)]
pub enum LlCall {
    /// `gpio_iomux_func_sel_gpio(gpio_num)`
    GpioIomuxFuncSelGpio(i32),
    /// `gpio_output_enable(gpio_num)`
    GpioOutputEnable(i32),
    /// `gpio_pulldown_en(gpio_num)`
    GpioPulldownEn(i32),
    /// `gpio_output_set_level(gpio_num, level)`
    GpioOutputSetLevel(i32, u32),
    /// `i2c_hw_enable()`
    I2cHwEnable,
    /// `i2c0_master_init()`
    I2c0MasterInit,
    /// `i2c0_set_pin(sda_io_num, scl_io_num, sda_pullup_en, scl_pullup_en, mode)`
    I2c0SetPin(i32, i32, bool, bool, i32),
    /// `i2c0_set_bus_timing(scl_freq, src_clk)`
    I2c0SetBusTiming(u32, i32),
    /// `i2c_rxfifo_rst()`
    I2cRxfifoRst,
    /// `i2c_txfifo_rst()`
    I2cTxfifoRst,
    /// `i2c_write_cmd_0_rstart()`
    I2cWriteCmd0Rstart,
    /// `i2c_write_cmd_1_write(len)`
    I2cWriteCmd1Write(i32),
    /// `i2c_write_cmd_2_stop()`
    I2cWriteCmd2Stop,
    /// `i2c_update()`
    I2cUpdate,
    /// `i2c_trans_start()`
    I2cTransStart,
}

/// The pad a GPIO call acts on, for the calls that act on a pad.
pub open spec fn gpio_pad(call: LlCall) -> Option<i32> {
    match call {
        LlCall::GpioIomuxFuncSelGpio(num) => Some(num),
        LlCall::GpioOutputEnable(num) => Some(num),
        LlCall::GpioPulldownEn(num) => Some(num),
        LlCall::GpioOutputSetLevel(num, _) => Some(num),
        _ => None,
    }
}

} // verus!
