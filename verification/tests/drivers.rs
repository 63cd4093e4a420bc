use std::collections::HashMap;

use esp_ll::delay::esp_rom_delay_us;
use esp_ll::demo::{Board, Demo};
use esp_ll::gpio::GpioOutput;
use esp_ll::i2c::{I2c, I2cAction, WriteStage};
use esp_ll::ll::{
    LlCall, GPIO_MODE_DEF_INPUT, GPIO_MODE_DEF_OD, GPIO_MODE_DEF_OUTPUT, GPIO_MODE_INPUT_OUTPUT,
    GPIO_MODE_INPUT_OUTPUT_OD, GPIO_MODE_OUTPUT_OD, I2C_MODE_MASTER, I2C_SCLK_DEFAULT,
};
use esp_ll::regs::RegOp;
use esp_ll::timer::EtsTimer;
use esp_ll::uart::Uart;
use esp_ll::wdt::{
    disable_rtc_wdt, disable_timg_wdts, disable_wdts, Esp32WdtReg, RTC_CNTL_SWD_CONF_REG,
    RTC_CNTL_SWD_WPROTECT_REG, RTC_CNTL_WDTCONFIG0_REG, RTC_CNTL_WDTWPROTECT_REG,
    RTC_WDT_DISABLE_MASK, SWD_WKEY_VALUE, TIMG0_WDTCONFIG0_REG, TIMG0_WDTWPROTECT_REG,
    TIMG1_WDTCONFIG0_REG, TIMG1_WDTWPROTECT_REG, WDT_WKEY_VALUE,
};

/// Runs register accesses against a register file, as the firmware does with
/// volatile loads and stores.
fn run<R: Copy + Eq + std::hash::Hash>(regs: &mut HashMap<R, u32>, ops: &[RegOp<R>]) {
    for op in ops {
        let current = *regs.get(&op.target()).unwrap_or(&0);
        regs.insert(op.target(), op.value(current));
    }
}

#[test]
fn gpio_output_setup_and_levels() {
    let (led, calls) = GpioOutput::new(3);
    assert_eq!(
        calls,
        vec![
            LlCall::GpioIomuxFuncSelGpio(3),
            LlCall::GpioOutputEnable(3),
            LlCall::GpioPulldownEn(3)
        ]
    );
    assert_eq!(led.set_low(), LlCall::GpioOutputSetLevel(3, 0));
    assert_eq!(led.set_high(), LlCall::GpioOutputSetLevel(3, 1));
}

#[test]
fn gpio_pad_number_wraps_to_i32() {
    let (pad, calls) = GpioOutput::new(0x8000_0000);
    assert_eq!(calls[1], LlCall::GpioOutputEnable(i32::MIN));
    assert_eq!(pad.set_high(), LlCall::GpioOutputSetLevel(i32::MIN, 1));
}

#[test]
fn gpio_mode_masks() {
    assert_eq!(GPIO_MODE_OUTPUT_OD, 3);
    assert_eq!(GPIO_MODE_INPUT_OUTPUT_OD, 3);
    assert_eq!(GPIO_MODE_INPUT_OUTPUT, 3);
    assert_eq!(GPIO_MODE_INPUT_OUTPUT & GPIO_MODE_DEF_INPUT, GPIO_MODE_DEF_INPUT);
    assert_eq!(GPIO_MODE_INPUT_OUTPUT & GPIO_MODE_DEF_OUTPUT, GPIO_MODE_DEF_OUTPUT);
    assert_eq!(GPIO_MODE_OUTPUT_OD & GPIO_MODE_DEF_OD, GPIO_MODE_DEF_OD);
}

#[test]
fn i2c_master_setup() {
    let (_bus, calls) = I2c::new(5, 6, false, true, 190_000);
    assert_eq!(
        calls,
        vec![
            LlCall::I2cHwEnable,
            LlCall::I2c0MasterInit,
            LlCall::I2c0SetPin(5, 6, false, true, I2C_MODE_MASTER),
            LlCall::I2c0SetBusTiming(190_000, I2C_SCLK_DEFAULT),
        ]
    );
    assert_eq!(I2C_MODE_MASTER, 1);
    assert_eq!(I2C_SCLK_DEFAULT, 0);
}

#[test]
fn i2c_write_values() {
    let (bus, _) = I2c::new(5, 6, false, false, 190_000);
    let txn = bus.write(0x3C, &[0x00, 0xAF]);
    assert_eq!(txn.addr_byte, 0x78);
    assert_eq!(txn.payload_len, 2);
    assert_eq!(txn.cmd_len, 3);
    assert_eq!(txn.payload, vec![0x00, 0xAF]);
    assert_eq!(txn.stage, WriteStage::Reset);
    assert_eq!(bus.write(0x80, &[]).addr_byte, 0x00);
    assert_eq!(bus.write(0xFF, &[]).addr_byte, 0xFE);
    let long = vec![0u8; 300];
    let txn = bus.write(0x3C, &long);
    assert_eq!(txn.payload_len, 44);
    assert_eq!(txn.payload, long);
    assert_eq!(txn.cmd_len, 301);
}

/// Drives a write with the given FIFO count readings and returns every action.
fn drive(address: u8, bytes: &[u8], counts: &[i32]) -> (Vec<I2cAction>, WriteStage) {
    let (bus, _) = I2c::new(5, 6, false, false, 190_000);
    let mut txn = bus.write(address, bytes);
    let mut counts = counts.iter();
    let mut reading = None;
    let mut trace = Vec::new();
    loop {
        let actions = txn.step(reading);
        reading = None;
        if txn.is_done() {
            assert!(actions.is_empty());
            break;
        }
        for action in actions {
            if action == I2cAction::ReadTxfifoCount {
                reading = Some(*counts.next().expect("more readings than supplied"));
            }
            trace.push(action);
        }
    }
    (trace, txn.stage)
}

#[test]
fn i2c_write_trace_is_resets_baseline_program_polls() {
    let (trace, stage) = drive(0x3C, &[1, 2, 3], &[4, 5, 6, 4]);
    let mut expected = vec![
        I2cAction::Call(LlCall::I2cRxfifoRst),
        I2cAction::Call(LlCall::I2cTxfifoRst),
        I2cAction::ReadTxfifoCount,
        I2cAction::Call(LlCall::I2cWriteCmd0Rstart),
        I2cAction::WriteTxfifo(vec![0x78], 1),
        I2cAction::WriteTxfifo(vec![1, 2, 3], 3),
        I2cAction::Call(LlCall::I2cWriteCmd1Write(4)),
        I2cAction::Call(LlCall::I2cWriteCmd2Stop),
        I2cAction::Call(LlCall::I2cUpdate),
        I2cAction::Call(LlCall::I2cTransStart),
    ];
    for _ in 0..3 {
        expected.push(I2cAction::ReadTxfifoCount);
    }
    assert_eq!(trace, expected);
    assert_eq!(stage, WriteStage::Done);
}

#[test]
fn i2c_write_ends_on_first_matching_poll() {
    let (trace, stage) = drive(0x10, &[], &[9, 9]);
    assert_eq!(trace.len(), 3 + 7 + 1);
    assert_eq!(trace[4], I2cAction::WriteTxfifo(vec![0x20], 1));
    assert_eq!(trace[5], I2cAction::WriteTxfifo(vec![], 0));
    assert_eq!(trace[6], I2cAction::Call(LlCall::I2cWriteCmd1Write(1)));
    assert_eq!(stage, WriteStage::Done);
}

#[test]
fn i2c_write_waits_without_readings_and_idles_when_done() {
    let (bus, _) = I2c::new(5, 6, false, false, 190_000);
    let mut txn = bus.write(0x3C, &[7]);
    assert_eq!(txn.step(None).len(), 3);
    assert_eq!(txn.step(None), vec![I2cAction::ReadTxfifoCount]);
    assert_eq!(txn.stage, WriteStage::AwaitBaseline);
    let program = txn.step(Some(2));
    assert_eq!(program.len(), 8);
    assert_eq!(program[2], I2cAction::WriteTxfifo(vec![7], 1));
    assert_eq!(txn.stage, WriteStage::Poll(2));
    assert_eq!(txn.step(None), vec![I2cAction::ReadTxfifoCount]);
    assert_eq!(txn.step(Some(3)), vec![I2cAction::ReadTxfifoCount]);
    assert!(!txn.is_done());
    assert!(txn.step(Some(2)).is_empty());
    assert!(txn.is_done());
    assert!(txn.step(Some(5)).is_empty());
    assert!(txn.is_done());
}

#[test]
fn ets_timer_waits_what_was_started() {
    let mut timer = EtsTimer::new(5);
    assert_eq!(timer.wait(), 5);
    timer.start(9);
    assert_eq!(timer.wait(), 9);
    timer.start(0);
    assert_eq!(timer.wait(), 0);
}

#[test]
fn uart_sends_utf8_bytes_in_order() {
    let mut uart = Uart;
    assert_eq!(uart.write_str("Observe"), b"Observe".to_vec());
    assert_eq!(uart.write_str("h\u{e9}"), vec![0x68, 0xC3, 0xA9]);
    assert!(uart.write_str("").is_empty());
}

#[test]
fn rom_delay_spins_hundred_per_microsecond() {
    assert_eq!(esp_rom_delay_us(0), 0);
    assert_eq!(esp_rom_delay_us(3), 300);
    assert_eq!(esp_rom_delay_us(42_949_672), 4_294_967_200);
}

#[test]
fn esp32c3_watchdogs_off_and_locked() {
    let mut regs: HashMap<u32, u32> = HashMap::new();
    regs.insert(RTC_CNTL_SWD_CONF_REG, 0x0000_1234);
    regs.insert(TIMG0_WDTCONFIG0_REG, 0xDEAD_BEEF);
    regs.insert(TIMG1_WDTCONFIG0_REG, 0xFFFF_FFFF);
    regs.insert(RTC_CNTL_WDTCONFIG0_REG, 0x1);
    regs.insert(0x6000_0000, 77);
    let ops = disable_wdts();
    assert_eq!(ops.len(), 12);
    // each change is made right after its protection is lifted
    for (i, op) in ops.iter().enumerate() {
        let guard = match op.target() {
            RTC_CNTL_SWD_CONF_REG => Some((RTC_CNTL_SWD_WPROTECT_REG, SWD_WKEY_VALUE)),
            TIMG0_WDTCONFIG0_REG => Some((TIMG0_WDTWPROTECT_REG, WDT_WKEY_VALUE)),
            TIMG1_WDTCONFIG0_REG => Some((TIMG1_WDTWPROTECT_REG, WDT_WKEY_VALUE)),
            RTC_CNTL_WDTCONFIG0_REG => Some((RTC_CNTL_WDTWPROTECT_REG, WDT_WKEY_VALUE)),
            _ => None,
        };
        if let Some((wprotect, key)) = guard {
            let mut before = regs.clone();
            run(&mut before, &ops[..i]);
            assert_eq!(before[&wprotect], key);
        }
    }
    run(&mut regs, &ops);
    assert_eq!(regs[&RTC_CNTL_SWD_CONF_REG], 0x8000_1234);
    assert_eq!(regs[&TIMG0_WDTCONFIG0_REG], 0);
    assert_eq!(regs[&TIMG1_WDTCONFIG0_REG], 0);
    assert_eq!(regs[&RTC_CNTL_WDTCONFIG0_REG], 0);
    assert_eq!(regs[&RTC_CNTL_SWD_WPROTECT_REG], 0);
    assert_eq!(regs[&TIMG0_WDTWPROTECT_REG], 0);
    assert_eq!(regs[&TIMG1_WDTWPROTECT_REG], 0);
    assert_eq!(regs[&RTC_CNTL_WDTWPROTECT_REG], 0);
    assert_eq!(regs[&0x6000_0000], 77);
    assert_eq!(ops[0], RegOp::Write(0x600080B0, 0x8F1D312A));
    assert_eq!(ops[1], RegOp::SetBits(0x600080AC, 1 << 31));
}

#[test]
fn esp32_rtc_watchdog_fields_cleared() {
    let mut regs: HashMap<Esp32WdtReg, u32> = HashMap::new();
    regs.insert(Esp32WdtReg::RtcWdtConfig0, 0xFFFF_FFFF);
    regs.insert(Esp32WdtReg::Timg0WdtConfig0, 5);
    let ops = disable_rtc_wdt();
    assert_eq!(
        ops,
        vec![
            RegOp::Write(Esp32WdtReg::RtcWdtWprotect, 0x50D83AA1),
            RegOp::ClearBits(Esp32WdtReg::RtcWdtConfig0, 0xFFF8_0400),
            RegOp::Write(Esp32WdtReg::RtcWdtWprotect, 0),
        ]
    );
    run(&mut regs, &ops);
    assert_eq!(regs[&Esp32WdtReg::RtcWdtConfig0], 0x0007_FBFF);
    assert_eq!(regs[&Esp32WdtReg::RtcWdtWprotect], 0);
    assert_eq!(regs[&Esp32WdtReg::Timg0WdtConfig0], 5);
    assert_eq!(RTC_WDT_DISABLE_MASK, 0xFFF8_0400);
    assert_eq!(ops[1].value(0x0007_FBFF), 0x0007_FBFF);
    assert_eq!(ops[1].value(0x8000_0401), 0x0000_0001);
}

#[test]
fn esp32_timer_group_watchdogs_zeroed_and_left_unlocked() {
    let mut regs: HashMap<Esp32WdtReg, u32> = HashMap::new();
    regs.insert(Esp32WdtReg::Timg0WdtConfig0, 0x1234);
    regs.insert(Esp32WdtReg::Timg1WdtConfig0, 0x5678);
    regs.insert(Esp32WdtReg::RtcWdtConfig0, 9);
    let ops = disable_timg_wdts();
    assert_eq!(ops.len(), 4);
    run(&mut regs, &ops);
    assert_eq!(regs[&Esp32WdtReg::Timg0WdtConfig0], 0);
    assert_eq!(regs[&Esp32WdtReg::Timg1WdtConfig0], 0);
    assert_eq!(regs[&Esp32WdtReg::Timg0WdtWprotect], WDT_WKEY_VALUE);
    assert_eq!(regs[&Esp32WdtReg::Timg1WdtWprotect], WDT_WKEY_VALUE);
    assert_eq!(regs[&Esp32WdtReg::RtcWdtConfig0], 9);
}

#[test]
fn set_bits_and_clear_bits_values() {
    assert_eq!(RegOp::SetBits(0u32, 0x8000_0000).value(0x1), 0x8000_0001);
    assert_eq!(RegOp::ClearBits(0u32, 0x0F).value(0xFF), 0xF0);
    assert_eq!(RegOp::Write(0u32, 7).value(0xFF), 7);
}

#[test]
fn esp32c3_demo_blinks_out_of_step_with_greeting() {
    let mut demo = Demo::new(Board::Esp32c3);
    let first = demo.step();
    assert_eq!(first.led_high, Some(true));
    assert_eq!(first.title.text, "Hello ESP32C3");
    assert_eq!((first.title.x, first.title.y), (0, 0));
    assert_eq!(first.greeting.text, "Hola Rust!");
    assert_eq!((first.greeting.x, first.greeting.y), (0, 16));
    let second = demo.step();
    assert_eq!(second.led_high, Some(false));
    assert_eq!(second.greeting.text, "Hello Rust!");
    let third = demo.step();
    assert_eq!(third.led_high, Some(true));
    assert_eq!(third.greeting.text, "Hola Rust!");
    assert!(!demo.state);
}

#[test]
fn esp32_demo_has_no_led() {
    let mut demo = Demo::new(Board::Esp32);
    let first = demo.step();
    assert_eq!(first.led_high, None);
    assert_eq!(first.title.text, "Hello ESP32");
    assert_eq!(first.greeting.text, "Hola Rust!");
    assert_eq!(demo.step().greeting.text, "Hello Rust!");
}
