use vstd::prelude::*;
use crate::regs::{RegOp, apply_op, op_target, op_value, run_ops, lemma_run_prefix};

verus! {

/// ESP32-C3 `RTC_CNTL_SWD_CONF_REG`: the super watchdog's configuration.
pub const RTC_CNTL_SWD_CONF_REG: u32 = 0x600080AC;

/// ESP32-C3 `RTC_CNTL_SWD_WPROTECT_REG`: the super watchdog's write protection.
pub const RTC_CNTL_SWD_WPROTECT_REG: u32 = 0x600080B0;

/// ESP32-C3 `RTC_CNTL_WDTCONFIG0_REG`: the RTC watchdog's configuration.
pub const RTC_CNTL_WDTCONFIG0_REG: u32 = 0x60008090;

/// ESP32-C3 `RTC_CNTL_WDTWPROTECT_REG`: the RTC watchdog's write protection.
pub const RTC_CNTL_WDTWPROTECT_REG: u32 = 0x600080A8;

/// ESP32-C3 `TIMG_WDTCONFIG0_REG` of timer group 0.
pub const TIMG0_WDTCONFIG0_REG: u32 = 0x6001F048;

/// ESP32-C3 `TIMG_WDTWPROTECT_REG` of timer group 0.
pub const TIMG0_WDTWPROTECT_REG: u32 = 0x6001F064;

/// ESP32-C3 `TIMG_WDTCONFIG0_REG` of timer group 1.
pub const TIMG1_WDTCONFIG0_REG: u32 = 0x60020048;

/// ESP32-C3 `TIMG_WDTWPROTECT_REG` of timer group 1.
pub const TIMG1_WDTWPROTECT_REG: u32 = 0x60020064;

/// The value that lifts the super watchdog's write protection.
pub const SWD_WKEY_VALUE: u32 = 0x8F1D312A;

/// The value that lifts the write protection of the other watchdogs.
pub const WDT_WKEY_VALUE: u32 = 0x50D83AA1;

/// `RTC_CNTL_SWD_AUTO_FEED_EN`: bit 31 of the super watchdog's configuration.
pub const SWD_AUTO_FEED_EN: u32 = 0x8000_0000;

/// The accesses that switch every ESP32-C3 watchdog off, in order: the super
/// watchdog is set to feed itself, and the two timer group watchdogs and the
/// RTC watchdog get an all-zero configuration; each change is made between
/// lifting and restoring its write protection.
pub open spec fn disable_wdts_ops() -> Seq<RegOp<u32>> {
    seq![
        RegOp::Write(RTC_CNTL_SWD_WPROTECT_REG, SWD_WKEY_VALUE),
        RegOp::SetBits(RTC_CNTL_SWD_CONF_REG, SWD_AUTO_FEED_EN),
        RegOp::Write(RTC_CNTL_SWD_WPROTECT_REG, 0),
        RegOp::Write(TIMG0_WDTWPROTECT_REG, WDT_WKEY_VALUE),
        RegOp::Write(TIMG0_WDTCONFIG0_REG, 0),
        RegOp::Write(TIMG0_WDTWPROTECT_REG, 0),
        RegOp::Write(TIMG1_WDTWPROTECT_REG, WDT_WKEY_VALUE),
        RegOp::Write(TIMG1_WDTCONFIG0_REG, 0),
        RegOp::Write(TIMG1_WDTWPROTECT_REG, 0),
        RegOp::Write(RTC_CNTL_WDTWPROTECT_REG, WDT_WKEY_VALUE),
        RegOp::Write(RTC_CNTL_WDTCONFIG0_REG, 0),
        RegOp::Write(RTC_CNTL_WDTWPROTECT_REG, 0),
    ]
}

/// The accesses that switch every ESP32-C3 watchdog off (see
/// `disable_wdts_ops`), to be made in order with volatile loads and stores.
pub fn disable_wdts() -> (ops: Vec<RegOp<u32>>)
    ensures
        ops@ == disable_wdts_ops(),
{
    let ops = vec![
        RegOp::Write(RTC_CNTL_SWD_WPROTECT_REG, SWD_WKEY_VALUE),
        RegOp::SetBits(RTC_CNTL_SWD_CONF_REG, SWD_AUTO_FEED_EN),
        RegOp::Write(RTC_CNTL_SWD_WPROTECT_REG, 0),
        RegOp::Write(TIMG0_WDTWPROTECT_REG, WDT_WKEY_VALUE),
        RegOp::Write(TIMG0_WDTCONFIG0_REG, 0),
        RegOp::Write(TIMG0_WDTWPROTECT_REG, 0),
        RegOp::Write(TIMG1_WDTWPROTECT_REG, WDT_WKEY_VALUE),
        RegOp::Write(TIMG1_WDTCONFIG0_REG, 0),
        RegOp::Write(TIMG1_WDTWPROTECT_REG, 0),
        RegOp::Write(RTC_CNTL_WDTWPROTECT_REG, WDT_WKEY_VALUE),
        RegOp::Write(RTC_CNTL_WDTCONFIG0_REG, 0),
        RegOp::Write(RTC_CNTL_WDTWPROTECT_REG, 0),
    ];
    assert(ops@ =~= disable_wdts_ops());
    ops
}

/// The write protection that guards an ESP32-C3 watchdog register: the
/// protection register and the value that lifts it.
pub open spec fn c3_guard(reg: u32) -> Option<(u32, u32)> {
    if reg == RTC_CNTL_SWD_CONF_REG {
        Some((RTC_CNTL_SWD_WPROTECT_REG, SWD_WKEY_VALUE))
    } else if reg == TIMG0_WDTCONFIG0_REG {
        Some((TIMG0_WDTWPROTECT_REG, WDT_WKEY_VALUE))
    } else if reg == TIMG1_WDTCONFIG0_REG {
        Some((TIMG1_WDTWPROTECT_REG, WDT_WKEY_VALUE))
    } else if reg == RTC_CNTL_WDTCONFIG0_REG {
        Some((RTC_CNTL_WDTWPROTECT_REG, WDT_WKEY_VALUE))
    } else {
        None
    }
}

/// The registers after switching the ESP32-C3 watchdogs off, from any
/// registers before: the super watchdog feeds itself (its other
/// configuration bits kept), the other three watchdog configurations are
/// zero, every write protection is back on (zero), nothing else changed.
pub open spec fn c3_wdts_disabled(before: spec_fn(u32) -> u32, reg: u32) -> u32 {
    if reg == RTC_CNTL_SWD_CONF_REG {
        before(reg) | SWD_AUTO_FEED_EN
    } else if reg == TIMG0_WDTCONFIG0_REG || reg == TIMG1_WDTCONFIG0_REG
        || reg == RTC_CNTL_WDTCONFIG0_REG {
        0
    } else if reg == RTC_CNTL_SWD_WPROTECT_REG || reg == TIMG0_WDTWPROTECT_REG
        || reg == TIMG1_WDTWPROTECT_REG || reg == RTC_CNTL_WDTWPROTECT_REG {
        0
    } else {
        before(reg)
    }
}

/// Whatever the registers held, after the accesses of `disable_wdts` each
/// register holds what `c3_wdts_disabled` says: the watchdogs are off and
/// their write protection is restored.
pub proof fn lemma_disable_wdts_effect(before: spec_fn(u32) -> u32, reg: u32)
    ensures
        run_ops(before, disable_wdts_ops())(reg) == c3_wdts_disabled(before, reg),
{
    let ops = disable_wdts_ops();
    reveal_with_fuel(run_ops, 13);
    assert(ops.drop_last().drop_last().drop_last().drop_last().drop_last().drop_last()
        .drop_last().drop_last().drop_last().drop_last().drop_last().drop_last()
        =~= Seq::<RegOp<u32>>::empty());
}

/// Every change to a guarded ESP32-C3 watchdog register is made while its
/// protection register holds the value that lifts the protection.
pub proof fn lemma_disable_wdts_unlocked(before: spec_fn(u32) -> u32, i: int)
    requires
        0 <= i < disable_wdts_ops().len(),
        c3_guard(op_target(disable_wdts_ops()[i])) is Some,
    ensures
        ({
            let (wprotect, key) = c3_guard(op_target(disable_wdts_ops()[i]))->0;
            run_ops(before, disable_wdts_ops().take(i))(wprotect) == key
        }),
{
    let ops = disable_wdts_ops();
    assert(i == 1 || i == 4 || i == 7 || i == 10);
    lemma_run_prefix(before, ops, i - 1);
    assert(ops.take(i - 1 + 1) =~= ops.take(i));
}

/// The ESP32 watchdog registers, as the peripheral access crate names them.
#[derive(PartialEq, Eq, Structural, Clone, Copy, Debug, Hash)]
pub enum Esp32WdtReg {
    /// `RTCCNTL.wdtwprotect`
    RtcWdtWprotect,
    /// `RTCCNTL.wdtconfig0`
    RtcWdtConfig0,
    /// `TIMG0.wdtwprotect`
    Timg0WdtWprotect,
    /// `TIMG0.wdtconfig0`
    Timg0WdtConfig0,
    /// `TIMG1.wdtwprotect`
    Timg1WdtWprotect,
    /// `TIMG1.wdtconfig0`
    Timg1WdtConfig0,
}

/// ESP32 `RTC_CNTL_WDT_EN`: bit 31 of `RTCCNTL.wdtconfig0`.
pub const RTC_WDT_EN: u32 = 0x8000_0000;

/// ESP32 `RTC_CNTL_WDT_STG0`: bits 28 to 30 of `RTCCNTL.wdtconfig0`.
pub const RTC_WDT_STG0: u32 = 0x7000_0000;

/// ESP32 `RTC_CNTL_WDT_STG1`: bits 25 to 27 of `RTCCNTL.wdtconfig0`.
pub const RTC_WDT_STG1: u32 = 0x0E00_0000;

/// ESP32 `RTC_CNTL_WDT_STG2`: bits 22 to 24 of `RTCCNTL.wdtconfig0`.
pub const RTC_WDT_STG2: u32 = 0x01C0_0000;

/// ESP32 `RTC_CNTL_WDT_STG3`: bits 19 to 21 of `RTCCNTL.wdtconfig0`.
pub const RTC_WDT_STG3: u32 = 0x0038_0000;

/// ESP32 `RTC_CNTL_WDT_FLASHBOOT_MOD_EN`: bit 10 of `RTCCNTL.wdtconfig0`.
pub const RTC_WDT_FLASHBOOT_MOD_EN: u32 = 0x0000_0400;

/// The fields of `RTCCNTL.wdtconfig0` that disabling the RTC watchdog sets
/// to zero: the four stage actions, flash-boot protection and the enable bit.
pub const RTC_WDT_DISABLE_MASK: u32 = RTC_WDT_EN | RTC_WDT_STG0 | RTC_WDT_STG1 | RTC_WDT_STG2
    | RTC_WDT_STG3 | RTC_WDT_FLASHBOOT_MOD_EN;

/// The accesses that switch the ESP32 RTC watchdog off: lift its write
/// protection, clear the stage, flash-boot and enable fields of its
/// configuration (other fields kept), restore the protection.
pub open spec fn disable_rtc_wdt_ops() -> Seq<RegOp<Esp32WdtReg>> {
    seq![
        RegOp::Write(Esp32WdtReg::RtcWdtWprotect, WDT_WKEY_VALUE),
        RegOp::ClearBits(Esp32WdtReg::RtcWdtConfig0, RTC_WDT_DISABLE_MASK),
        RegOp::Write(Esp32WdtReg::RtcWdtWprotect, 0),
    ]
}

/// The accesses that switch both ESP32 timer group watchdogs off: lift the
/// write protection of both, then write an all-zero configuration to both.
/// The protection is left lifted.
pub open spec fn disable_timg_wdts_ops() -> Seq<RegOp<Esp32WdtReg>> {
    seq![
        RegOp::Write(Esp32WdtReg::Timg0WdtWprotect, WDT_WKEY_VALUE),
        RegOp::Write(Esp32WdtReg::Timg1WdtWprotect, WDT_WKEY_VALUE),
        RegOp::Write(Esp32WdtReg::Timg0WdtConfig0, 0),
        RegOp::Write(Esp32WdtReg::Timg1WdtConfig0, 0),
    ]
}

/// The accesses that switch the ESP32 RTC watchdog off (see
/// `disable_rtc_wdt_ops`).
pub fn disable_rtc_wdt() -> (ops: Vec<RegOp<Esp32WdtReg>>)
    ensures
        ops@ == disable_rtc_wdt_ops(),
{
    let ops = vec![
        RegOp::Write(Esp32WdtReg::RtcWdtWprotect, WDT_WKEY_VALUE),
        RegOp::ClearBits(Esp32WdtReg::RtcWdtConfig0, RTC_WDT_DISABLE_MASK),
        RegOp::Write(Esp32WdtReg::RtcWdtWprotect, 0),
    ];
    assert(ops@ =~= disable_rtc_wdt_ops());
    ops
}

/// The accesses that switch both ESP32 timer group watchdogs off (see
/// `disable_timg_wdts_ops`).
pub fn disable_timg_wdts() -> (ops: Vec<RegOp<Esp32WdtReg>>)
    ensures
        ops@ == disable_timg_wdts_ops(),
{
    let ops = vec![
        RegOp::Write(Esp32WdtReg::Timg0WdtWprotect, WDT_WKEY_VALUE),
        RegOp::Write(Esp32WdtReg::Timg1WdtWprotect, WDT_WKEY_VALUE),
        RegOp::Write(Esp32WdtReg::Timg0WdtConfig0, 0),
        RegOp::Write(Esp32WdtReg::Timg1WdtConfig0, 0),
    ];
    assert(ops@ =~= disable_timg_wdts_ops());
    ops
}

/// The write protection that guards an ESP32 watchdog configuration.
pub open spec fn esp32_guard(reg: Esp32WdtReg) -> Option<(Esp32WdtReg, u32)> {
    match reg {
        Esp32WdtReg::RtcWdtConfig0 => Some((Esp32WdtReg::RtcWdtWprotect, WDT_WKEY_VALUE)),
        Esp32WdtReg::Timg0WdtConfig0 => Some((Esp32WdtReg::Timg0WdtWprotect, WDT_WKEY_VALUE)),
        Esp32WdtReg::Timg1WdtConfig0 => Some((Esp32WdtReg::Timg1WdtWprotect, WDT_WKEY_VALUE)),
        _ => None,
    }
}

/// After `disable_rtc_wdt`, from any registers: the RTC watchdog's
/// configuration has its stage, flash-boot and enable fields zero and every
/// other bit as before, its protection is restored (zero), and no other
/// register changed.
pub proof fn lemma_disable_rtc_wdt_effect(before: spec_fn(Esp32WdtReg) -> u32, reg: Esp32WdtReg)
    ensures
        run_ops(before, disable_rtc_wdt_ops())(reg) == (match reg {
            Esp32WdtReg::RtcWdtConfig0 => before(reg) & !RTC_WDT_DISABLE_MASK,
            Esp32WdtReg::RtcWdtWprotect => 0,
            _ => before(reg),
        }),
{
    let ops = disable_rtc_wdt_ops();
    reveal_with_fuel(run_ops, 4);
    assert(ops.drop_last().drop_last().drop_last() =~= Seq::<RegOp<Esp32WdtReg>>::empty());
}

/// Every change to a guarded ESP32 watchdog configuration made by
/// `disable_rtc_wdt` happens while its protection register holds the value
/// that lifts the protection.
pub proof fn lemma_disable_rtc_wdt_unlocked(before: spec_fn(Esp32WdtReg) -> u32, i: int)
    requires
        0 <= i < disable_rtc_wdt_ops().len(),
        esp32_guard(op_target(disable_rtc_wdt_ops()[i])) is Some,
    ensures
        ({
            let (wprotect, key) = esp32_guard(op_target(disable_rtc_wdt_ops()[i]))->0;
            run_ops(before, disable_rtc_wdt_ops().take(i))(wprotect) == key
        }),
{
    let ops = disable_rtc_wdt_ops();
    assert(i == 1);
    lemma_run_prefix(before, ops, 0);
    assert(ops.take(0) =~= Seq::<RegOp<Esp32WdtReg>>::empty());
}

/// After `disable_timg_wdts`, from any registers: both timer group watchdog
/// configurations are zero, both protections hold the unlock value, nothing
/// else changed.
pub proof fn lemma_disable_timg_wdts_effect(before: spec_fn(Esp32WdtReg) -> u32, reg: Esp32WdtReg)
    ensures
        run_ops(before, disable_timg_wdts_ops())(reg) == (match reg {
            Esp32WdtReg::Timg0WdtConfig0 => 0,
            Esp32WdtReg::Timg1WdtConfig0 => 0,
            Esp32WdtReg::Timg0WdtWprotect => WDT_WKEY_VALUE,
            Esp32WdtReg::Timg1WdtWprotect => WDT_WKEY_VALUE,
            _ => before(reg),
        }),
{
    let ops = disable_timg_wdts_ops();
    reveal_with_fuel(run_ops, 5);
    assert(ops.drop_last().drop_last().drop_last().drop_last() =~= Seq::<
        RegOp<Esp32WdtReg>,
    >::empty());
}

/// Every change to a guarded ESP32 watchdog configuration made by
/// `disable_timg_wdts` happens while its protection register holds the value
/// that lifts the protection.
pub proof fn lemma_disable_timg_wdts_unlocked(before: spec_fn(Esp32WdtReg) -> u32, i: int)
    requires
        0 <= i < disable_timg_wdts_ops().len(),
        esp32_guard(op_target(disable_timg_wdts_ops()[i])) is Some,
    ensures
        ({
            let (wprotect, key) = esp32_guard(op_target(disable_timg_wdts_ops()[i]))->0;
            run_ops(before, disable_timg_wdts_ops().take(i))(wprotect) == key
        }),
{
    let ops = disable_timg_wdts_ops();
    assert(i == 2 || i == 3);
    reveal_with_fuel(run_ops, 4);
    assert(ops.take(2).drop_last().drop_last() =~= Seq::<RegOp<Esp32WdtReg>>::empty());
    assert(ops.take(3).drop_last().drop_last().drop_last() =~= Seq::<
        RegOp<Esp32WdtReg>,
    >::empty());
}

/// Clearing the disable mask from the RTC watchdog configuration leaves each
/// of its stage, flash-boot and enable fields zero, keeps every bit outside
/// them, and a second clearing changes nothing.
pub proof fn lemma_rtc_wdt_disable_value(config: u32)
    ensures
        (config & !RTC_WDT_DISABLE_MASK) & RTC_WDT_EN == 0,
        (config & !RTC_WDT_DISABLE_MASK) & RTC_WDT_STG0 == 0,
        (config & !RTC_WDT_DISABLE_MASK) & RTC_WDT_STG1 == 0,
        (config & !RTC_WDT_DISABLE_MASK) & RTC_WDT_STG2 == 0,
        (config & !RTC_WDT_DISABLE_MASK) & RTC_WDT_STG3 == 0,
        (config & !RTC_WDT_DISABLE_MASK) & RTC_WDT_FLASHBOOT_MOD_EN == 0,
        (config & !RTC_WDT_DISABLE_MASK) & !RTC_WDT_DISABLE_MASK == config & !RTC_WDT_DISABLE_MASK,
        (config & !RTC_WDT_DISABLE_MASK) | RTC_WDT_DISABLE_MASK == config | RTC_WDT_DISABLE_MASK,
        RTC_WDT_DISABLE_MASK == 0xFFF8_0400,
{
    assert(0x8000_0000u32 | 0x7000_0000u32 | 0x0E00_0000u32 | 0x01C0_0000u32 | 0x0038_0000u32
        | 0x0000_0400u32 == 0xFFF8_0400u32) by (bit_vector);
    assert((config & !0xFFF8_0400u32) & 0x8000_0000u32 == 0) by (bit_vector);
    assert((config & !0xFFF8_0400u32) & 0x7000_0000u32 == 0) by (bit_vector);
    assert((config & !0xFFF8_0400u32) & 0x0E00_0000u32 == 0) by (bit_vector);
    assert((config & !0xFFF8_0400u32) & 0x01C0_0000u32 == 0) by (bit_vector);
    assert((config & !0xFFF8_0400u32) & 0x0038_0000u32 == 0) by (bit_vector);
    assert((config & !0xFFF8_0400u32) & 0x0000_0400u32 == 0) by (bit_vector);
    assert((config & !0xFFF8_0400u32) & !0xFFF8_0400u32 == config & !0xFFF8_0400u32)
        by (bit_vector);
    assert((config & !0xFFF8_0400u32) | 0xFFF8_0400u32 == config | 0xFFF8_0400u32)
        by (bit_vector);
}

/// The super watchdog's auto-feed bit is set after `disable_wdts`, and its
/// other configuration bits are those it had.
pub proof fn lemma_swd_auto_feed_value(config: u32)
    ensures
        (config | SWD_AUTO_FEED_EN) & SWD_AUTO_FEED_EN == SWD_AUTO_FEED_EN,
        (config | SWD_AUTO_FEED_EN) & !SWD_AUTO_FEED_EN == config & !SWD_AUTO_FEED_EN,
{
    assert((config | 0x8000_0000u32) & 0x8000_0000u32 == 0x8000_0000u32) by (bit_vector);
    assert((config | 0x8000_0000u32) & !0x8000_0000u32 == config & !0x8000_0000u32)
        by (bit_vector);
}

/// What switching the ESP32-C3 watchdogs off leaves, from any register state,
/// in terms of the chip's register addresses and unlock values: the super
/// watchdog configuration (0x600080AC) keeps its bits and gains the auto-feed
/// bit 31, the timer group 0 and 1 and RTC watchdog configurations
/// (0x6001F048, 0x60020048, 0x60008090) are zero, their write protections
/// (0x600080B0, 0x6001F064, 0x60020064, 0x600080A8) are zero again, and
/// every other register is unchanged. Each configuration is changed while its
/// protection holds its unlock value (0x8F1D312A for the super watchdog,
/// 0x50D83AA1 for the others).
pub proof fn lemma_disable_wdts_at_addresses(before: spec_fn(u32) -> u32, reg: u32)
    ensures
        run_ops(before, disable_wdts_ops())(0x600080AC) == before(0x600080AC) | 0x8000_0000,
        run_ops(before, disable_wdts_ops())(0x600080AC) & 0x8000_0000 == 0x8000_0000,
        run_ops(before, disable_wdts_ops())(0x6001F048) == 0,
        run_ops(before, disable_wdts_ops())(0x60020048) == 0,
        run_ops(before, disable_wdts_ops())(0x60008090) == 0,
        run_ops(before, disable_wdts_ops())(0x600080B0) == 0,
        run_ops(before, disable_wdts_ops())(0x6001F064) == 0,
        run_ops(before, disable_wdts_ops())(0x60020064) == 0,
        run_ops(before, disable_wdts_ops())(0x600080A8) == 0,
        reg != 0x600080AC && reg != 0x6001F048 && reg != 0x60020048 && reg != 0x60008090 && reg
            != 0x600080B0 && reg != 0x6001F064 && reg != 0x60020064 && reg != 0x600080A8
            ==> run_ops(before, disable_wdts_ops())(reg) == before(reg),
        forall|i: int|
            0 <= i < disable_wdts_ops().len() && op_target(#[trigger] disable_wdts_ops()[i])
                == 0x600080AC ==> run_ops(before, disable_wdts_ops().take(i))(0x600080B0)
                == 0x8F1D312A,
        forall|i: int|
            0 <= i < disable_wdts_ops().len() && op_target(#[trigger] disable_wdts_ops()[i])
                == 0x6001F048 ==> run_ops(before, disable_wdts_ops().take(i))(0x6001F064)
                == 0x50D83AA1,
        forall|i: int|
            0 <= i < disable_wdts_ops().len() && op_target(#[trigger] disable_wdts_ops()[i])
                == 0x60020048 ==> run_ops(before, disable_wdts_ops().take(i))(0x60020064)
                == 0x50D83AA1,
        forall|i: int|
            0 <= i < disable_wdts_ops().len() && op_target(#[trigger] disable_wdts_ops()[i])
                == 0x60008090 ==> run_ops(before, disable_wdts_ops().take(i))(0x600080A8)
                == 0x50D83AA1,
{
    lemma_disable_wdts_effect(before, 0x600080AC);
    lemma_disable_wdts_effect(before, 0x6001F048);
    lemma_disable_wdts_effect(before, 0x60020048);
    lemma_disable_wdts_effect(before, 0x60008090);
    lemma_disable_wdts_effect(before, 0x600080B0);
    lemma_disable_wdts_effect(before, 0x6001F064);
    lemma_disable_wdts_effect(before, 0x60020064);
    lemma_disable_wdts_effect(before, 0x600080A8);
    lemma_disable_wdts_effect(before, reg);
    let c = before(0x600080AC);
    assert((c | 0x8000_0000u32) & 0x8000_0000u32 == 0x8000_0000u32) by (bit_vector);
    assert forall|i: int|
        0 <= i < disable_wdts_ops().len() && c3_guard(op_target(
            #[trigger] disable_wdts_ops()[i],
        )) is Some implies ({
        let (wprotect, key) = c3_guard(op_target(disable_wdts_ops()[i]))->0;
        run_ops(before, disable_wdts_ops().take(i))(wprotect) == key
    }) by {
        lemma_disable_wdts_unlocked(before, i);
    }
}

/// What switching the ESP32 watchdogs off leaves, in terms of the register
/// fields: the RTC watchdog configuration has its enable bit (31), its four
/// stage fields (bits 19 to 30) and its flash-boot bit (10) zero, and keeps
/// every other bit; its protection is zero again; both timer group watchdog
/// configurations are zero, with their protections holding 0x50D83AA1. Each
/// configuration is changed while its protection holds 0x50D83AA1.
pub proof fn lemma_disable_esp32_wdts_fields(before: spec_fn(Esp32WdtReg) -> u32)
    ensures
        run_ops(before, disable_rtc_wdt_ops())(Esp32WdtReg::RtcWdtConfig0) == before(
            Esp32WdtReg::RtcWdtConfig0,
        ) & 0x0007_FBFF,
        run_ops(before, disable_rtc_wdt_ops())(Esp32WdtReg::RtcWdtConfig0) & 0xFFF8_0400 == 0,
        run_ops(before, disable_rtc_wdt_ops())(Esp32WdtReg::RtcWdtWprotect) == 0,
        run_ops(before, disable_rtc_wdt_ops().take(1))(Esp32WdtReg::RtcWdtWprotect)
            == 0x50D83AA1,
        disable_rtc_wdt_ops()[1] is ClearBits,
        op_target(disable_rtc_wdt_ops()[1]) == Esp32WdtReg::RtcWdtConfig0,
        run_ops(before, disable_timg_wdts_ops())(Esp32WdtReg::Timg0WdtConfig0) == 0,
        run_ops(before, disable_timg_wdts_ops())(Esp32WdtReg::Timg1WdtConfig0) == 0,
        run_ops(before, disable_timg_wdts_ops())(Esp32WdtReg::Timg0WdtWprotect) == 0x50D83AA1,
        run_ops(before, disable_timg_wdts_ops())(Esp32WdtReg::Timg1WdtWprotect) == 0x50D83AA1,
        op_target(disable_timg_wdts_ops()[2]) == Esp32WdtReg::Timg0WdtConfig0,
        op_target(disable_timg_wdts_ops()[3]) == Esp32WdtReg::Timg1WdtConfig0,
        run_ops(before, disable_timg_wdts_ops().take(2))(Esp32WdtReg::Timg0WdtWprotect)
            == 0x50D83AA1,
        run_ops(before, disable_timg_wdts_ops().take(3))(Esp32WdtReg::Timg1WdtWprotect)
            == 0x50D83AA1,
{
    lemma_disable_rtc_wdt_effect(before, Esp32WdtReg::RtcWdtConfig0);
    lemma_disable_rtc_wdt_effect(before, Esp32WdtReg::RtcWdtWprotect);
    lemma_disable_timg_wdts_effect(before, Esp32WdtReg::Timg0WdtConfig0);
    lemma_disable_timg_wdts_effect(before, Esp32WdtReg::Timg1WdtConfig0);
    lemma_disable_timg_wdts_effect(before, Esp32WdtReg::Timg0WdtWprotect);
    lemma_disable_timg_wdts_effect(before, Esp32WdtReg::Timg1WdtWprotect);
    lemma_rtc_wdt_disable_value(before(Esp32WdtReg::RtcWdtConfig0));
    let c = before(Esp32WdtReg::RtcWdtConfig0);
    assert(c & !0xFFF8_0400u32 == c & 0x0007_FBFFu32) by (bit_vector);
    assert((c & 0x0007_FBFFu32) & 0xFFF8_0400u32 == 0) by (bit_vector);
    lemma_disable_rtc_wdt_unlocked(before, 1);
    lemma_disable_timg_wdts_unlocked(before, 2);
    lemma_disable_timg_wdts_unlocked(before, 3);
}

} // verus!
