use vstd::prelude::*;

verus! {

/// Busy-loop iterations spent per microsecond by the ROM delay stand-in.
pub const SPINS_PER_US: u32 = 100;

/// The delay routine that the low-level library calls as `esp_rom_delay_us`:
/// spins `us * 100` empty iterations and returns how many it spun.
pub fn esp_rom_delay_us(us: u32) -> (spins: u32)
    requires
        us * SPINS_PER_US <= u32::MAX,
    ensures
        spins == us * SPINS_PER_US,
{
    let n: u32 = us * SPINS_PER_US;
    let mut i: u32 = 0;
    while i < n
        invariant
            i <= n,
        decreases n - i,
    {
        i = i + 1;
    }
    i
}

/// The delay routine spins one hundred iterations per microsecond: a delay of
/// `a + b` microseconds spins as long as one of `a` and one of `b` together.
pub proof fn lemma_spins_per_microsecond(a: u32, b: u32)
    ensures
        a * SPINS_PER_US == 100 * a,
        (a + b) * SPINS_PER_US == a * SPINS_PER_US + b * SPINS_PER_US,
{
}

} // verus!
