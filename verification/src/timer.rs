use vstd::prelude::*;

verus! {

/// A count-down timer backed by the ROM busy-wait `ets_delay_us`.
///
/// Its whole state is the delay, in microseconds, that the next wait spends.
pub struct EtsTimer {
    delay: u32,
}

impl View for EtsTimer {
    type V = u32;

    closed spec fn view(&self) -> u32 {
        self.delay
    }
}

impl EtsTimer {
    /// A timer whose waits last `delay_us` microseconds.
    pub fn new(delay_us: u32) -> (timer: Self)
        ensures
            timer@ == delay_us,
    {
        Self { delay: delay_us }
    }

    /// Starts a new count down of `count` microseconds.
    pub fn start(&mut self, count: u32)
        ensures
            final(self)@ == count,
    {
        self.delay = count;
    }

    /// The number of microseconds that one wait hands to `ets_delay_us`.
    pub fn wait(&self) -> (us: u32)
        ensures
            us == self@,
    {
        self.delay
    }
}

} // verus!
