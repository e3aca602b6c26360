//! Blocking delays on the kernel's clock.

use vstd::prelude::*;

verus! {

/// Whole microseconds that cover `ns` nanoseconds.
pub open spec fn delay_us(ns: u32) -> u32 {
    if ns % 1000 == 0 {
        (ns / 1000) as u32
    } else {
        (ns / 1000 + 1) as u32
    }
}

/// The least number of whole microseconds that covers `ns` nanoseconds.
pub fn delay_us_for_ns(ns: u32) -> (r: u32)
    ensures
        r == delay_us(ns),
        r as int * 1000 >= ns,
        r == 0 || (r as int - 1) * 1000 < ns,
{
    let q = ns / 1000;
    if ns % 1000 == 0 {
        q
    } else {
        q + 1
    }
}


/// Delays that put the calling thread to sleep.
pub struct Delay;

impl Delay {
    /// The kernel's argument for a sleep of `ms` milliseconds: the kernel
    /// takes a signed 32-bit count, so counts above `i32::MAX` wrap.
    pub fn delay_ms(&mut self, ms: u32) -> (r: i32)
        ensures
            r == ms as i32,
    {
        ms as i32
    }

    /// The kernel's argument for a busy-wait of at least `ns` nanoseconds:
    /// the least number of whole microseconds that covers it.
    pub fn delay_ns(&mut self, ns: u32) -> (r: u32)
        ensures
            r == delay_us(ns),
            r as int * 1000 >= ns,
    {
        delay_us_for_ns(ns)
    }
}

} // verus!
