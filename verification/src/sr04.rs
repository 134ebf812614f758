//! Trigger/echo pulse-timing range measurement over a free-running counter
//! with a fixed tick period of 4 microseconds.
//!
//! One measurement: reset the counter, pulse the trigger line high for at
//! least 10 microseconds, then wait for the echo line to rise. If the counter
//! passes 50000 ticks (200 ms) first, there is no obstacle (or the sensor
//! faulted) and no reading is reported; the elapsed 200 ms already covers the
//! sensor's 100 ms inter-measurement quiet period. On a rise the counter is
//! reset and the echo's high phase is timed; the tick count is converted to
//! centimeters by `ticks_to_distance`. A saturated conversion is the
//! signature of a sensor holding the echo line high and is reported as no
//! reading. Before a successful return the driver blocks until the counter
//! reaches 25000 ticks (100 ms), the sensor's mandatory quiet period.

use vstd::prelude::*;

verus! {

use crate::hal::{InputPin, OutputPin, TickCounter};

/// Round-trip microseconds for a tick count: 4 microseconds per tick,
/// saturating at the largest representable value.
pub open spec fn saturated_micros(ticks: u16) -> u16 {
    if ticks * 4 > 65535 {
        65535u16
    } else {
        (ticks * 4) as u16
    }
}

/// The reading for a measured tick count: no reading when the microsecond
/// conversion saturated (a stuck-high echo line, not a distance), else the
/// round-trip microseconds divided by 58, the speed-of-sound approximation
/// for centimeters.
pub open spec fn distance_from_ticks(ticks: u16) -> Option<u16> {
    if saturated_micros(ticks) == 65535 {
        None
    } else {
        Some((saturated_micros(ticks) / 58) as u16)
    }
}

/// Convert a measured echo-high tick count to an optional distance in
/// centimeters.
pub fn ticks_to_distance(ticks: u16) -> (r: Option<u16>)
    ensures
        r == distance_from_ticks(ticks),
        r matches Some(d) ==> d < 1130,
{
    let micros: u16 = if ticks > 16383 {
        65535
    } else {
        ticks * 4
    };
    if micros == 65535 {
        None
    } else {
        Some(micros / 58)
    }
}

pub struct SR04<TIMER, PINTRIG, PINECHO> {
    timer1: TIMER,
    trig: PINTRIG,
    echo: PINECHO,
}

impl<TIMER: TickCounter, PINTRIG: OutputPin, PINECHO: InputPin> SR04<TIMER, PINTRIG, PINECHO> {
    pub fn new(timer1: TIMER, trig: PINTRIG, echo: PINECHO) -> Self {
        Self { timer1, trig, echo }
    }

    /// Run one measurement. Absence of a reading always means "treat as no
    /// signal": a timeout waiting for the echo to rise, or a stuck-high echo
    /// line; there is no error channel. Every reported distance is the
    /// conversion of some measured tick count.
    pub fn measure_distance(&mut self) -> (r: Option<u16>)
        ensures
            r matches Some(d) ==> exists|ticks: u16| distance_from_ticks(ticks) == Some(d),
            r matches Some(d) ==> d < 1130,
    {
        // each poll loop carries a guard counter so that it provably ends;
        // at 4 us per counter tick the guard can never run out before the
        // condition the loop waits for
        self.timer1.reset();

        // the trigger must be held high at least 10 us; at 4 us per tick the
        // line is released only once the counter shows 12 us or more
        self.trig.set_high();
        let mut polls: u64 = 0;
        loop
            decreases u64::MAX - polls,
        {
            if self.timer1.read_ticks() >= 3 || polls == u64::MAX {
                break ;
            }
            polls = polls + 1;
        }
        self.trig.set_low();

        let mut polls: u64 = 0;
        loop
            decreases u64::MAX - polls,
        {
            if !self.echo.is_low() {
                break ;
            }
            // give up once the counter reaches 200 ms with no rising edge;
            // 0.2 s / 4 us = 50000, which also covers the 100 ms quiet period
            if self.timer1.read_ticks() >= 50000 || polls == u64::MAX {
                return None;
            }
            polls = polls + 1;
        }
        // time the high phase from its start
        self.timer1.reset();

        // the echo's fall is trusted to eventually occur
        let mut polls: u64 = 0;
        loop
            decreases u64::MAX - polls,
        {
            if !self.echo.is_high() {
                break ;
            }
            if polls == u64::MAX {
                return None;
            }
            polls = polls + 1;
        }

        let ticks = self.timer1.read_ticks();
        let value = match ticks_to_distance(ticks) {
            None => {
                return None;
            },
            Some(v) => v,
        };

        // block out the sensor's quiet period: 0.1 s / 4 us = 25000
        let mut polls: u64 = 0;
        loop
            decreases u64::MAX - polls,
        {
            if self.timer1.read_ticks() >= 25000 || polls == u64::MAX {
                break ;
            }
            polls = polls + 1;
        }

        Some(value)
    }
}

} // verus!
