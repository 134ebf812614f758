//! Control core for a water filtration apparatus.
//!
//! The crate verifies the decision and protocol logic of the controller:
//! calendar arithmetic used for scheduling (`time`), a driver for a
//! register-addressed battery-backed clock that stores wall-clock time as
//! packed BCD (`ds1307`), a trigger/echo pulse-timing range sensor driver
//! (`sr04`), the valve actuation surface (`control`), and the operating-mode
//! state machine that turns sensed time, distance and commands into valve
//! actuation (`control`).
//!
//! Hardware access (bus transactions, digital pins, the free-running counter)
//! is reached only through the capability traits in `hal`; deterministic fake
//! implementations of those traits live there too, so the drivers and the
//! state machine can be exercised without the device.

pub mod control;
pub mod ds1307;
pub mod sr04;
pub mod hal;
pub mod time;
