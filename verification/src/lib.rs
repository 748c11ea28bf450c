//! Building blocks for interrupt-driven asynchronous code on a single core:
//! a single-slot handoff queue for resume handles, the state machine of a DMA
//! transfer that is resumed by its completion interrupt, and a ticket-ordered
//! fair share of one value among several tasks.
//!
//! Everything here is written as sequential code over exclusively borrowed
//! state. Whoever embeds it decides how that exclusivity is obtained on the
//! target; the functions say what each step does to the state and what the
//! caller has to do next.

pub mod async_spi;
pub mod executor;
pub mod fair_share;
pub mod fairness;
pub mod poll;
pub mod rtc_monotonic;
pub mod ssq;
