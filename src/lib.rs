//! Verified core of a real-time audio effects processor: the tab cursor of
//! the control surface, a bounded single-producer/single-consumer sample
//! ring, the feedback delay line built on it, and the capture/render ticks
//! of the audio driver loop.
//!
//! Samples travel through the library as the bit patterns of IEEE-754
//! single-precision values (`u32`); the all-zero pattern is silence (`+0.0`).

mod controls;
mod delay_line;
mod driver;
mod report;
mod ring;
mod tabs;

pub use controls::{Controls, Key};
pub use delay_line::{lemma_delay_is_exact, lemma_line_after, line_after, silence, tap_at, DelayLine};
pub use driver::{capture_falls_behind, capture_tick, captured, captured_times, lemma_captured_times, lemma_slow_output_falls_behind, min_nat, render_tick};
pub use report::RateLimiter;
pub use ring::{lemma_fill_then_pop, pushed, pushed_all, Full, SampleRing};
pub use tabs::TabsState;
