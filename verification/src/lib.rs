//! A typing-speed practice engine.
//!
//! The library samples a fixed-size run of words from a corpus, tracks the
//! word the user is typing, classifies every submitted word as correct or
//! incorrect, and derives live metrics (words per minute, accuracy) from the
//! submitted characters and the elapsed time.  All state transitions and the
//! sampler's selection logic are verified; randomness and the monotonic clock
//! come from outside and are taken on trust through narrow wrappers.

mod clock;
pub mod engine;
pub mod metrics;
pub mod sampler;
