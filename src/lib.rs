//! Building blocks of streaming technical-analysis indicators: a fixed-capacity
//! FIFO window of recent observations, the field set behind a quote builder,
//! period checks and the construction errors.

pub mod errors;
pub mod period;
pub mod quote;
pub mod window;
