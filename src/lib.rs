//! A daily collector of next-day energy prices: validation of the pricing
//! API's response, the records written per hour, the bounded retry schedule
//! with exponential backoff, and the daily wake-up clock.

pub mod clock;
pub mod config;
pub mod fetch;
pub mod retry;
pub mod tick;
