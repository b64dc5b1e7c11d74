//! Rate limiting for HTTP services, keyed by client.
//!
//! The library holds the verified core of a rate-limiting middleware: the
//! configuration builder, the quota that it builds on `governor`'s keyed rate
//! limiter, and the decision that is taken for every request, down to the
//! headers and the message of the answer.

pub mod config;
pub mod decimal;
pub mod decision;
pub mod duration;
pub mod limiter;

pub use config::{GovernorConfig, GovernorConfigBuilder, Method, DEFAULT_BURST_SIZE};
pub use decision::{exceeded_message, permissive_text, GovernorResult, RateLimitHeaders, Verdict, TOO_MANY_REQUESTS};
pub use duration::{default_period, Duration};
pub use limiter::LimitCheck;
