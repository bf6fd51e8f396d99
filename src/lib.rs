//! Verified core of a proxy tester: proxy records and their text form, the
//! header-based anonymity classifier, the composite quality score, the
//! per-proxy scheme/retry session and the bounded fan-out scheduler.
pub mod application;
pub mod client;
pub mod error;
pub mod header_analysis;
pub mod number;
pub mod proxy;
pub mod repository;
pub mod text;
pub mod scheduler;
pub mod scoring;
pub mod test_result;
pub mod tester;
