//! A cache coordination layer for slow, rate-limited and occasionally failing
//! remote calls, together with the client-side rules of the Govee account API
//! that is served through it.
//!
//! The cache: [`entry`] and [`store`] hold what is cached, [`freshness`]
//! judges it, [`coordinator`] decides what each request has to do and files
//! what computations return, and [`laws`] states what holds of every run.
//!
//! The client: [`args`] finds the credentials, [`client`] names the cache
//! policy and the request of each call, and [`one_click`] and [`scenes`]
//! work on what the service answers.
//!
//! All times are wall-clock instants in milliseconds since the Unix epoch and
//! all durations are milliseconds, both held in `u64`.

pub mod options;
pub mod entry;
pub mod freshness;
pub mod store;
pub mod flight;
pub mod error;
pub mod coordinator;
pub mod laws;

pub mod clock;
pub mod identity;
pub mod http;
pub mod json;
pub mod responses;
pub mod client;
pub mod args;
pub mod one_click;
pub mod scenes;
