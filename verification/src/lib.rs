//! Connection drivers, an atomic transaction coordinator and a cache-backed
//! rate limiter, with their behaviour stated as contracts and proved.
//!
//! The library decides and keeps count. It reads nothing of the world
//! outside: the time is a parameter, and clocks, pools, servers and the
//! network are the caller's.
//! [`scope`] coordinates transactions over several backends, [`pool`] and
//! [`driver`] hand out connections, [`cache`] and [`throttle`] bound
//! attempts at logins and one-time codes. [`session`], [`http`], [`links`],
//! [`cli`], [`boiler`] and [`analyzer`] hold the values and texts of the
//! services around them.

pub mod analyzer;
pub mod boiler;
pub mod cache;
pub mod cli;
pub mod driver;
pub mod error;
pub mod http;
pub mod links;
pub mod pool;
pub mod scope;
pub mod session;
pub mod throttle;
