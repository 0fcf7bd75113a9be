//! A rate limiter using a fixed window counter for arbitrary keys, backed by
//! Redis, and the request handling of a reverse proxy that enforces it.
//!
//! # About
//!
//! The gateway sits in front of a backend HTTP service. Every request is
//! keyed on the value of one header. The key is counted in a store that all
//! instances of the gateway share; the first `limit` requests of a key within
//! a period are passed on to the backend, every further one is turned away
//! until the period has elapsed.
//!
//! The crate holds the decisions of that gateway and proves what it states
//! of them. Whoever embeds it does the waiting: the round trip to the store
//! and the exchange with the backend.
//!
//! - [`store`] builds the transaction that counts one observation of a key.
//! - [`commands`] states what the store does with each command of that
//!   transaction, and [`window`] what the transaction comes to as one step
//!   and what follows for callers within one window and across windows.
//! - [`limiter`] holds limit and period and decides on the store's reply;
//!   [`status`] is the snapshot that it reports, [`clock`] the time at which
//!   the window ends.
//! - [`middleware`] takes up each request: it reads the key, asks for the
//!   count, and settles the request.
//! - [`proxy`] prepares the request for the backend and the response for the
//!   caller; [`headers`] says what the header maps of both hold.
//! - [`gateway`] states what holds of all of these together.
//! - [`config`] and [`period`] read the settings of the service.
//!
//! # Usage
//!
//! ```no_run
//! use limitation::middleware::{RateLimiter, Step};
//! use limitation::Limiter;
//!
//! let mut builder = Limiter::build("redis://127.0.0.1/");
//! builder.limit(5).period(10);
//! let limiter = builder.finish().unwrap();
//! let rate_limiter = RateLimiter::new(limiter, "authorization").unwrap();
//! let service = rate_limiter.new_transform();
//!
//! # let headers = actix_web::http::HeaderMap::new();
//! # let mut connection = rate_limiter.limiter().client().get_connection().unwrap();
//! let outcome = match service.call(&headers) {
//!     Step::Finish(outcome) => outcome,
//!     Step::Count { transaction, .. } => service.resolve(transaction.query(&mut connection)),
//! };
//! if outcome.forwards() {
//!     // pass the request on, then `outcome.decorate` the headers of the response
//! }
//! ```

pub mod clock;
pub mod commands;
pub mod config;
pub mod decimal;
pub mod gateway;
pub mod headers;
pub mod limiter;
pub mod middleware;
pub mod period;
pub mod proxy;
pub mod status;
pub mod store;
pub mod window;

pub use crate::limiter::{Builder, Error, Limiter};
pub use crate::middleware::{RateLimiter, RateLimiterMiddleware};
pub use crate::status::Status;
