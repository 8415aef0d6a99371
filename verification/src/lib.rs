//! Request planning and response handling for the Lodestone, the official
//! web portal of Final Fantasy XIV.
//!
//! The crate decides which URL to ask for, how a reply is to be read and which
//! error each failure becomes. It performs no network access itself: a
//! [`Request`] is handed to whatever does the HTTP exchange, and the outcome of
//! each step is handed back.

pub mod builder;
pub mod error;
pub mod query;
pub mod request;
pub mod route;
pub mod scraper;

pub use crate::error::Error;
pub use crate::request::{Accepted, Page, Request, Target};
pub use crate::scraper::LodestoneScraper;
