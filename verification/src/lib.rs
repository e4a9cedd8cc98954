//! Query compilation and exclusion-set transport for a music-release search proxy.
//!
//! A request names filter pairs, two toggles, a page and, as text, the set of
//! releases to leave out. [`request::compile_request`] turns it into one boolean
//! query for the search engine, or says which parameter is malformed.
//!
//! - [`field`] tells the shape of a field identifier, and [`router`] the clauses
//!   that a pair becomes; [`clause`] holds the clauses themselves.
//! - [`compiler`] puts the routed clauses, the toggles and the exclusion set
//!   together into a query with its sort order; [`request`] does so for a whole
//!   request.
//! - [`exclusion`] holds the exclusion set and carries it as text.
//! - [`bitmap`] and [`urlsafe`] state what is assumed of the two crates that the
//!   exclusion set rests on. They are the only part that is not proved.
//! - [`config`] and [`db`] hold what the service around the compiler is set up
//!   with.

pub mod bitmap;
pub mod clause;
pub mod compiler;
pub mod config;
pub mod db;
pub mod exclusion;
pub mod field;
pub mod request;
pub mod router;
pub mod text;
pub mod urlsafe;
