//! Coins as a node's query client sees them.
//!
//! A node answers a query for coins in the shape of [`schema`]. The client
//! works with the model of [`coins`], whose identifiers are those of
//! [`scalars`], and receives paged answers in the envelope of [`pagination`].
//! Every conversion from the first shape to the second is total, keeps each
//! field, and keeps the order of a page's entries.

pub mod coins;
pub mod pagination;
pub mod scalars;
pub mod schema;
