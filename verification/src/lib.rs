//! Mining of vanity seeds, and the bounded store that queues them for consumers.
//!
//! A seed is 32 bytes. It is valid for a category when the chain of addresses
//! derived from it exists and its mint address shows a wanted suffix ([`rules`],
//! [`address`]). [`search`] draws random candidates until one is valid;
//! [`producer`] offers what was found to the [`store`], which keeps the seeds of
//! each category in a table of its own, up to a capacity, and hands each out once.
//! [`model`] says what the store holds as plain values and proves its laws, and
//! [`serve`] decides what a request is answered with.

pub mod address;
pub mod model;
pub mod producer;
pub mod rules;
pub mod search;
pub mod seed;
pub mod serve;
pub mod store;
