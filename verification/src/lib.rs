//! An in-memory store of image groups, images, tag suggestions, approved
//! tags and upvotes, with the rules that keep them consistent.
//!
//! [`services`] holds the store and the register of users, [`models`] the
//! records, [`handlers`] what each kind of request does on plain values,
//! [`table`] the keyed collection under the store, and [`outside`] what is
//! taken on trust from beyond the library.

pub mod error;
pub mod handlers;
pub mod links;
pub mod models;
pub mod outside;
pub mod services;
pub mod table;
pub mod text;
