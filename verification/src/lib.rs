//! A gift-registry library: users register and log in, list gift ideas meant
//! for other users, and reserve or unreserve a gift so that two givers do not
//! buy the same present.
//!
//! The heart of the crate is the entity store ([`store::Store`]) with its
//! repository operations and the gift-reservation transitions, all specified
//! and verified; the `api` module maps each operation to the HTTP status code
//! and body the server answers with, and the client-side modules hold the
//! session, route and gift-list logic of the single-page client.

use vstd::prelude::*;

pub mod api;
pub mod gift_list;
pub mod gifts;
pub mod laws;
pub mod models;
pub mod page;
pub mod pages;
pub mod route;
pub mod session;
pub mod shared;
pub mod store;
pub mod text;
