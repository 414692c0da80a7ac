//! A typed client core for the access-control entries of a storage bucket:
//! it locates resources, plans authenticated requests and unifies every
//! outcome of a round trip into one result.

pub mod client;
pub mod entity;
pub mod escape;
pub mod exchange;
pub mod locator;
pub mod model;
pub mod round_trip;
pub mod unify;
pub mod text;
