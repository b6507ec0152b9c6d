//! Verified core of the CommonOS Files client: the headers and GraphQL requests it sends,
//! the signed-in user state, and the decisions of the folder watcher that uploads new files.

pub mod encoding;
pub mod auth;
pub mod user;
pub mod gql;
pub mod paths;
pub mod token_store;
pub mod watcher;
pub mod sync;
pub mod socket;
