//! Warp/Oz aggregate-usage data layer: the JSON model that GraphQL replies are
//! read through, the extraction of usage figures from those replies, the
//! decisions of a cache sync, and the status report built from the cache.

pub mod json;
pub mod model;
pub mod extract;
pub mod text;
pub mod graphql;
pub mod sync;
pub mod status;
pub mod desktop;
pub mod login;
pub mod fetch;
