//! Scheduling and score keeping for a school sports day: the configuration
//! of years, genders, forms and events, its expansion into a plan, the
//! statements that store a plan, the rows that hold it, and what the pages
//! around it decide.

use vstd::prelude::*;

pub mod configurator;
pub mod db;
pub mod logger;
pub mod middleware;
pub mod model;
pub mod prometheus;
pub mod routes;
pub mod utils;
pub mod websocket;

verus! {

/// The credentials of this application at the sign-in provider.
pub struct OauthCreds {
    pub client_id: String,
    pub client_secret: String,
}

} // verus!
