pub mod airline_ws_actor;
pub mod flight;
pub mod hotel_ws_actor;
pub mod package;
pub mod receiver_actor;
pub mod reserve;
pub mod reserve_actor;
pub mod route;
pub mod stats;

use vstd::prelude::*;

verus! {

/// How many requests each airline's web service takes at once.
pub const WEBSERVICE_AIRLINE_LIMIT: usize = 10;

/// The airlines whose web services take reserves.
pub const KNOWN_AIRLINES: [&'static str; 2] = ["Aerolineas_Argentinas", "LAN"];

/// Seconds between two listings of the statistics.
pub const STATS_LOG_PERIOD_SECONDS: u64 = 5;

/// How many routes each listing shows.
pub const LISTED_ROUTES: usize = 10;

} // verus!
