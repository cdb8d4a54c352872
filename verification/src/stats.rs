//! The records and aggregates the store and the presentation layer
//! exchange, as plain values.
use vstd::prelude::*;

verus! {

/// One persisted record: an address, its cumulative hit count, when it was
/// first and last seen, and the enrichment attributes once resolved.
#[derive(Debug)]
pub struct IpConnection {
    pub ip: String,
    pub asn: Option<String>,
    pub as_name: Option<String>,
    pub as_domain: Option<String>,
    pub country_code: Option<String>,
    pub country: Option<String>,
    pub continent_code: Option<String>,
    pub continent: Option<String>,
    pub hit_count: u64,
    pub first_seen: String,
    pub last_seen: String,
}

/// Aggregated hits and distinct addresses for one country.
#[derive(Debug)]
pub struct CountryStats {
    pub country_code: String,
    pub country: String,
    pub hit_count: u64,
    pub unique_ips: u64,
}

/// The overall counters shown by the presentation layer.
#[derive(Debug)]
pub struct AppStats {
    pub total_ips: u64,
    pub total_hits: u64,
    pub total_countries: u64,
    pub uptime_seconds: u64,
    pub is_running: bool,
}

impl AppStats {
    /// Assembles the counters from the store's totals, the process uptime
    /// and the capture state.
    pub fn new(
        total_ips: u64,
        total_hits: u64,
        total_countries: u64,
        uptime_seconds: u64,
        is_running: bool,
    ) -> (r: AppStats)
        ensures
            r.total_ips == total_ips,
            r.total_hits == total_hits,
            r.total_countries == total_countries,
            r.uptime_seconds == uptime_seconds,
            r.is_running == is_running,
    {
        AppStats { total_ips, total_hits, total_countries, uptime_seconds, is_running }
    }
}

} // verus!
