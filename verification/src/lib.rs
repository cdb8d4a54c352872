//! Passive network-traffic observer core: decodes link-layer frames to their
//! destination network address, keeps only globally routable addresses,
//! deduplicates them per capture session, and drives an enrichment pipeline
//! that attaches network-ownership and geographic metadata to each address.
//!
//! Everything here is pure logic over plain values. Device capture, disk
//! persistence, and the remote lookup transport live outside the library and
//! hand their results in as arguments.
pub mod addr;
pub mod decoder;
pub mod dedup;
pub mod enrich;
pub mod permissions;
pub mod sniffer;
pub mod stats;

pub use addr::IpAddress;
pub use addr::Ipv4Address;
pub use addr::Ipv6Address;
pub use addr::is_public_ip;
pub use decoder::extract_dest_ip;
pub use dedup::SessionDedup;
pub use enrich::EnrichmentPlan;
pub use enrich::GeoUpdate;
pub use enrich::IpInfoResponse;
pub use enrich::LookupCache;
pub use enrich::LookupError;
pub use enrich::NewIpEvent;
pub use enrich::conclude_enrichment;
pub use enrich::finish_lookup;
pub use enrich::plan_enrichment;
pub use enrich::token_configured;
pub use permissions::AccessPlan;
pub use permissions::PermissionError;
pub use permissions::bpf_access_after_request;
pub use permissions::ensure_bpf_access;
pub use sniffer::Sniffer;
pub use sniffer::SnifferError;
pub use stats::AppStats;
pub use stats::CountryStats;
pub use stats::IpConnection;
