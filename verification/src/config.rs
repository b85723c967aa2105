//! Process configuration values the core decides on: the exporter protocol
//! choice and the reconciliation tick interval. Loading the configuration
//! from the environment or a file happens outside this crate; the parsed
//! plain values are handed in.

use vstd::prelude::*;
use crate::strutil::str_eq;

verus! {

/// The exporter transport protocol.
#[derive(Clone, Copy, Debug, PartialEq, Eq, Structural)]
pub enum OtlpProtocol {
    HttpBinary,
    HttpJson,
    Grpc,
}

/// The process configuration, as plain values.
#[derive(Debug)]
pub struct CspyConfig {
    /// Path of the container runtime socket, when overridden.
    pub docker_socket: Option<String>,
    /// The exporter protocol.
    pub otlp_protocol: OtlpProtocol,
    /// The exporter endpoint, when overridden.
    pub otlp_endpoint: Option<String>,
    /// The metrics export interval in milliseconds, when set.
    pub otlp_export_interval: Option<u64>,
}

/// Which protocol a configuration string names, if any.
pub open spec fn spec_parse_protocol(s: Seq<char>) -> Option<OtlpProtocol> {
    if s == "httpbinary"@ {
        Some(OtlpProtocol::HttpBinary)
    } else if s == "httpjson"@ {
        Some(OtlpProtocol::HttpJson)
    } else if s == "grpc"@ {
        Some(OtlpProtocol::Grpc)
    } else {
        None
    }
}

/// Parses a protocol name: exactly `httpbinary`, `httpjson` or `grpc` is
/// accepted; anything else is rejected.
pub fn parse_protocol(s: &str) -> (r: Option<OtlpProtocol>)
    ensures
        r == spec_parse_protocol(s@),
{
    if str_eq(s, "httpbinary") {
        Some(OtlpProtocol::HttpBinary)
    } else if str_eq(s, "httpjson") {
        Some(OtlpProtocol::HttpJson)
    } else if str_eq(s, "grpc") {
        Some(OtlpProtocol::Grpc)
    } else {
        None
    }
}

/// The reconciliation tick interval in milliseconds: the export interval,
/// defaulting to six seconds when unset, halved for polling responsiveness.
pub open spec fn spec_tick_interval_ms(export_interval_ms: Option<u64>) -> u64 {
    (match export_interval_ms {
        Some(ms) => ms,
        None => 6000u64,
    } / 2) as u64
}

/// The tick interval of the reconciliation loop for a configured export
/// interval: half the export interval, half of six seconds when none is set.
pub fn tick_interval_ms(export_interval_ms: Option<u64>) -> (r: u64)
    ensures
        r == spec_tick_interval_ms(export_interval_ms),
{
    match export_interval_ms {
        Some(ms) => ms / 2,
        None => 3000,
    }
}

} // verus!
