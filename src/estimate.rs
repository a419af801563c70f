use crate::config::NetworkKind;
use vstd::prelude::*;

verus! {

/// What `Duration::from_secs` builds from a number of seconds.
pub uninterp spec fn secs_duration(secs: u64) -> core::time::Duration;

/// Relies on std's `Duration::from_secs`, which depends on its argument alone.
pub assume_specification[ core::time::Duration::from_secs ](secs: u64) -> (r:
    core::time::Duration)
    ensures
        r == secs_duration(secs),
;

/// Rough figures about fetching a network's weights, for progress displays.
pub struct AsyncExtractor;

/// Approximate size, in mebibytes, of each variant's weights file.
pub open spec fn weights_mib(kind: NetworkKind) -> u64 {
    match kind {
        NetworkKind::Small => 50,
        NetworkKind::Medium => 100,
        NetworkKind::Large => 200,
        NetworkKind::HybridMedium => 150,
        NetworkKind::HybridLarge => 300,
    }
}

/// Assumed download speed, in mebibytes per second.
pub const DOWNLOAD_MIB_PER_SEC: u64 = 10;

impl AsyncExtractor {
    /// Approximate size, in bytes, of the variant's weights file.
    pub fn get_model_size_estimate(network_kind: NetworkKind) -> (r: u64)
        ensures
            r == weights_mib(network_kind) * 1024 * 1024,
    {
        match network_kind {
            NetworkKind::Small => 50 * 1024 * 1024,
            NetworkKind::Medium => 100 * 1024 * 1024,
            NetworkKind::Large => 200 * 1024 * 1024,
            NetworkKind::HybridMedium => 150 * 1024 * 1024,
            NetworkKind::HybridLarge => 300 * 1024 * 1024,
        }
    }

    /// Whole seconds a download of the weights should take at the assumed speed.
    pub fn get_download_secs_estimate(network_kind: NetworkKind) -> (r: u64)
        ensures
            r == weights_mib(network_kind) / DOWNLOAD_MIB_PER_SEC,
    {
        let size_mib = Self::get_model_size_estimate(network_kind) / (1024 * 1024);
        assert(size_mib == weights_mib(network_kind)) by {
            let m = weights_mib(network_kind) as int;
            assert(m * 1024 * 1024 / 1048576int == m) by (nonlinear_arith);
        }
        size_mib / DOWNLOAD_MIB_PER_SEC
    }

    /// How long a download of the weights should take at the assumed speed.
    pub fn get_download_duration_estimate(network_kind: NetworkKind) -> (r:
        core::time::Duration)
        ensures
            r == secs_duration(weights_mib(network_kind) / DOWNLOAD_MIB_PER_SEC),
    {
        core::time::Duration::from_secs(Self::get_download_secs_estimate(network_kind))
    }
}

} // verus!
