//! Where the chain node and the metadata service are reached.

use crate::program::PROGRAM_METADATA_SERVICE;
use vstd::prelude::*;
use vstd::string::StringExecFns;

verus! {

/// Where a local node listens.
pub const ENTROPY_NETWORK_ENDPOINT: &'static str = "ws://localhost:9944";

/// The two services that an aggregation talks to.
#[derive(Clone, Debug)]
pub struct PipelineConfig {
    /// The address of the chain node.
    pub chain_endpoint: String,
    /// The address of the metadata service, without a trailing slash.
    pub metadata_service_base: String,
}

impl PipelineConfig {
    /// The configuration with the given two addresses.
    pub fn new(chain_endpoint: &str, metadata_service_base: &str) -> (config: PipelineConfig)
        ensures
            config.chain_endpoint@ == chain_endpoint@,
            config.metadata_service_base@ == metadata_service_base@,
    {
        PipelineConfig {
            chain_endpoint: String::from_str(chain_endpoint),
            metadata_service_base: String::from_str(metadata_service_base),
        }
    }

    /// The configuration for a node and a metadata service on this machine.
    pub fn local() -> (config: PipelineConfig)
        ensures
            config.chain_endpoint@ == ENTROPY_NETWORK_ENDPOINT@,
            config.metadata_service_base@ == PROGRAM_METADATA_SERVICE@,
    {
        PipelineConfig::new(ENTROPY_NETWORK_ENDPOINT, PROGRAM_METADATA_SERVICE)
    }
}

} // verus!
