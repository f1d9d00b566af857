//! Aggregation of a chain node's state for a status page: stored programs,
//! registered accounts and validators are read from raw storage entries,
//! decoded, enriched, and turned into the rows that the page shows.

pub mod aggregate;
pub mod codec;
pub mod config;
pub mod display;
pub mod enrichment;
pub mod error;
pub mod identity;
pub mod program;
pub mod registered_account;
pub mod scan;
pub mod validator;

pub use aggregate::{list_programs, list_registered_accounts, list_validators};
pub use codec::DecodeError;
pub use config::PipelineConfig;
pub use display::{display_bytes, HexVec};
pub use enrichment::{EnrichedProgram, EnrichmentPool};
pub use error::AggregationError;
pub use identity::{AccountId32, StorageKey, H256};
pub use program::{
    get_program_metadata, get_programs, LookupResponse, PackageDescriptor, Program, ProgramInfo,
    ProgramMetadata, ProgramRecord,
};
pub use registered_account::{
    get_registered_accounts, public_key_to_eth_address, CryptoError, KeyVisibility,
    RegisteredAccount, RegisteredInfo, H160,
};
pub use scan::{RawStorageEntry, ScanAction, ScanError, ScanEvent, StorageMap, StorageScan};
pub use validator::{get_validators, ServerInfo, Validator};
