//! From a scan to the rows of the page: what a scan that has ended gives
//! for each kind of entity, and the error in place of the rows where the
//! scan or the decoding failed.

use crate::codec::DecodeError;
use crate::error::AggregationError;
use crate::program::{get_programs, spec_program_entry, ProgramInfoView, ProgramRecord};
use crate::registered_account::{
    get_registered_accounts, is_account_entry_row, spec_registered_info, RegisteredAccount,
    RegisteredInfoView,
};
use crate::scan::{RawStorageEntry, ScanError, ScanPhase, ScanView, StorageScan};
use crate::validator::{get_validators, spec_validator_entry, Validator, ValidatorView};
use vstd::prelude::*;

verus! {

/// The error with which a scan in the given state ends, if it ends with one:
/// its own where it has failed, and that it was not finished where it was
/// still under way.
pub open spec fn scan_failure(state: ScanView) -> Option<ScanError> {
    match state.phase {
        ScanPhase::Finished => None,
        ScanPhase::Failed(error) => Some(error),
        _ => Some(ScanError::Unfinished),
    }
}

/// The entries of a scan that has ended, or the error with which it ended.
pub fn scanned_entries(scan: StorageScan) -> (r: Result<Vec<RawStorageEntry>, AggregationError>)
    ensures
        match r {
            Ok(entries) => scan_failure(scan@) is None && entries@.map_values(
                |e: RawStorageEntry| e@,
            ) == scan@.entries,
            Err(error) => scan_failure(scan@) matches Some(e) && error == AggregationError::Scan(
                e,
            ),
        },
{
    match scan.finish() {
        Ok(entries) => Ok(entries),
        Err(error) => Err(AggregationError::Scan(error)),
    }
}

/// The stored programs that a scan of the program map has read, in the
/// order of its entries. A scan that did not finish gives its error, and a
/// finished one with an entry that cannot be decoded the error of the first
/// such entry.
pub fn list_programs(scan: StorageScan) -> (r: Result<Vec<ProgramRecord>, AggregationError>)
    ensures
        match r {
            Ok(programs) => scan_failure(scan@) is None && programs@.len()
                == scan@.entries.len() && forall|i: int|
                0 <= i < scan@.entries.len() ==> spec_program_entry(#[trigger] scan@.entries[i])
                    == Ok::<_, DecodeError>(programs@[i]@),
            Err(AggregationError::Scan(e)) => scan_failure(scan@) == Some(e),
            Err(AggregationError::Decode(e)) => scan_failure(scan@) is None && exists|i: int|
                0 <= i < scan@.entries.len() && spec_program_entry(#[trigger] scan@.entries[i])
                    == Err::<(Seq<u8>, ProgramInfoView), _>(e) && forall|j: int|
                    0 <= j < i ==> spec_program_entry(#[trigger] scan@.entries[j]) is Ok,
            Err(AggregationError::Connection) => false,
        },
{
    let entries = match scanned_entries(scan) {
        Ok(entries) => entries,
        Err(error) => {
            return Err(error);
        },
    };
    proof {
        assert forall|i: int| 0 <= i < entries@.len() implies #[trigger] entries@[i]@
            == scan@.entries[i] by {
            assert(entries@.map_values(|e: RawStorageEntry| e@)[i] == entries@[i]@);
        }
    }
    match get_programs(&entries) {
        Ok(programs) => Ok(programs),
        Err(error) => Err(AggregationError::Decode(error)),
    }
}

/// The rows of the registered accounts that a scan of the account map has
/// read, in the order of its entries. A scan that did not finish gives its
/// error, and a finished one with an entry that cannot be decoded the error
/// of the first such entry.
pub fn list_registered_accounts(scan: StorageScan) -> (r: Result<
    Vec<RegisteredAccount>,
    AggregationError,
>)
    ensures
        match r {
            Ok(accounts) => scan_failure(scan@) is None && accounts@.len()
                == scan@.entries.len() && forall|i: int|
                0 <= i < scan@.entries.len() ==> is_account_entry_row(
                    #[trigger] accounts@[i],
                    scan@.entries[i],
                ),
            Err(AggregationError::Scan(e)) => scan_failure(scan@) == Some(e),
            Err(AggregationError::Decode(e)) => scan_failure(scan@) is None && exists|i: int|
                0 <= i < scan@.entries.len() && spec_registered_info(
                    (#[trigger] scan@.entries[i]).1,
                ) == Err::<RegisteredInfoView, _>(e) && forall|j: int|
                    0 <= j < i ==> spec_registered_info((#[trigger] scan@.entries[j]).1) is Ok,
            Err(AggregationError::Connection) => false,
        },
{
    let entries = match scanned_entries(scan) {
        Ok(entries) => entries,
        Err(error) => {
            return Err(error);
        },
    };
    proof {
        assert forall|i: int| 0 <= i < entries@.len() implies #[trigger] entries@[i]@
            == scan@.entries[i] by {
            assert(entries@.map_values(|e: RawStorageEntry| e@)[i] == entries@[i]@);
        }
    }
    match get_registered_accounts(&entries) {
        Ok(accounts) => Ok(accounts),
        Err(error) => {
            proof {
                let i = choose|i: int|
                    0 <= i < entries@.len() && spec_registered_info(#[trigger] entries@[i]@.1)
                        == Err::<RegisteredInfoView, _>(error) && forall|j: int|
                        0 <= j < i ==> spec_registered_info(#[trigger] entries@[j]@.1) is Ok;
                assert(spec_registered_info(scan@.entries[i].1) == Err::<RegisteredInfoView, _>(
                    error,
                ));
                assert forall|j: int| 0 <= j < i implies spec_registered_info(
                    (#[trigger] scan@.entries[j]).1,
                ) is Ok by {
                    assert(spec_registered_info(entries@[j]@.1) is Ok);
                }
            }
            Err(AggregationError::Decode(error))
        },
    }
}

/// The rows of the validators that a scan of the validator map has read, in
/// the order of its entries. A scan that did not finish gives its error, and
/// a finished one with an entry that cannot be decoded the error of the
/// first such entry.
pub fn list_validators(scan: StorageScan) -> (r: Result<Vec<Validator>, AggregationError>)
    ensures
        match r {
            Ok(validators) => scan_failure(scan@) is None && validators@.len()
                == scan@.entries.len() && forall|i: int|
                0 <= i < scan@.entries.len() ==> spec_validator_entry(
                    (#[trigger] scan@.entries[i]).1,
                ) == Ok::<_, DecodeError>(validators@[i]@),
            Err(AggregationError::Scan(e)) => scan_failure(scan@) == Some(e),
            Err(AggregationError::Decode(e)) => scan_failure(scan@) is None && exists|i: int|
                0 <= i < scan@.entries.len() && spec_validator_entry(
                    (#[trigger] scan@.entries[i]).1,
                ) == Err::<ValidatorView, _>(e) && forall|j: int|
                    0 <= j < i ==> spec_validator_entry((#[trigger] scan@.entries[j]).1) is Ok,
            Err(AggregationError::Connection) => false,
        },
{
    let entries = match scanned_entries(scan) {
        Ok(entries) => entries,
        Err(error) => {
            return Err(error);
        },
    };
    proof {
        assert forall|i: int| 0 <= i < entries@.len() implies #[trigger] entries@[i]@
            == scan@.entries[i] by {
            assert(entries@.map_values(|e: RawStorageEntry| e@)[i] == entries@[i]@);
        }
    }
    match get_validators(&entries) {
        Ok(validators) => Ok(validators),
        Err(error) => {
            proof {
                let i = choose|i: int|
                    0 <= i < entries@.len() && spec_validator_entry(#[trigger] entries@[i]@.1)
                        == Err::<ValidatorView, _>(error) && forall|j: int|
                        0 <= j < i ==> spec_validator_entry(#[trigger] entries@[j]@.1) is Ok;
                assert(spec_validator_entry(scan@.entries[i].1) == Err::<ValidatorView, _>(
                    error,
                ));
                assert forall|j: int| 0 <= j < i implies spec_validator_entry(
                    (#[trigger] scan@.entries[j]).1,
                ) is Ok by {
                    assert(spec_validator_entry(entries@[j]@.1) is Ok);
                }
            }
            Err(AggregationError::Decode(error))
        },
    }
}

} // verus!
