//! Reading a storage map of the chain at one block.
//!
//! The scan itself talks to the node, which this library cannot do. What it
//! decides is here: a scan is a state that takes what the node answered and
//! says what to ask next. Whoever drives it asks the node and hands each
//! answer back, until the scan says that it is finished or has failed.

use crate::identity::StorageKey;
use vstd::prelude::*;

verus! {

/// One entry of a storage map as the node returns it.
#[derive(Debug, PartialEq, Eq)]
pub struct RawStorageEntry {
    pub key: StorageKey,
    pub value: Vec<u8>,
}

impl View for RawStorageEntry {
    type V = (Seq<u8>, Seq<u8>);

    open spec fn view(&self) -> (Seq<u8>, Seq<u8>) {
        (self.key@, self.value@)
    }
}

/// The storage maps that the page reads.
#[derive(Clone, Copy, Debug, PartialEq, Eq, Structural)]
pub enum StorageMap {
    /// The stored programs, by their hash.
    Programs,
    /// The registered accounts, by their account.
    Registered,
    /// The validators' threshold servers, by their stash account.
    ThresholdServers,
}

impl StorageMap {
    /// The name of the pallet that keeps the map.
    pub fn pallet_name(&self) -> (name: &'static str)
        ensures
            name@ == match *self {
                StorageMap::Programs => "Programs"@,
                StorageMap::Registered => "Relayer"@,
                StorageMap::ThresholdServers => "StakingExtension"@,
            },
    {
        match self {
            StorageMap::Programs => "Programs",
            StorageMap::Registered => "Relayer",
            StorageMap::ThresholdServers => "StakingExtension",
        }
    }

    /// The name of the map in its pallet.
    pub fn item_name(&self) -> (name: &'static str)
        ensures
            name@ == match *self {
                StorageMap::Programs => "Programs"@,
                StorageMap::Registered => "Registered"@,
                StorageMap::ThresholdServers => "ThresholdServers"@,
            },
    {
        match self {
            StorageMap::Programs => "Programs",
            StorageMap::Registered => "Registered",
            StorageMap::ThresholdServers => "ThresholdServers",
        }
    }
}

/// Why a scan failed.
#[derive(Clone, Copy, Debug, PartialEq, Eq, Structural)]
pub enum ScanError {
    /// The node knows no current block.
    NoBlockHash,
    /// The node could not be asked, or did not answer as the protocol says.
    Transport,
    /// The node returned a key too short to end in an identity.
    MalformedKey,
    /// An answer came that the scan had not asked for.
    UnexpectedAnswer,
    /// The scan was ended before the node had returned every entry.
    Unfinished,
}

/// How far a scan has come.
#[derive(Clone, Copy, Debug, PartialEq, Eq, Structural)]
pub enum ScanPhase {
    /// It has asked for the hash of the current block.
    Resolving,
    /// It is reading entries at the block it has fixed.
    Reading,
    /// The node has returned every entry.
    Finished,
    /// It has failed, and holds no entries.
    Failed(ScanError),
}

/// What the node answered.
#[derive(Clone, Debug, PartialEq, Eq)]
pub enum ScanEvent {
    /// The hash of the current block, if the node knows one.
    BlockHash(Option<[u8; 32]>),
    /// The next entry of the map.
    Entry { key: Vec<u8>, value: Vec<u8> },
    /// The map has no further entry.
    Exhausted,
    /// The request failed.
    Failed,
}

/// What to do next.
#[derive(Clone, Copy, Debug, PartialEq, Eq)]
pub enum ScanAction {
    /// Ask the node for the hash of its current block.
    ResolveBlockHash,
    /// Ask the node for the next entry of the map at the given block.
    ReadEntry { map: StorageMap, block_hash: [u8; 32] },
    /// Take the entries: the scan is finished.
    Finish,
    /// Give up: the scan has failed.
    Abort(ScanError),
}

/// A `ScanAction` as plain values.
pub enum ScanActionView {
    ResolveBlockHash,
    ReadEntry { map: StorageMap, block_hash: Seq<u8> },
    Finish,
    Abort(ScanError),
}

impl View for ScanAction {
    type V = ScanActionView;

    open spec fn view(&self) -> ScanActionView {
        match *self {
            ScanAction::ResolveBlockHash => ScanActionView::ResolveBlockHash,
            ScanAction::ReadEntry { map, block_hash } => ScanActionView::ReadEntry {
                map,
                block_hash: block_hash@,
            },
            ScanAction::Finish => ScanActionView::Finish,
            ScanAction::Abort(e) => ScanActionView::Abort(e),
        }
    }
}

/// The state of a scan as plain values.
pub struct ScanView {
    pub map: StorageMap,
    pub phase: ScanPhase,
    /// The block at which the entries are read, once it is fixed.
    pub block_hash: Option<Seq<u8>>,
    /// The entries read so far, in the order in which the node returned them.
    pub entries: Seq<(Seq<u8>, Seq<u8>)>,
}

/// A scan that has just begun.
pub open spec fn spec_start(map: StorageMap) -> ScanView {
    ScanView { map, phase: ScanPhase::Resolving, block_hash: None, entries: Seq::empty() }
}

/// The state of a scan that has failed: it keeps no entry.
pub open spec fn failed(state: ScanView, error: ScanError) -> ScanView {
    ScanView { phase: ScanPhase::Failed(error), entries: Seq::empty(), ..state }
}

/// The state that an answer of the node leads to.
///
/// The first answer must be the hash of the current block, which is then
/// fixed. Every entry that follows is kept, until the node reports that
/// there is none left. A failed request, a missing block hash, a key of 32
/// bytes or fewer, and an answer that was not asked for each fail the scan. A
/// scan that is finished or has failed stays as it is.
pub open spec fn spec_step(state: ScanView, event: ScanEvent) -> ScanView {
    match state.phase {
        ScanPhase::Resolving => match event {
            ScanEvent::BlockHash(Some(hash)) => ScanView {
                phase: ScanPhase::Reading,
                block_hash: Some(hash@),
                ..state
            },
            ScanEvent::BlockHash(None) => failed(state, ScanError::NoBlockHash),
            ScanEvent::Failed => failed(state, ScanError::Transport),
            _ => failed(state, ScanError::UnexpectedAnswer),
        },
        ScanPhase::Reading => match event {
            ScanEvent::Entry { key, value } => if key@.len() > 32 {
                ScanView { entries: state.entries.push((key@, value@)), ..state }
            } else {
                failed(state, ScanError::MalformedKey)
            },
            ScanEvent::Exhausted => ScanView { phase: ScanPhase::Finished, ..state },
            ScanEvent::Failed => failed(state, ScanError::Transport),
            ScanEvent::BlockHash(_) => failed(state, ScanError::UnexpectedAnswer),
        },
        ScanPhase::Finished => state,
        ScanPhase::Failed(_) => state,
    }
}

/// What a scan in the given state asks for.
pub open spec fn spec_action(state: ScanView) -> ScanActionView {
    match state.phase {
        ScanPhase::Resolving => ScanActionView::ResolveBlockHash,
        ScanPhase::Reading => ScanActionView::ReadEntry {
            map: state.map,
            block_hash: state.block_hash->Some_0,
        },
        ScanPhase::Finished => ScanActionView::Finish,
        ScanPhase::Failed(error) => ScanActionView::Abort(error),
    }
}

/// What holds of every state that a scan can reach: entries are read at a
/// fixed block only, and a failed scan holds none.
pub open spec fn scan_inv(state: ScanView) -> bool {
    &&& state.phase is Reading ==> state.block_hash is Some
    &&& state.phase is Resolving ==> state.block_hash is None && state.entries.len() == 0
    &&& state.phase is Failed ==> state.entries.len() == 0
    &&& forall|i: int| 0 <= i < state.entries.len() ==> (#[trigger] state.entries[i]).0.len() > 32
}

/// The scan of one storage map.
pub struct StorageScan {
    map: StorageMap,
    phase: ScanPhase,
    block_hash: Option<[u8; 32]>,
    entries: Vec<RawStorageEntry>,
}

impl View for StorageScan {
    type V = ScanView;

    closed spec fn view(&self) -> ScanView {
        ScanView {
            map: self.map,
            phase: self.phase,
            block_hash: match self.block_hash {
                Some(hash) => Some(hash@),
                None => None,
            },
            entries: self.entries@.map_values(|e: RawStorageEntry| e@),
        }
    }
}

impl StorageScan {
    #[verifier::type_invariant]
    spec fn well_formed(&self) -> bool {
        scan_inv(self@)
    }

    /// Begins the scan of a map. The first thing to ask the node is the hash
    /// of its current block.
    pub fn start(map: StorageMap) -> (scan: StorageScan)
        ensures
            scan@ == spec_start(map),
            scan_inv(scan@),
    {
        let scan = StorageScan {
            map,
            phase: ScanPhase::Resolving,
            block_hash: None,
            entries: Vec::new(),
        };
        assert(scan@.entries =~= Seq::empty());
        scan
    }

    /// What to ask the node next.
    pub fn action(&self) -> (action: ScanAction)
        ensures
            action@ == spec_action(self@),
            scan_inv(self@),
    {
        proof {
            use_type_invariant(self);
        }
        match self.phase {
            ScanPhase::Resolving => ScanAction::ResolveBlockHash,
            ScanPhase::Reading => match self.block_hash {
                Some(block_hash) => ScanAction::ReadEntry { map: self.map, block_hash },
                // A scan reads at a fixed block only, so this does not occur.
                None => ScanAction::Abort(ScanError::UnexpectedAnswer),
            },
            ScanPhase::Finished => ScanAction::Finish,
            ScanPhase::Failed(error) => ScanAction::Abort(error),
        }
    }

    /// Takes an answer of the node: gives the scan as it is after that
    /// answer, and what to ask next.
    pub fn step(self, event: ScanEvent) -> (next: (StorageScan, ScanAction))
        ensures
            next.0@ == spec_step(self@, event),
            next.1@ == spec_action(next.0@),
            scan_inv(next.0@),
    {
        proof {
            use_type_invariant(&self);
        }
        let StorageScan { map, phase, block_hash, entries } = self;
        let mut entries = entries;
        let ghost before = entries@.map_values(|e: RawStorageEntry| e@);
        let next = match phase {
            ScanPhase::Resolving => match event {
                ScanEvent::BlockHash(Some(hash)) => StorageScan {
                    map,
                    phase: ScanPhase::Reading,
                    block_hash: Some(hash),
                    entries,
                },
                ScanEvent::BlockHash(None) => Self::failed(map, block_hash, ScanError::NoBlockHash),
                ScanEvent::Failed => Self::failed(map, block_hash, ScanError::Transport),
                _ => Self::failed(map, block_hash, ScanError::UnexpectedAnswer),
            },
            ScanPhase::Reading => match event {
                ScanEvent::Entry { key, value } => {
                    let ghost key_bytes = key@;
                    match StorageKey::new(key) {
                        Some(key) => {
                            entries.push(RawStorageEntry { key, value });
                            assert(entries@.map_values(|e: RawStorageEntry| e@) =~= before.push(
                                (key_bytes, value@),
                            ));
                            StorageScan { map, phase, block_hash, entries }
                        },
                        None => Self::failed(map, block_hash, ScanError::MalformedKey),
                    }
                },
                ScanEvent::Exhausted => StorageScan {
                    map,
                    phase: ScanPhase::Finished,
                    block_hash,
                    entries,
                },
                ScanEvent::Failed => Self::failed(map, block_hash, ScanError::Transport),
                ScanEvent::BlockHash(_) => Self::failed(
                    map,
                    block_hash,
                    ScanError::UnexpectedAnswer,
                ),
            },
            ScanPhase::Finished => StorageScan { map, phase, block_hash, entries },
            ScanPhase::Failed(_) => StorageScan { map, phase, block_hash, entries },
        };
        let action = next.action();
        (next, action)
    }

    fn failed(map: StorageMap, block_hash: Option<[u8; 32]>, error: ScanError) -> (scan:
        StorageScan)
        ensures
            scan@.map == map,
            scan@.phase == ScanPhase::Failed(error),
            scan@.block_hash == match block_hash {
                Some(hash) => Some(hash@),
                None => None,
            },
            scan@.entries == Seq::<(Seq<u8>, Seq<u8>)>::empty(),
    {
        let scan = StorageScan {
            map,
            phase: ScanPhase::Failed(error),
            block_hash,
            entries: Vec::new(),
        };
        assert(scan@.entries =~= Seq::empty());
        scan
    }

    /// Ends the scan. A finished scan gives its entries, in the order in
    /// which the node returned them. A failed scan gives its error, and one
    /// that was still under way the error that it was not finished; neither
    /// gives any entry.
    pub fn finish(self) -> (r: Result<Vec<RawStorageEntry>, ScanError>)
        ensures
            match r {
                Ok(entries) => self@.phase is Finished && entries@.map_values(
                    |e: RawStorageEntry| e@,
                ) == self@.entries,
                Err(error) => match self@.phase {
                    ScanPhase::Finished => false,
                    ScanPhase::Failed(e) => error == e,
                    _ => error == ScanError::Unfinished,
                },
            },
    {
        match self.phase {
            ScanPhase::Finished => Ok(self.entries),
            ScanPhase::Failed(error) => Err(error),
            _ => Err(ScanError::Unfinished),
        }
    }
}

/// Every state that a scan reaches from its start holds what `scan_inv`
/// says: the start does, and each answer of the node keeps it.
pub proof fn lemma_scan_inv(map: StorageMap, state: ScanView, event: ScanEvent)
    requires
        scan_inv(state),
    ensures
        scan_inv(spec_start(map)),
        scan_inv(spec_step(state, event)),
{
    let next = spec_step(state, event);
    assert forall|i: int| 0 <= i < next.entries.len() implies (#[trigger] next.entries[i]).0.len()
        > 32 by {
        if i < state.entries.len() {
            assert(next.entries[i] == state.entries[i]);
        }
    }
}

/// All entries of one scan are read at one block: once the block is fixed,
/// no answer changes it, so every request for an entry names the same block.
pub proof fn lemma_scan_block_fixed(state: ScanView, event: ScanEvent)
    requires
        scan_inv(state),
        state.block_hash is Some,
    ensures
        spec_step(state, event).block_hash == state.block_hash,
        spec_action(spec_step(state, event)) matches ScanActionView::ReadEntry { block_hash, .. }
            ==> Some(block_hash) == state.block_hash,
{
}

/// A failure drops what was read: a scan that has failed holds no entry,
/// whatever it had read before, and stays failed.
pub proof fn lemma_scan_failure_keeps_nothing(state: ScanView, event: ScanEvent)
    requires
        scan_inv(state),
    ensures
        spec_step(state, event).phase is Failed ==> spec_step(state, event).entries.len() == 0,
        state.phase is Failed ==> spec_step(state, event) == state,
        state.phase is Finished ==> spec_step(state, event) == state,
{
}

/// A map without entries gives an empty list and no error: the block hash,
/// then the report that nothing is left, finish the scan with no entry.
pub proof fn lemma_scan_of_empty_map(map: StorageMap, hash: [u8; 32])
    ensures
        ({
            let resolved = spec_step(spec_start(map), ScanEvent::BlockHash(Some(hash)));
            let done = spec_step(resolved, ScanEvent::Exhausted);
            done.phase is Finished && done.entries.len() == 0
        }),
{
}

} // verus!
