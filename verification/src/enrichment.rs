//! Looking up the packages of stored programs, a few at a time.
//!
//! The lookups themselves go over the network, which this library cannot
//! do. What it decides is here: a pool holds the programs that wait, those
//! whose lookup is under way, and those whose lookup has ended. Whoever
//! drives it starts the lookups that the pool hands out and reports each
//! outcome back, in whatever order the outcomes arrive.

use crate::identity::{same_bytes, H256};
use crate::program::{
    get_program_metadata, opt_package, spec_lookup_package, spec_program, LookupResponse,
    PackageDescriptor,
    Program, ProgramRecord,
};
use vstd::multiset::{lemma_multiset_empty_len, Multiset};
use vstd::prelude::*;
use vstd::seq_lib::{to_multiset_build, to_multiset_len, to_multiset_remove};

verus! {

/// How many lookups may be under way at once.
pub const MAX_CONCURRENT_LOOKUPS: usize = 3;

/// A program with the package that its lookup found, if it found one.
#[derive(Debug)]
pub struct EnrichedProgram {
    pub record: ProgramRecord,
    pub package: Option<PackageDescriptor>,
}

/// The state of a pool as plain sequences.
pub struct PoolView {
    /// The programs whose lookup has not begun, the next to begin first.
    pub pending: Seq<ProgramRecord>,
    /// The programs whose lookup is under way.
    pub in_flight: Seq<ProgramRecord>,
    /// The programs whose lookup has ended, in the order in which the
    /// outcomes arrived.
    pub done: Seq<EnrichedProgram>,
}

/// The programs whose lookup has ended.
pub open spec fn done_records(done: Seq<EnrichedProgram>) -> Seq<ProgramRecord> {
    done.map_values(|e: EnrichedProgram| e.record)
}

/// Every program that a pool holds, in whichever of its three parts.
pub open spec fn all_records(state: PoolView) -> Multiset<ProgramRecord> {
    state.pending.to_multiset().add(state.in_flight.to_multiset()).add(
        done_records(state.done).to_multiset(),
    )
}

/// A pool that has just been given its programs.
pub open spec fn spec_new_pool(records: Seq<ProgramRecord>) -> PoolView {
    PoolView { pending: records, in_flight: Seq::empty(), done: Seq::empty() }
}

/// The bound on the lookups under way.
pub open spec fn pool_inv(state: PoolView) -> bool {
    state.in_flight.len() <= MAX_CONCURRENT_LOOKUPS
}

/// Whether a further lookup may begin.
pub open spec fn can_start(state: PoolView) -> bool {
    state.in_flight.len() < MAX_CONCURRENT_LOOKUPS && state.pending.len() > 0
}

/// The pool after the lookup of the first waiting program has begun.
pub open spec fn spec_start_next(state: PoolView) -> PoolView {
    PoolView {
        pending: state.pending.drop_first(),
        in_flight: state.in_flight.push(state.pending[0]),
        done: state.done,
    }
}

/// The pool after the lookup at `index` of those under way has ended with
/// the given package.
pub open spec fn spec_complete(
    state: PoolView,
    index: int,
    package: Option<PackageDescriptor>,
) -> PoolView {
    PoolView {
        pending: state.pending,
        in_flight: state.in_flight.remove(index),
        done: state.done.push(EnrichedProgram { record: state.in_flight[index], package }),
    }
}

/// Whether `index` is the first place in `records` of a program with the
/// hash `hash`.
pub open spec fn is_first_with_hash(records: Seq<ProgramRecord>, hash: Seq<u8>, index: int) -> bool {
    &&& 0 <= index < records.len()
    &&& records[index].hash@ == hash
    &&& forall|j: int| 0 <= j < index ==> (#[trigger] records[j]).hash@ != hash
}

/// Whether every lookup has ended.
pub open spec fn is_finished(state: PoolView) -> bool {
    state.pending.len() == 0 && state.in_flight.len() == 0
}

/// The lookups of a list of programs.
pub struct EnrichmentPool {
    pending: Vec<ProgramRecord>,
    in_flight: Vec<ProgramRecord>,
    done: Vec<EnrichedProgram>,
}

impl View for EnrichmentPool {
    type V = PoolView;

    closed spec fn view(&self) -> PoolView {
        PoolView { pending: self.pending@, in_flight: self.in_flight@, done: self.done@ }
    }
}

impl EnrichmentPool {
    #[verifier::type_invariant]
    spec fn bounded(&self) -> bool {
        pool_inv(self@)
    }

    /// A pool for the given programs. No lookup has begun.
    pub fn new(records: Vec<ProgramRecord>) -> (pool: EnrichmentPool)
        ensures
            pool@ == spec_new_pool(records@),
            pool_inv(pool@),
    {
        EnrichmentPool { pending: records, in_flight: Vec::new(), done: Vec::new() }
    }

    /// How many lookups are under way.
    pub fn in_flight_count(&self) -> (count: usize)
        ensures
            count == self@.in_flight.len(),
            count <= MAX_CONCURRENT_LOOKUPS,
    {
        proof {
            use_type_invariant(self);
        }
        self.in_flight.len()
    }

    /// Whether every lookup has ended.
    pub fn is_finished(&self) -> (finished: bool)
        ensures
            finished == is_finished(self@),
    {
        self.pending.len() == 0 && self.in_flight.len() == 0
    }

    /// Begins the lookup of the first waiting program, if fewer than
    /// `MAX_CONCURRENT_LOOKUPS` are under way and a program waits: gives the
    /// pool as it is then, and the hash of the program to look up. Otherwise
    /// the pool is unchanged and there is nothing to look up.
    pub fn start_next(self) -> (next: (EnrichmentPool, Option<H256>))
        ensures
            pool_inv(next.0@),
            can_start(self@) ==> next.0@ == spec_start_next(self@) && (next.1 matches Some(hash)
                && hash@ == self@.pending[0].hash@),
            !can_start(self@) ==> next.0@ == self@ && next.1 is None,
    {
        proof {
            use_type_invariant(&self);
        }
        let EnrichmentPool { pending, in_flight, done } = self;
        let mut pending = pending;
        let mut in_flight = in_flight;
        if in_flight.len() < MAX_CONCURRENT_LOOKUPS && pending.len() > 0 {
            let record = pending.remove(0);
            let hash = record.hash;
            in_flight.push(record);
            assert(pending@ =~= self@.pending.drop_first());
            (EnrichmentPool { pending, in_flight, done }, Some(hash))
        } else {
            (EnrichmentPool { pending, in_flight, done }, None)
        }
    }

    /// Takes the outcome of the lookup of the program `hash`. The first
    /// program under way with that hash leaves those under way and joins, with
    /// the package that the response describes, the end of those that are done. If
    /// no lookup of that hash is under way, the pool is unchanged and the
    /// answer is `false`.
    pub fn complete(self, hash: &H256, response: &LookupResponse) -> (next: (EnrichmentPool, bool))
        ensures
            pool_inv(next.0@),
            next.1 ==> exists|index: int, package: Option<PackageDescriptor>|
                #![trigger spec_complete(self@, index, package)]
                is_first_with_hash(self@.in_flight, hash@, index) && opt_package(package)
                    == spec_lookup_package(*response) && next.0@ == spec_complete(
                    self@,
                    index,
                    package,
                ),
            !next.1 ==> next.0@ == self@ && forall|j: int|
                0 <= j < self@.in_flight.len() ==> (#[trigger] self@.in_flight[j]).hash@ != hash@,
    {
        proof {
            use_type_invariant(&self);
        }
        let EnrichmentPool { pending, in_flight, done } = self;
        let mut in_flight = in_flight;
        let mut done = done;
        let mut i: usize = 0;
        while i < in_flight.len()
            invariant
                i <= in_flight@.len(),
                pending@ == self@.pending,
                in_flight@ == self@.in_flight,
                done@ == self@.done,
                pool_inv(self@),
                forall|j: int| 0 <= j < i ==> (#[trigger] in_flight@[j]).hash@ != hash@,
            decreases in_flight@.len() - i,
        {
            if same_bytes(&in_flight[i].hash.0, &hash.0) {
                let record = in_flight.remove(i);
                let package = get_program_metadata(response);
                let ghost found = package;
                done.push(EnrichedProgram { record, package });
                let next = EnrichmentPool { pending, in_flight, done };
                proof {
                    let after = spec_complete(self@, i as int, found);
                    assert(is_first_with_hash(self@.in_flight, hash@, i as int));
                    assert(next@.in_flight =~= after.in_flight);
                    assert(next@.done =~= after.done);
                    assert(next@ == after);
                }
                return (next, true);
            }
            i += 1;
        }
        (EnrichmentPool { pending, in_flight, done }, false)
    }

    /// The programs whose lookup has ended, in the order in which the
    /// outcomes arrived.
    pub fn into_enriched(self) -> (done: Vec<EnrichedProgram>)
        ensures
            done@ == self@.done,
    {
        self.done
    }
}

/// The rows of programs with their packages, in the same order.
pub fn programs_from(enriched: Vec<EnrichedProgram>) -> (programs: Vec<Program>)
    ensures
        programs@.len() == enriched@.len(),
        forall|i: int|
            0 <= i < enriched@.len() ==> (#[trigger] programs@[i])@ == spec_program(
                enriched@[i].record.hash@,
                enriched@[i].record.info@,
                opt_package(enriched@[i].package),
            ),
{
    let mut programs: Vec<Program> = Vec::new();
    for item in it: enriched.into_iter()
        invariant
            it.seq() == enriched@,
            programs@.len() == it.index(),
            forall|i: int|
                0 <= i < it.index() ==> (#[trigger] programs@[i])@ == spec_program(
                    enriched@[i].record.hash@,
                    enriched@[i].record.info@,
                    opt_package(enriched@[i].package),
                ),
    {
        let EnrichedProgram { record, package } = item;
        let ProgramRecord { hash, info } = record;
        programs.push(Program::new(hash, info, package));
    }
    programs
}

/// At no point are more than `MAX_CONCURRENT_LOOKUPS` lookups under way: a
/// new pool has none, a lookup begins only below the bound, and one that
/// ends leaves one fewer.
pub proof fn lemma_pool_bound(
    records: Seq<ProgramRecord>,
    state: PoolView,
    index: int,
    package: Option<PackageDescriptor>,
)
    requires
        pool_inv(state),
    ensures
        pool_inv(spec_new_pool(records)),
        can_start(state) ==> pool_inv(spec_start_next(state)),
        0 <= index < state.in_flight.len() ==> pool_inv(spec_complete(state, index, package)),
{
}

/// No program is dropped and none is doubled, in whatever order the
/// outcomes arrive: a lookup that begins, and one that ends, each leave the
/// programs that the pool holds as they were.
pub proof fn lemma_pool_keeps_records(
    state: PoolView,
    index: int,
    package: Option<PackageDescriptor>,
)
    ensures
        can_start(state) ==> all_records(spec_start_next(state)) == all_records(state),
        0 <= index < state.in_flight.len() ==> all_records(spec_complete(state, index, package))
            == all_records(state),
{
    if can_start(state) {
        let first = state.pending[0];
        to_multiset_remove(state.pending, 0);
        assert(state.pending.remove(0) =~= state.pending.drop_first());
        to_multiset_build(state.in_flight, first);
        state.pending.to_multiset_ensures();
        assert(state.pending.to_multiset().count(first) > 0);
        assert(all_records(spec_start_next(state)) =~= all_records(state));
    }
    if 0 <= index < state.in_flight.len() {
        let record = state.in_flight[index];
        let next = spec_complete(state, index, package);
        to_multiset_remove(state.in_flight, index);
        assert(done_records(next.done) =~= done_records(state.done).push(record));
        to_multiset_build(done_records(state.done), record);
        state.in_flight.to_multiset_ensures();
        assert(state.in_flight.to_multiset().count(record) > 0);
        assert(all_records(next) =~= all_records(state));
    }
}

/// When every lookup has ended, the programs that are done are the programs
/// that the pool was given, each as often as it was given, and so as many.
pub proof fn lemma_pool_finished(records: Seq<ProgramRecord>, state: PoolView)
    requires
        all_records(state) == all_records(spec_new_pool(records)),
        is_finished(state),
    ensures
        done_records(state.done).to_multiset() == records.to_multiset(),
        state.done.len() == records.len(),
{
    assert(state.pending =~= Seq::empty());
    assert(state.in_flight =~= Seq::empty());
    assert(done_records(Seq::<EnrichedProgram>::empty()) =~= Seq::empty());
    assert(Seq::<ProgramRecord>::empty().to_multiset() =~= Multiset::empty()) by {
        to_multiset_len(Seq::<ProgramRecord>::empty());
        lemma_multiset_empty_len(Seq::<ProgramRecord>::empty().to_multiset());
    }
    assert(all_records(state) =~= done_records(state.done).to_multiset());
    assert(all_records(spec_new_pool(records)) =~= records.to_multiset());
    to_multiset_len(done_records(state.done));
    to_multiset_len(records);
}

/// A pool that is not finished can go on: a lookup may begin, or one is
/// under way whose outcome is awaited.
pub proof fn lemma_pool_progress(state: PoolView)
    requires
        pool_inv(state),
        !is_finished(state),
    ensures
        can_start(state) || state.in_flight.len() > 0,
{
}

} // verus!
