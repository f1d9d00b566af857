use entropy_network_status_page::enrichment::{programs_from, MAX_CONCURRENT_LOOKUPS};
use entropy_network_status_page::{
    AccountId32, EnrichmentPool, LookupResponse, ProgramInfo, ProgramRecord, H256,
};

fn record(identity: u8) -> ProgramRecord {
    ProgramRecord {
        hash: H256([identity; 32]),
        info: ProgramInfo {
            bytecode: vec![identity; identity as usize],
            configuration_interface: vec![],
            deployer: AccountId32([0u8; 32]),
            ref_counter: identity as u128,
        },
    }
}

fn found(name: &str) -> LookupResponse {
    LookupResponse::Answered {
        status: 200,
        body: format!("{{\"name\":\"{}\",\"version\":\"0.1.0\"}}", name),
    }
}

fn server_error() -> LookupResponse {
    LookupResponse::Answered {
        status: 500,
        body: "Internal Server Error".to_string(),
    }
}

// Runs a pool to its end. Whenever no further lookup may begin, the lookup
// that `pick` chooses among those under way ends, with the response that
// `respond` gives for its program.
fn run(
    records: Vec<ProgramRecord>,
    pick: fn(usize) -> usize,
    respond: fn(u8) -> LookupResponse,
) -> (Vec<(u8, Option<String>)>, usize) {
    let mut pool = EnrichmentPool::new(records);
    let mut under_way: Vec<H256> = Vec::new();
    let mut most = 0usize;
    while !pool.is_finished() {
        loop {
            let (next, started) = pool.start_next();
            pool = next;
            match started {
                Some(hash) => under_way.push(hash),
                None => break,
            }
        }
        assert_eq!(pool.in_flight_count(), under_way.len());
        most = most.max(under_way.len());
        let hash = under_way.remove(pick(under_way.len()));
        let (next, known) = pool.complete(&hash, &respond(hash.0[0]));
        assert!(known);
        pool = next;
    }
    let done = pool
        .into_enriched()
        .into_iter()
        .map(|e| (e.record.hash.0[0], e.package.map(|p| p.name)))
        .collect();
    (done, most)
}

fn two_of_five_fail(identity: u8) -> LookupResponse {
    match identity {
        2 => LookupResponse::Unreachable,
        4 => server_error(),
        _ => found(&format!("program-{}", identity)),
    }
}

fn one_of_five_fails(identity: u8) -> LookupResponse {
    match identity {
        0xab => server_error(),
        _ => found(&format!("program-{}", identity)),
    }
}

fn first(_: usize) -> usize {
    0
}

fn last(len: usize) -> usize {
    len - 1
}

fn middle(len: usize) -> usize {
    len / 2
}

#[test]
fn the_bound_is_three() {
    assert_eq!(MAX_CONCURRENT_LOOKUPS, 3);
}

#[test]
fn pool_of_no_programs_is_finished() {
    let pool = EnrichmentPool::new(vec![]);
    assert!(pool.is_finished());
    assert_eq!(pool.in_flight_count(), 0);
    let (pool, started) = pool.start_next();
    assert_eq!(started, None);
    assert!(pool.into_enriched().is_empty());
}

#[test]
fn pool_begins_lookups_in_the_order_given() {
    let mut pool = EnrichmentPool::new(vec![record(7), record(3), record(5)]);
    for identity in [7u8, 3, 5] {
        let (next, started) = pool.start_next();
        assert_eq!(started, Some(H256([identity; 32])));
        pool = next;
    }
    assert_eq!(pool.in_flight_count(), 3);
    assert!(!pool.is_finished());
}

#[test]
fn pool_never_has_more_than_three_lookups_under_way() {
    let mut pool = EnrichmentPool::new((1..=10u8).map(record).collect());
    for _ in 0..3 {
        let (next, started) = pool.start_next();
        assert!(started.is_some());
        pool = next;
    }
    // The service does not answer: nothing further may begin.
    for _ in 0..5 {
        let (next, started) = pool.start_next();
        assert_eq!(started, None);
        assert_eq!(next.in_flight_count(), 3);
        pool = next;
    }
    // One answer arrives: one further lookup may begin, and no second.
    let (pool, known) = pool.complete(&H256([2u8; 32]), &LookupResponse::Unreachable);
    assert!(known);
    assert_eq!(pool.in_flight_count(), 2);
    let (pool, started) = pool.start_next();
    assert_eq!(started, Some(H256([4u8; 32])));
    assert_eq!(pool.in_flight_count(), 3);
    let (pool, started) = pool.start_next();
    assert_eq!(started, None);
    assert_eq!(pool.in_flight_count(), 3);
}

#[test]
fn pool_bound_holds_for_every_order_of_arrival() {
    for pick in [first as fn(usize) -> usize, last, middle] {
        let (done, most) = run((1..=20u8).map(record).collect(), pick, two_of_five_fail);
        assert_eq!(most, 3);
        assert_eq!(done.len(), 20);
    }
    let (_, most) = run((1..=2u8).map(record).collect(), first, two_of_five_fail);
    assert_eq!(most, 2);
}

#[test]
fn five_programs_of_which_two_lookups_fail() {
    for pick in [first as fn(usize) -> usize, last, middle] {
        let (mut done, _) = run((1..=5u8).map(record).collect(), pick, two_of_five_fail);
        assert_eq!(done.len(), 5);
        done.sort();
        assert_eq!(
            done,
            vec![
                (1, Some("program-1".to_string())),
                (2, None),
                (3, Some("program-3".to_string())),
                (4, None),
                (5, Some("program-5".to_string())),
            ]
        );
    }
}

#[test]
fn results_come_in_the_order_of_arrival() {
    let (done, _) = run((1..=5u8).map(record).collect(), last, two_of_five_fail);
    let order: Vec<u8> = done.iter().map(|d| d.0).collect();
    assert_eq!(order, vec![3, 4, 5, 2, 1]);
    let (done, _) = run((1..=5u8).map(record).collect(), first, two_of_five_fail);
    let order: Vec<u8> = done.iter().map(|d| d.0).collect();
    assert_eq!(order, vec![1, 2, 3, 4, 5]);
}

#[test]
fn a_server_error_for_one_program_leaves_the_others() {
    let identities = [1u8, 0xab, 3, 4, 5];
    let (done, _) = run(
        identities.iter().map(|i| record(*i)).collect(),
        middle,
        one_of_five_fails,
    );
    assert_eq!(done.len(), 5);
    for identity in identities {
        let found: Vec<&(u8, Option<String>)> =
            done.iter().filter(|d| d.0 == identity).collect();
        assert_eq!(found.len(), 1);
        if identity == 0xab {
            assert_eq!(found[0].1, None);
        } else {
            assert_eq!(found[0].1, Some(format!("program-{}", identity)));
        }
    }
}

#[test]
fn outcome_of_a_lookup_that_is_not_under_way() {
    let pool = EnrichmentPool::new(vec![record(1), record(2)]);
    let (pool, known) = pool.complete(&H256([1u8; 32]), &found("early"));
    assert!(!known);
    assert_eq!(pool.in_flight_count(), 0);
    let (pool, started) = pool.start_next();
    assert_eq!(started, Some(H256([1u8; 32])));
    let (pool, known) = pool.complete(&H256([9u8; 32]), &found("stranger"));
    assert!(!known);
    assert_eq!(pool.in_flight_count(), 1);
    let (pool, known) = pool.complete(&H256([1u8; 32]), &found("one"));
    assert!(known);
    let (pool, known) = pool.complete(&H256([1u8; 32]), &found("again"));
    assert!(!known);
    let done = pool.into_enriched();
    assert_eq!(done.len(), 1);
    assert_eq!(done[0].package.as_ref().unwrap().name, "one");
}

#[test]
fn programs_given_twice_are_kept_twice() {
    let (done, _) = run(vec![record(6), record(6), record(7)], last, two_of_five_fail);
    let mut identities: Vec<u8> = done.iter().map(|d| d.0).collect();
    identities.sort();
    assert_eq!(identities, vec![6, 6, 7]);
}

#[test]
fn rows_of_enriched_programs() {
    let mut pool = EnrichmentPool::new(vec![record(1), record(2)]);
    for _ in 0..2 {
        pool = pool.start_next().0;
    }
    let (pool, _) = pool.complete(&H256([2u8; 32]), &found("two"));
    let (pool, _) = pool.complete(&H256([1u8; 32]), &server_error());
    assert!(pool.is_finished());
    let programs = programs_from(pool.into_enriched());
    assert_eq!(programs.len(), 2);
    assert_eq!(programs[0].hash, "0202…0202");
    assert_eq!(programs[0].size, 2);
    assert_eq!(programs[0].ref_counter, 2);
    assert_eq!(programs[0].metadata.as_ref().unwrap().name, "two");
    assert_eq!(programs[0].metadata.as_ref().unwrap().version, "0.1.0");
    assert_eq!(programs[1].hash, "0101…0101");
    assert_eq!(programs[1].size, 1);
    assert_eq!(programs[1].metadata, None);
}
