//! Bootstraps run against a small in-memory store.

use db_bootstrap::error::{
    BootstrapError, StoreError, WriteStage, INCOMPATIBLE_GENESIS_MESSAGE,
    INCOMPATIBLE_VERSION_MESSAGE,
};
use db_bootstrap::guard::{BootstrapGuard, State, CURRENT_DB_VERSION};
use db_bootstrap::hash::H256;
use db_bootstrap::protocol::{Reply, Request};

/// SHA-256 of the ASCII text `genesis`.
const GENESIS: [u8; 32] = [
    0xae, 0xeb, 0xad, 0x4a, 0x79, 0x6f, 0xcc, 0x2e, 0x15, 0xdc, 0x4c, 0x60, 0x61, 0xb4, 0x5e, 0xd9,
    0xb3, 0x73, 0xf2, 0x6a, 0xdf, 0xc7, 0x98, 0xca, 0x7d, 0x2d, 0x8c, 0xc5, 0x81, 0x82, 0x71, 0x8e,
];

/// SHA-256 of the ASCII text `another genesis`.
const OTHER_GENESIS: [u8; 32] = [
    0xa6, 0x9a, 0xe6, 0x5a, 0xe3, 0x51, 0x5a, 0x92, 0x18, 0xff, 0x5e, 0x9d, 0x26, 0x28, 0x02, 0x62,
    0xdc, 0x6b, 0xcf, 0x5c, 0xba, 0x7c, 0x7e, 0x8a, 0xce, 0x23, 0xbf, 0xe2, 0x0f, 0x25, 0x8f, 0x59,
];

/// A store that keeps everything in memory and can be told to fail a write.
#[derive(Clone, Debug, PartialEq)]
struct MemoryStore {
    blocks: Vec<H256>,
    chain: Vec<H256>,
    version: u8,
    fail_insert: Option<String>,
    fail_canonize: Option<String>,
    fail_set_db_version: Option<String>,
    log: Vec<Request>,
}

impl MemoryStore {
    fn empty() -> MemoryStore {
        MemoryStore {
            blocks: Vec::new(),
            chain: Vec::new(),
            version: 0,
            fail_insert: None,
            fail_canonize: None,
            fail_set_db_version: None,
            log: Vec::new(),
        }
    }

    fn seeded(genesis: H256, version: u8) -> MemoryStore {
        let mut store = MemoryStore::empty();
        store.blocks.push(genesis);
        store.chain.push(genesis);
        store.version = version;
        store
    }

    fn block_hash(&self, height: u32) -> Option<H256> {
        self.chain.get(height as usize).copied()
    }

    fn db_version(&self) -> u8 {
        self.version
    }

    fn written(failure: &Option<String>) -> Result<(), StoreError> {
        match failure {
            Some(report) => Err(StoreError::new(report.clone())),
            None => Ok(()),
        }
    }

    fn answer(&mut self, request: Request) -> Reply {
        self.log.push(request);
        match request {
            Request::BlockHash { height } => Reply::BlockHash(self.block_hash(height)),
            Request::DbVersion => Reply::DbVersion(self.db_version()),
            Request::Insert { hash } => {
                let done = MemoryStore::written(&self.fail_insert);
                if done.is_ok() && !self.blocks.contains(&hash) {
                    self.blocks.push(hash);
                }
                Reply::Written(done)
            }
            Request::Canonize { hash } => {
                let done = if self.blocks.contains(&hash) {
                    MemoryStore::written(&self.fail_canonize)
                } else {
                    Err(StoreError::new(String::from("unknown block")))
                };
                if done.is_ok() {
                    self.chain.push(hash);
                }
                Reply::Written(done)
            }
            Request::SetDbVersion { version } => {
                let done = MemoryStore::written(&self.fail_set_db_version);
                if done.is_ok() {
                    self.version = version;
                }
                Reply::Written(done)
            }
        }
    }
}

/// Runs the guard against the store until the guard has ended.
fn bootstrap(store: &mut MemoryStore, genesis: H256, version: u8) -> Result<(), BootstrapError> {
    let guard = BootstrapGuard::new(genesis, version);
    let mut state = guard.start();
    let mut rounds = 0;
    while let Some(request) = guard.request(&state) {
        rounds += 1;
        assert!(rounds <= 4, "a bootstrap asks at most four times");
        let reply = store.answer(request);
        state = guard.step(state, reply);
    }
    assert!(state.is_final());
    state.outcome().expect("a final state has an outcome")
}

fn genesis() -> H256 {
    H256::new(GENESIS)
}

#[test]
fn first_run_seeds_an_empty_store() {
    let mut store = MemoryStore::empty();
    let result = bootstrap(&mut store, genesis(), CURRENT_DB_VERSION);
    assert!(result.is_ok());
    assert_eq!(store.block_hash(0), Some(genesis()));
    assert_eq!(store.db_version(), 1);
    assert_eq!(store.blocks, vec![genesis()]);
    assert_eq!(
        store.log,
        vec![
            Request::BlockHash { height: 0 },
            Request::Insert { hash: genesis() },
            Request::Canonize { hash: genesis() },
            Request::SetDbVersion { version: 1 },
        ]
    );
}

#[test]
fn second_run_succeeds_and_changes_nothing() {
    let mut store = MemoryStore::empty();
    assert!(bootstrap(&mut store, genesis(), 1).is_ok());
    let mut after_first = store.clone();
    after_first.log.clear();
    store.log.clear();

    assert!(bootstrap(&mut store, genesis(), 1).is_ok());
    assert_eq!(store.block_hash(0), Some(genesis()));
    assert_eq!(store.db_version(), 1);
    assert_eq!(store.log, vec![Request::BlockHash { height: 0 }, Request::DbVersion]);
    store.log.clear();
    assert_eq!(store, after_first);
}

#[test]
fn second_run_succeeds_even_if_writes_would_fail() {
    let mut store = MemoryStore::empty();
    assert!(bootstrap(&mut store, genesis(), 1).is_ok());
    store.fail_insert = Some(String::from("disk full"));
    store.fail_canonize = Some(String::from("disk full"));
    store.fail_set_db_version = Some(String::from("disk full"));
    assert!(bootstrap(&mut store, genesis(), 1).is_ok());
    assert_eq!(store.chain, vec![genesis()]);
    assert_eq!(store.db_version(), 1);
}

#[test]
fn store_of_another_genesis_is_rejected_untouched() {
    let mut store = MemoryStore::seeded(H256::new(OTHER_GENESIS), 1);
    let before = store.clone();
    let result = bootstrap(&mut store, genesis(), 1);
    match result {
        Err(BootstrapError::IncompatibleGenesis) => {}
        other => panic!("unexpected result: {:?}", other),
    }
    assert_eq!(store.log, vec![Request::BlockHash { height: 0 }]);
    store.log.clear();
    assert_eq!(store, before);
}

#[test]
fn genesis_that_differs_in_one_byte_is_rejected() {
    let mut bytes = GENESIS;
    bytes[31] ^= 1;
    let mut store = MemoryStore::seeded(H256::new(bytes), 1);
    let result = bootstrap(&mut store, genesis(), 1);
    assert!(matches!(result, Err(BootstrapError::IncompatibleGenesis)));

    let mut bytes = GENESIS;
    bytes[0] ^= 0x80;
    let mut store = MemoryStore::seeded(H256::new(bytes), 1);
    let result = bootstrap(&mut store, genesis(), 1);
    assert!(matches!(result, Err(BootstrapError::IncompatibleGenesis)));
}

#[test]
fn genesis_is_checked_before_the_version() {
    let mut store = MemoryStore::seeded(H256::new(OTHER_GENESIS), 7);
    let result = bootstrap(&mut store, genesis(), 1);
    assert!(matches!(result, Err(BootstrapError::IncompatibleGenesis)));
    assert_eq!(store.log, vec![Request::BlockHash { height: 0 }]);
}

#[test]
fn store_of_another_version_is_rejected_untouched() {
    for stored in [0u8, 2, 255] {
        let mut store = MemoryStore::seeded(genesis(), stored);
        let before = store.clone();
        let result = bootstrap(&mut store, genesis(), 1);
        assert!(matches!(result, Err(BootstrapError::IncompatibleSchemaVersion)));
        assert_eq!(store.log, vec![Request::BlockHash { height: 0 }, Request::DbVersion]);
        store.log.clear();
        assert_eq!(store, before);
    }
}

#[test]
fn guard_can_be_held_against_any_version() {
    let mut store = MemoryStore::empty();
    assert!(bootstrap(&mut store, genesis(), 9).is_ok());
    assert_eq!(store.db_version(), 9);
    assert!(bootstrap(&mut store, genesis(), 9).is_ok());
    let result = bootstrap(&mut store, genesis(), 1);
    assert!(matches!(result, Err(BootstrapError::IncompatibleSchemaVersion)));
    assert_eq!(store.db_version(), 9);
}

#[test]
fn failed_insert_is_fatal_and_leaves_the_store_empty() {
    let mut store = MemoryStore::empty();
    store.fail_insert = Some(String::from("no space"));
    let error = bootstrap(&mut store, genesis(), 1).unwrap_err();
    match &error {
        BootstrapError::StoreWriteFailed { stage, cause } => {
            assert_eq!(*stage, WriteStage::Insert);
            assert_eq!(cause.message(), "no space");
        }
        other => panic!("unexpected error: {:?}", other),
    }
    assert!(error.is_fatal());
    assert!(store.blocks.is_empty());
    assert_eq!(store.block_hash(0), None);
    assert_eq!(store.db_version(), 0);
    assert_eq!(
        store.log,
        vec![Request::BlockHash { height: 0 }, Request::Insert { hash: genesis() }]
    );
}

#[test]
fn failed_canonize_is_fatal_and_leaves_the_block_inserted() {
    let mut store = MemoryStore::empty();
    store.fail_canonize = Some(String::from("broken index"));
    let error = bootstrap(&mut store, genesis(), 1).unwrap_err();
    match &error {
        BootstrapError::StoreWriteFailed { stage, cause } => {
            assert_eq!(*stage, WriteStage::Canonize);
            assert_eq!(cause.message(), "broken index");
        }
        other => panic!("unexpected error: {:?}", other),
    }
    assert!(error.is_fatal());
    assert_eq!(store.blocks, vec![genesis()]);
    assert_eq!(store.block_hash(0), None);
    assert_eq!(store.db_version(), 0);
}

#[test]
fn failed_version_stamp_is_handed_to_the_caller() {
    let mut store = MemoryStore::empty();
    store.fail_set_db_version = Some(String::from("write failed"));
    let error = bootstrap(&mut store, genesis(), 1).unwrap_err();
    match &error {
        BootstrapError::StoreWriteFailed { stage, cause } => {
            assert_eq!(*stage, WriteStage::StampVersion);
            assert_eq!(cause.message(), "write failed");
        }
        other => panic!("unexpected error: {:?}", other),
    }
    assert!(!error.is_fatal());
    assert_eq!(error.message(), "write failed");
    assert_eq!(store.block_hash(0), Some(genesis()));
    assert_eq!(store.db_version(), 0);
}

#[test]
fn run_after_a_failed_version_stamp_is_rejected() {
    let mut store = MemoryStore::empty();
    store.fail_set_db_version = Some(String::from("write failed"));
    assert!(bootstrap(&mut store, genesis(), 1).is_err());
    store.fail_set_db_version = None;
    store.log.clear();

    let result = bootstrap(&mut store, genesis(), 1);
    assert!(matches!(result, Err(BootstrapError::IncompatibleSchemaVersion)));
    assert_eq!(store.log, vec![Request::BlockHash { height: 0 }, Request::DbVersion]);
    assert_eq!(store.chain, vec![genesis()]);
}

#[test]
fn run_after_a_failed_canonize_starts_over() {
    let mut store = MemoryStore::empty();
    store.fail_canonize = Some(String::from("broken index"));
    assert!(bootstrap(&mut store, genesis(), 1).is_err());
    store.fail_canonize = None;

    assert!(bootstrap(&mut store, genesis(), 1).is_ok());
    assert_eq!(store.blocks, vec![genesis()]);
    assert_eq!(store.chain, vec![genesis()]);
    assert_eq!(store.db_version(), 1);
}

#[test]
fn scenario_of_three_bootstraps() {
    let g = genesis();
    let mut store = MemoryStore::empty();
    assert!(bootstrap(&mut store, g, 1).is_ok());
    assert_eq!(store.block_hash(0), Some(g));
    assert_eq!(store.db_version(), 1);

    let snapshot = (store.blocks.clone(), store.chain.clone(), store.version);
    assert!(bootstrap(&mut store, g, 1).is_ok());
    assert_eq!((store.blocks.clone(), store.chain.clone(), store.version), snapshot);

    let mut fresh = MemoryStore::empty();
    let other = H256::new(OTHER_GENESIS);
    fresh.blocks.push(other);
    fresh.chain.push(other);
    let error = bootstrap(&mut fresh, g, 1).unwrap_err();
    assert!(matches!(error, BootstrapError::IncompatibleGenesis));
    assert_eq!(error.message(), INCOMPATIBLE_GENESIS_MESSAGE);
    assert_eq!(fresh.block_hash(0), Some(other));
}

#[test]
fn rejections_carry_their_messages() {
    let mut store = MemoryStore::seeded(genesis(), 3);
    let error = bootstrap(&mut store, genesis(), 1).unwrap_err();
    assert_eq!(error.message(), INCOMPATIBLE_VERSION_MESSAGE);
    assert!(!error.is_fatal());

    let mut store = MemoryStore::seeded(H256::new(OTHER_GENESIS), 1);
    let error = bootstrap(&mut store, genesis(), 1).unwrap_err();
    assert_eq!(error.message(), "Trying to open database with incompatible genesis block");
    assert!(!error.is_fatal());
}

#[test]
fn guard_reports_what_it_was_made_with() {
    let guard = BootstrapGuard::new(genesis(), 5);
    assert_eq!(guard.genesis_hash(), genesis());
    assert_eq!(guard.current_version(), 5);
    assert_eq!(CURRENT_DB_VERSION, 1);
}

#[test]
fn states_name_their_requests() {
    let guard = BootstrapGuard::new(genesis(), 4);
    assert_eq!(guard.request(&State::AwaitGenesisHash), Some(Request::BlockHash { height: 0 }));
    assert_eq!(guard.request(&State::AwaitVersion), Some(Request::DbVersion));
    assert_eq!(guard.request(&State::AwaitInsert), Some(Request::Insert { hash: genesis() }));
    assert_eq!(guard.request(&State::AwaitCanonize), Some(Request::Canonize { hash: genesis() }));
    assert_eq!(
        guard.request(&State::AwaitVersionStamp),
        Some(Request::SetDbVersion { version: 4 })
    );
    assert_eq!(guard.request(&State::Accepted), None);
    assert_eq!(guard.request(&State::Rejected(BootstrapError::IncompatibleGenesis)), None);
}

#[test]
fn only_the_three_writes_are_writes() {
    assert!(!Request::BlockHash { height: 0 }.is_write());
    assert!(!Request::DbVersion.is_write());
    assert!(Request::Insert { hash: genesis() }.is_write());
    assert!(Request::Canonize { hash: genesis() }.is_write());
    assert!(Request::SetDbVersion { version: 1 }.is_write());
}

#[test]
fn start_state_is_not_final() {
    let guard = BootstrapGuard::new(genesis(), 1);
    let state = guard.start();
    assert!(matches!(state, State::AwaitGenesisHash));
    assert!(!state.is_final());
    assert!(state.outcome().is_none());
}

#[test]
fn outcome_of_each_kind_of_state() {
    assert!(matches!(State::Accepted.outcome(), Some(Ok(()))));
    assert!(matches!(
        State::Rejected(BootstrapError::IncompatibleSchemaVersion).outcome(),
        Some(Err(BootstrapError::IncompatibleSchemaVersion))
    ));
    assert!(State::AwaitVersion.outcome().is_none());
    assert!(State::AwaitInsert.outcome().is_none());
    assert!(State::AwaitCanonize.outcome().is_none());
    assert!(State::AwaitVersionStamp.outcome().is_none());
    assert!(State::Accepted.is_final());
    assert!(State::Rejected(BootstrapError::IncompatibleGenesis).is_final());
    assert!(!State::AwaitCanonize.is_final());
}

#[test]
fn reply_to_another_request_changes_nothing() {
    let guard = BootstrapGuard::new(genesis(), 1);

    let state = guard.step(State::AwaitGenesisHash, Reply::DbVersion(1));
    assert!(matches!(state, State::AwaitGenesisHash));
    let state = guard.step(State::AwaitGenesisHash, Reply::Written(Ok(())));
    assert!(matches!(state, State::AwaitGenesisHash));

    let state = guard.step(State::AwaitVersion, Reply::BlockHash(None));
    assert!(matches!(state, State::AwaitVersion));
    let state = guard.step(State::AwaitVersion, Reply::Written(Ok(())));
    assert!(matches!(state, State::AwaitVersion));

    let state = guard.step(State::AwaitInsert, Reply::DbVersion(1));
    assert!(matches!(state, State::AwaitInsert));
    let state = guard.step(State::AwaitCanonize, Reply::BlockHash(Some(genesis())));
    assert!(matches!(state, State::AwaitCanonize));
    let state = guard.step(State::AwaitVersionStamp, Reply::DbVersion(1));
    assert!(matches!(state, State::AwaitVersionStamp));
}

#[test]
fn final_states_absorb_every_reply() {
    let guard = BootstrapGuard::new(genesis(), 1);
    let state = guard.step(State::Accepted, Reply::BlockHash(None));
    assert!(matches!(state, State::Accepted));
    let state = guard.step(State::Accepted, Reply::Written(Err(StoreError::new(String::new()))));
    assert!(matches!(state, State::Accepted));
    let state = guard.step(
        State::Rejected(BootstrapError::IncompatibleGenesis),
        Reply::BlockHash(Some(genesis())),
    );
    assert!(matches!(state, State::Rejected(BootstrapError::IncompatibleGenesis)));
}

#[test]
fn each_step_of_a_first_run() {
    let guard = BootstrapGuard::new(genesis(), 1);
    let state = guard.step(guard.start(), Reply::BlockHash(None));
    assert!(matches!(state, State::AwaitInsert));
    let state = guard.step(state, Reply::Written(Ok(())));
    assert!(matches!(state, State::AwaitCanonize));
    let state = guard.step(state, Reply::Written(Ok(())));
    assert!(matches!(state, State::AwaitVersionStamp));
    let state = guard.step(state, Reply::Written(Ok(())));
    assert!(matches!(state, State::Accepted));
}

#[test]
fn each_step_of_a_later_run() {
    let guard = BootstrapGuard::new(genesis(), 1);
    let state = guard.step(guard.start(), Reply::BlockHash(Some(genesis())));
    assert!(matches!(state, State::AwaitVersion));
    let state = guard.step(state, Reply::DbVersion(1));
    assert!(matches!(state, State::Accepted));
}
