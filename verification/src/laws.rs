//! What holds of every bootstrap, proved of the guard run against the model
//! of a store.

use vstd::prelude::*;
use crate::error::{BootstrapErrorView, WriteStage};
use crate::guard::{GuardView, StateView};
use crate::model::{Conduct, StoreModel};
use crate::protocol::RequestView;

verus! {

/// Where a bootstrap ended: the guard's last state, the store as it was left,
/// and the requests that the store was given, in order.
pub struct Run {
    pub state: StateView,
    pub store: StoreModel,
    pub asked: Seq<RequestView>,
}

impl Run {
    /// Whether any of the requests given to the store was a write.
    pub open spec fn wrote(self) -> bool {
        exists|i: int| 0 <= i < self.asked.len() && (#[trigger] self.asked[i]).is_write()
    }
}

/// The number of requests that a bootstrap in `state` may still make.
pub open spec fn requests_left(state: StateView) -> nat {
    match state {
        StateView::AwaitGenesisHash => 4,
        StateView::AwaitInsert => 3,
        StateView::AwaitCanonize => 2,
        StateView::AwaitVersion => 1,
        StateView::AwaitVersionStamp => 1,
        StateView::Accepted => 0,
        StateView::Rejected(_) => 0,
    }
}

/// Carries a bootstrap on from `state`: gives the store the outstanding
/// request, hands its reply to the guard, and so on until the guard has
/// ended.  `asked` holds the requests made so far.
pub open spec fn drive(
    guard: GuardView,
    state: StateView,
    store: StoreModel,
    conduct: Conduct,
    asked: Seq<RequestView>,
) -> Run
    decreases requests_left(state),
{
    match guard.request(state) {
        Some(request) => {
            let (reply, after) = store.respond(request, conduct);
            drive(guard, guard.next(state, reply), after, conduct, asked.push(request))
        },
        None => Run { state, store, asked },
    }
}

/// A whole bootstrap of `store` under `guard`.
pub open spec fn bootstrap(guard: GuardView, store: StoreModel, conduct: Conduct) -> Run {
    drive(guard, GuardView::initial(), store, conduct, Seq::empty())
}

/// Every bootstrap ends.  It begins by asking for the hash at height 0, asks
/// the store at most four times, and asks nothing twice: no request is ever
/// tried again.
pub proof fn lemma_bootstrap_ends(guard: GuardView, store: StoreModel, conduct: Conduct)
    ensures
        bootstrap(guard, store, conduct).state.is_final(),
        1 <= bootstrap(guard, store, conduct).asked.len() <= 4,
        bootstrap(guard, store, conduct).asked[0] == (RequestView::BlockHash { height: 0 }),
        bootstrap(guard, store, conduct).asked.no_duplicates(),
{
    reveal_with_fuel(drive, 5);
}

/// Genesis mismatch: a store whose block at height 0 is not the guard's
/// genesis block is rejected as built from an incompatible genesis block.
/// The store is asked for that hash and for nothing else, and is left as it
/// was.
pub proof fn lemma_genesis_mismatch_is_rejected(
    guard: GuardView,
    store: StoreModel,
    conduct: Conduct,
)
    requires
        store.block_hash(0) matches Some(stored) && stored != guard.genesis_hash,
    ensures
        bootstrap(guard, store, conduct).state == StateView::Rejected(
            BootstrapErrorView::IncompatibleGenesis,
        ),
        bootstrap(guard, store, conduct).store == store,
        bootstrap(guard, store, conduct).asked == seq![RequestView::BlockHash { height: 0 }],
        !bootstrap(guard, store, conduct).wrote(),
{
    reveal_with_fuel(drive, 5);
}

/// Version mismatch: a store built from the guard's genesis block whose
/// schema version is not the guard's is rejected as written with an
/// incompatible schema version.  The store is only read, and is left as it
/// was.
pub proof fn lemma_version_mismatch_is_rejected(
    guard: GuardView,
    store: StoreModel,
    conduct: Conduct,
)
    requires
        store.block_hash(0) == Some(guard.genesis_hash),
        store.version != guard.current_version,
    ensures
        bootstrap(guard, store, conduct).state == StateView::Rejected(
            BootstrapErrorView::IncompatibleSchemaVersion,
        ),
        bootstrap(guard, store, conduct).store == store,
        bootstrap(guard, store, conduct).asked == seq![
            RequestView::BlockHash { height: 0 },
            RequestView::DbVersion,
        ],
        !bootstrap(guard, store, conduct).wrote(),
{
    reveal_with_fuel(drive, 5);
}

/// A store built from the guard's genesis block and carrying the guard's
/// schema version is accepted.  The store is only read, and is left as it
/// was.
pub proof fn lemma_compatible_store_is_accepted(
    guard: GuardView,
    store: StoreModel,
    conduct: Conduct,
)
    requires
        store.block_hash(0) == Some(guard.genesis_hash),
        store.version == guard.current_version,
    ensures
        bootstrap(guard, store, conduct).state == StateView::Accepted,
        bootstrap(guard, store, conduct).store == store,
        bootstrap(guard, store, conduct).asked == seq![
            RequestView::BlockHash { height: 0 },
            RequestView::DbVersion,
        ],
        !bootstrap(guard, store, conduct).wrote(),
{
    reveal_with_fuel(drive, 5);
}

/// First run: the bootstrap of an empty store succeeds exactly if none of
/// its three writes fails.  After a success the block at height 0 is the
/// guard's genesis block, which the store holds as a block record, and the
/// schema version is the guard's.  The writes were asked for in the order
/// insert, canonize, version stamp.
pub proof fn lemma_first_run_initializes(guard: GuardView, store: StoreModel, conduct: Conduct)
    requires
        store.is_empty(),
    ensures
        bootstrap(guard, store, conduct).state is Accepted <==> conduct.faultless(),
        bootstrap(guard, store, conduct).state is Accepted ==> {
            let run = bootstrap(guard, store, conduct);
            &&& run.store.block_hash(0) == Some(guard.genesis_hash)
            &&& run.store.version == guard.current_version
            &&& run.store.blocks.contains(guard.genesis_hash)
            &&& run.store == store.insert(guard.genesis_hash).canonize(
                guard.genesis_hash,
            ).set_db_version(guard.current_version)
            &&& run.asked == seq![
                RequestView::BlockHash { height: 0 },
                RequestView::Insert { hash: guard.genesis_hash },
                RequestView::Canonize { hash: guard.genesis_hash },
                RequestView::SetDbVersion { version: guard.current_version },
            ]
        },
{
    reveal_with_fuel(drive, 5);
}

/// First run, failing: the bootstrap of an empty store is rejected with the
/// report of the first write that fails, named by its stage, and what the
/// writes before it did to the store stays done.
pub proof fn lemma_first_run_stops_at_failed_write(
    guard: GuardView,
    store: StoreModel,
    conduct: Conduct,
)
    requires
        store.is_empty(),
    ensures
        conduct.insert matches Err(report) ==> {
            &&& bootstrap(guard, store, conduct).state == StateView::Rejected(
                BootstrapErrorView::StoreWriteFailed { stage: WriteStage::Insert, cause: report },
            )
            &&& bootstrap(guard, store, conduct).store == store
        },
        conduct.insert is Ok ==> (conduct.canonize matches Err(report) ==> {
            &&& bootstrap(guard, store, conduct).state == StateView::Rejected(
                BootstrapErrorView::StoreWriteFailed {
                    stage: WriteStage::Canonize,
                    cause: report,
                },
            )
            &&& bootstrap(guard, store, conduct).store == store.insert(guard.genesis_hash)
        }),
        conduct.insert is Ok && conduct.canonize is Ok ==> (conduct.set_db_version matches Err(
            report,
        ) ==> {
            &&& bootstrap(guard, store, conduct).state == StateView::Rejected(
                BootstrapErrorView::StoreWriteFailed {
                    stage: WriteStage::StampVersion,
                    cause: report,
                },
            )
            &&& bootstrap(guard, store, conduct).store == store.insert(
                guard.genesis_hash,
            ).canonize(guard.genesis_hash)
        }),
{
    reveal_with_fuel(drive, 5);
}

/// What every later reader of the store may rely on: after a bootstrap that
/// succeeded, whatever the store held before, the block at height 0 is the
/// guard's genesis block and the schema version is the guard's.
pub proof fn lemma_success_establishes_compatibility(
    guard: GuardView,
    store: StoreModel,
    conduct: Conduct,
)
    requires
        bootstrap(guard, store, conduct).state is Accepted,
    ensures
        bootstrap(guard, store, conduct).store.block_hash(0) == Some(guard.genesis_hash),
        bootstrap(guard, store, conduct).store.version == guard.current_version,
{
    reveal_with_fuel(drive, 5);
}

/// A store that holds a block at height 0 is never written to, whatever the
/// bootstrap decides.
pub proof fn lemma_populated_store_is_only_read(
    guard: GuardView,
    store: StoreModel,
    conduct: Conduct,
)
    requires
        !store.is_empty(),
    ensures
        bootstrap(guard, store, conduct).store == store,
        !bootstrap(guard, store, conduct).wrote(),
{
    reveal_with_fuel(drive, 5);
}

/// Idempotence of success: a bootstrap that follows a successful one, with the
/// same guard and with nothing done to the store in between, succeeds too,
/// whatever the engine would do to a write, and leaves the store exactly as
/// the first one left it.
pub proof fn lemma_success_is_idempotent(
    guard: GuardView,
    store: StoreModel,
    first: Conduct,
    second: Conduct,
)
    requires
        bootstrap(guard, store, first).state is Accepted,
    ensures
        bootstrap(guard, bootstrap(guard, store, first).store, second).state is Accepted,
        bootstrap(guard, bootstrap(guard, store, first).store, second).store == bootstrap(
            guard,
            store,
            first,
        ).store,
        !bootstrap(guard, bootstrap(guard, store, first).store, second).wrote(),
{
    lemma_success_establishes_compatibility(guard, store, first);
    lemma_compatible_store_is_accepted(guard, bootstrap(guard, store, first).store, second);
}

/// Fail-fast after a broken first run: if the first bootstrap of an empty
/// store inserted and canonized the genesis block but could not record the
/// schema version, and the version that the store carries is not the guard's,
/// the next bootstrap does not start over: it rejects the store as written
/// with an incompatible schema version and leaves it as it is.
pub proof fn lemma_missing_version_stamp_is_caught(
    guard: GuardView,
    store: StoreModel,
    first: Conduct,
    second: Conduct,
)
    requires
        store.is_empty(),
        store.version != guard.current_version,
        bootstrap(guard, store, first).state matches StateView::Rejected(
            BootstrapErrorView::StoreWriteFailed { stage: WriteStage::StampVersion, .. },
        ),
    ensures
        bootstrap(guard, bootstrap(guard, store, first).store, second).state
            == StateView::Rejected(BootstrapErrorView::IncompatibleSchemaVersion),
        bootstrap(guard, bootstrap(guard, store, first).store, second).store == bootstrap(
            guard,
            store,
            first,
        ).store,
{
    reveal_with_fuel(drive, 5);
    lemma_first_run_stops_at_failed_write(guard, store, first);
    lemma_version_mismatch_is_rejected(guard, bootstrap(guard, store, first).store, second);
}

} // verus!
