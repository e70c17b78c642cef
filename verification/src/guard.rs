//! The bootstrap guard: a state machine that seeds an empty store with the
//! genesis block, and refuses a store that was built from another genesis
//! block or written with another schema version.

use vstd::prelude::*;
use crate::error::{BootstrapError, BootstrapErrorView, WriteStage};
use crate::hash::H256;
use crate::protocol::{Reply, ReplyView, Request, RequestView};

verus! {

/// The schema version that this software reads and writes.
pub const CURRENT_DB_VERSION: u8 = 1;

/// How far a bootstrap has come.  In each of the first five states one request
/// is outstanding; the last two are final.
#[derive(Debug)]
pub enum State {
    /// The hash at height 0 has been asked for.
    AwaitGenesisHash,
    /// The store holds the right genesis block; its schema version has been
    /// asked for.
    AwaitVersion,
    /// The store is empty; the genesis block is being inserted.
    AwaitInsert,
    /// The genesis block is inserted and is being made canonical.
    AwaitCanonize,
    /// The genesis block is canonical; the schema version is being recorded.
    AwaitVersionStamp,
    /// The store is built from the expected genesis block and carries the
    /// expected schema version.
    Accepted,
    /// The bootstrap failed.
    Rejected(BootstrapError),
}

/// A state as a mathematical value.
pub enum StateView {
    AwaitGenesisHash,
    AwaitVersion,
    AwaitInsert,
    AwaitCanonize,
    AwaitVersionStamp,
    Accepted,
    Rejected(BootstrapErrorView),
}

impl StateView {
    /// Whether the bootstrap has ended, well or badly.
    pub open spec fn is_final(self) -> bool {
        self is Accepted || self is Rejected
    }

    /// The result of a bootstrap that has ended.
    pub open spec fn outcome(self) -> Option<Result<(), BootstrapErrorView>> {
        match self {
            StateView::Accepted => Some(Ok(())),
            StateView::Rejected(error) => Some(Err(error)),
            _ => None,
        }
    }
}

impl View for State {
    type V = StateView;

    open spec fn view(&self) -> StateView {
        match *self {
            State::AwaitGenesisHash => StateView::AwaitGenesisHash,
            State::AwaitVersion => StateView::AwaitVersion,
            State::AwaitInsert => StateView::AwaitInsert,
            State::AwaitCanonize => StateView::AwaitCanonize,
            State::AwaitVersionStamp => StateView::AwaitVersionStamp,
            State::Accepted => StateView::Accepted,
            State::Rejected(error) => StateView::Rejected(error@),
        }
    }
}

impl State {
    /// Whether the bootstrap has ended, well or badly.
    pub fn is_final(&self) -> (ended: bool)
        ensures
            ended == self@.is_final(),
    {
        match self {
            State::Accepted => true,
            State::Rejected(_) => true,
            _ => false,
        }
    }

    /// The result of a bootstrap that has ended; `None` while a request is
    /// outstanding.
    pub fn outcome(self) -> (result: Option<Result<(), BootstrapError>>)
        ensures
            match result {
                Some(Ok(())) => self@.outcome() == Some(Ok::<(), BootstrapErrorView>(())),
                Some(Err(error)) => self@.outcome() == Some(
                    Err::<(), BootstrapErrorView>(error@),
                ),
                None => self@.outcome() is None,
            },
    {
        match self {
            State::Accepted => Some(Ok(())),
            State::Rejected(error) => Some(Err(error)),
            _ => None,
        }
    }
}

/// What a bootstrap is held against: the hash of the genesis block of the
/// network that the software runs on, and the schema version that it
/// understands.
#[derive(Clone, Copy, Debug)]
pub struct BootstrapGuard {
    genesis_hash: H256,
    current_version: u8,
}

/// A guard as a mathematical value.
pub struct GuardView {
    pub genesis_hash: Seq<u8>,
    pub current_version: u8,
}

impl GuardView {
    /// The state in which every bootstrap begins.
    pub open spec fn initial() -> StateView {
        StateView::AwaitGenesisHash
    }

    /// The request that is outstanding in `state`; none in a final state.
    pub open spec fn request(self, state: StateView) -> Option<RequestView> {
        match state {
            StateView::AwaitGenesisHash => Some(RequestView::BlockHash { height: 0 }),
            StateView::AwaitVersion => Some(RequestView::DbVersion),
            StateView::AwaitInsert => Some(RequestView::Insert { hash: self.genesis_hash }),
            StateView::AwaitCanonize => Some(RequestView::Canonize { hash: self.genesis_hash }),
            StateView::AwaitVersionStamp => Some(
                RequestView::SetDbVersion { version: self.current_version },
            ),
            StateView::Accepted => None,
            StateView::Rejected(_) => None,
        }
    }

    /// The state that follows `state` once the store has given `reply`.
    ///
    /// A store that holds a block at height 0 is checked and never written to:
    /// first its genesis hash, then its schema version.  An empty store gets
    /// the genesis block inserted, then made canonical, then the schema
    /// version, each write only after the one before it succeeded.  A reply
    /// that does not answer the outstanding request changes nothing.
    pub open spec fn next(self, state: StateView, reply: ReplyView) -> StateView {
        match (state, reply) {
            (StateView::AwaitGenesisHash, ReplyView::BlockHash(Some(stored))) => {
                if stored == self.genesis_hash {
                    StateView::AwaitVersion
                } else {
                    StateView::Rejected(BootstrapErrorView::IncompatibleGenesis)
                }
            },
            (StateView::AwaitGenesisHash, ReplyView::BlockHash(None)) => StateView::AwaitInsert,
            (StateView::AwaitVersion, ReplyView::DbVersion(stored)) => {
                if stored == self.current_version {
                    StateView::Accepted
                } else {
                    StateView::Rejected(BootstrapErrorView::IncompatibleSchemaVersion)
                }
            },
            (StateView::AwaitInsert, ReplyView::Written(Ok(()))) => StateView::AwaitCanonize,
            (StateView::AwaitInsert, ReplyView::Written(Err(cause))) => StateView::Rejected(
                BootstrapErrorView::StoreWriteFailed { stage: WriteStage::Insert, cause },
            ),
            (StateView::AwaitCanonize, ReplyView::Written(Ok(()))) => StateView::AwaitVersionStamp,
            (StateView::AwaitCanonize, ReplyView::Written(Err(cause))) => StateView::Rejected(
                BootstrapErrorView::StoreWriteFailed { stage: WriteStage::Canonize, cause },
            ),
            (StateView::AwaitVersionStamp, ReplyView::Written(Ok(()))) => StateView::Accepted,
            (StateView::AwaitVersionStamp, ReplyView::Written(Err(cause))) => StateView::Rejected(
                BootstrapErrorView::StoreWriteFailed { stage: WriteStage::StampVersion, cause },
            ),
            _ => state,
        }
    }
}

impl View for BootstrapGuard {
    type V = GuardView;

    closed spec fn view(&self) -> GuardView {
        GuardView { genesis_hash: self.genesis_hash@, current_version: self.current_version }
    }
}

impl BootstrapGuard {
    /// A guard for the network whose genesis block has the hash `genesis_hash`,
    /// in software that understands the schema version `current_version`.
    pub fn new(genesis_hash: H256, current_version: u8) -> (guard: BootstrapGuard)
        ensures
            guard@ == (GuardView { genesis_hash: genesis_hash@, current_version }),
    {
        BootstrapGuard { genesis_hash, current_version }
    }

    /// The hash of the genesis block that the store must be built from.
    pub fn genesis_hash(&self) -> (hash: H256)
        ensures
            hash@ == self@.genesis_hash,
    {
        self.genesis_hash
    }

    /// The schema version that the store must carry.
    pub fn current_version(&self) -> (version: u8)
        ensures
            version == self@.current_version,
    {
        self.current_version
    }

    /// The state in which a bootstrap begins.
    pub fn start(&self) -> (state: State)
        ensures
            state@ == GuardView::initial(),
    {
        State::AwaitGenesisHash
    }

    /// The request that the store has to be given in `state`; `None` once the
    /// bootstrap has ended.
    pub fn request(&self, state: &State) -> (request: Option<Request>)
        ensures
            match request {
                Some(request) => self@.request(state@) == Some(request@),
                None => self@.request(state@) is None,
            },
    {
        match state {
            State::AwaitGenesisHash => Some(Request::BlockHash { height: 0 }),
            State::AwaitVersion => Some(Request::DbVersion),
            State::AwaitInsert => Some(Request::Insert { hash: self.genesis_hash }),
            State::AwaitCanonize => Some(Request::Canonize { hash: self.genesis_hash }),
            State::AwaitVersionStamp => Some(
                Request::SetDbVersion { version: self.current_version },
            ),
            State::Accepted => None,
            State::Rejected(_) => None,
        }
    }

    /// Takes the store's reply to the outstanding request and gives the state
    /// that follows.
    pub fn step(&self, state: State, reply: Reply) -> (next: State)
        ensures
            next@ == self@.next(state@, reply@),
    {
        match (state, reply) {
            (State::AwaitGenesisHash, Reply::BlockHash(Some(stored))) => {
                if stored == self.genesis_hash {
                    State::AwaitVersion
                } else {
                    State::Rejected(BootstrapError::IncompatibleGenesis)
                }
            },
            (State::AwaitGenesisHash, Reply::BlockHash(None)) => State::AwaitInsert,
            (State::AwaitVersion, Reply::DbVersion(stored)) => {
                if stored == self.current_version {
                    State::Accepted
                } else {
                    State::Rejected(BootstrapError::IncompatibleSchemaVersion)
                }
            },
            (State::AwaitInsert, Reply::Written(Ok(()))) => State::AwaitCanonize,
            (State::AwaitInsert, Reply::Written(Err(cause))) => State::Rejected(
                BootstrapError::StoreWriteFailed { stage: WriteStage::Insert, cause },
            ),
            (State::AwaitCanonize, Reply::Written(Ok(()))) => State::AwaitVersionStamp,
            (State::AwaitCanonize, Reply::Written(Err(cause))) => State::Rejected(
                BootstrapError::StoreWriteFailed { stage: WriteStage::Canonize, cause },
            ),
            (State::AwaitVersionStamp, Reply::Written(Ok(()))) => State::Accepted,
            (State::AwaitVersionStamp, Reply::Written(Err(cause))) => State::Rejected(
                BootstrapError::StoreWriteFailed { stage: WriteStage::StampVersion, cause },
            ),
            (state, _) => state,
        }
    }
}

} // verus!
