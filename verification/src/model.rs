//! A mathematical model of the store that a bootstrap runs against.
//!
//! The model holds what a bootstrap can read or change: the block records, the
//! canonical chain by height, and the recorded schema version.  It says what
//! the guard takes for granted of a store: that a read changes nothing, that a
//! failed write changes nothing, that a successful write does what it is named
//! after, and that only a block which the store holds can become canonical.
//! The laws of the guard are stated over this model, and hold of every store
//! that answers as the model does.  No executable code uses it.

use vstd::prelude::*;
use crate::protocol::{ReplyView, RequestView};

verus! {

/// How the storage engine treats the writes of one run: for each kind of write
/// either success or the report that it fails with.
pub struct Conduct {
    pub insert: Result<(), Seq<char>>,
    pub canonize: Result<(), Seq<char>>,
    pub set_db_version: Result<(), Seq<char>>,
    /// The report on a request to canonize a block that the store does not
    /// hold.
    pub unknown_block: Seq<char>,
}

impl Conduct {
    /// An engine on which no write fails.
    pub open spec fn faultless(self) -> bool {
        self.insert is Ok && self.canonize is Ok && self.set_db_version is Ok
    }
}

/// The persisted state of a store.
pub struct StoreModel {
    /// The hashes of the blocks held as block records.
    pub blocks: Set<Seq<u8>>,
    /// The hashes of the canonical blocks: at index `h` the block at height `h`.
    pub chain: Seq<Seq<u8>>,
    /// The recorded schema version.
    pub version: u8,
}

impl StoreModel {
    /// The hash of the canonical block at `height`, if the chain is that long.
    pub open spec fn block_hash(self, height: u32) -> Option<Seq<u8>> {
        if (height as int) < self.chain.len() {
            Some(self.chain[height as int])
        } else {
            None
        }
    }

    /// A store without a canonical block at height 0: one that was never
    /// bootstrapped, or whose first bootstrap broke off before the genesis block
    /// was canonical.
    pub open spec fn is_empty(self) -> bool {
        self.block_hash(0) is None
    }

    /// The store after `hash` was added as a block record.
    pub open spec fn insert(self, hash: Seq<u8>) -> StoreModel {
        StoreModel { blocks: self.blocks.insert(hash), ..self }
    }

    /// The store after the block `hash` became the head of the best chain.
    pub open spec fn canonize(self, hash: Seq<u8>) -> StoreModel {
        StoreModel { chain: self.chain.push(hash), ..self }
    }

    /// The store after `version` was recorded as its schema version.
    pub open spec fn set_db_version(self, version: u8) -> StoreModel {
        StoreModel { version, ..self }
    }

    /// What the store answers to `request` under `conduct`, and the store
    /// after it.  A read changes nothing.  A write that fails changes nothing
    /// either.  A block that the store does not hold cannot become canonical.
    pub open spec fn respond(self, request: RequestView, conduct: Conduct) -> (
        ReplyView,
        StoreModel,
    ) {
        match request {
            RequestView::BlockHash { height } => (
                ReplyView::BlockHash(self.block_hash(height)),
                self,
            ),
            RequestView::DbVersion => (ReplyView::DbVersion(self.version), self),
            RequestView::Insert { hash } => match conduct.insert {
                Ok(()) => (ReplyView::Written(Ok(())), self.insert(hash)),
                Err(report) => (ReplyView::Written(Err(report)), self),
            },
            RequestView::Canonize { hash } => if !self.blocks.contains(hash) {
                (ReplyView::Written(Err(conduct.unknown_block)), self)
            } else {
                match conduct.canonize {
                    Ok(()) => (ReplyView::Written(Ok(())), self.canonize(hash)),
                    Err(report) => (ReplyView::Written(Err(report)), self),
                }
            },
            RequestView::SetDbVersion { version } => match conduct.set_db_version {
                Ok(()) => (ReplyView::Written(Ok(())), self.set_db_version(version)),
                Err(report) => (ReplyView::Written(Err(report)), self),
            },
        }
    }
}

} // verus!
