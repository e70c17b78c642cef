//! The questions that a bootstrap puts to a store, and the store's answers.
//!
//! The guard makes no call into a storage engine.  It hands out a `Request`;
//! whoever holds the store carries it out and hands back the matching `Reply`.

use vstd::prelude::*;
use crate::error::StoreError;
use crate::hash::H256;

verus! {

/// One operation that the holder of the store is asked to carry out.
#[derive(Clone, Copy, Debug, PartialEq, Eq)]
pub enum Request {
    /// Look up the hash of the canonical block at `height`.
    BlockHash { height: u32 },
    /// Read the schema version that the store records.
    DbVersion,
    /// Add the genesis block, whose hash is `hash`, as a block record.
    Insert { hash: H256 },
    /// Mark the block with this hash as the head of the best chain.
    Canonize { hash: H256 },
    /// Record `version` as the store's schema version.
    SetDbVersion { version: u8 },
}

/// A request as a mathematical value.
pub enum RequestView {
    BlockHash { height: u32 },
    DbVersion,
    Insert { hash: Seq<u8> },
    Canonize { hash: Seq<u8> },
    SetDbVersion { version: u8 },
}

impl RequestView {
    /// Whether carrying out the request may change the store.
    pub open spec fn is_write(self) -> bool {
        self is Insert || self is Canonize || self is SetDbVersion
    }
}

impl View for Request {
    type V = RequestView;

    open spec fn view(&self) -> RequestView {
        match *self {
            Request::BlockHash { height } => RequestView::BlockHash { height },
            Request::DbVersion => RequestView::DbVersion,
            Request::Insert { hash } => RequestView::Insert { hash: hash@ },
            Request::Canonize { hash } => RequestView::Canonize { hash: hash@ },
            Request::SetDbVersion { version } => RequestView::SetDbVersion { version },
        }
    }
}

impl Request {
    /// Whether carrying out the request may change the store.
    pub fn is_write(&self) -> (write: bool)
        ensures
            write == self@.is_write(),
    {
        match self {
            Request::BlockHash { .. } => false,
            Request::DbVersion => false,
            Request::Insert { .. } => true,
            Request::Canonize { .. } => true,
            Request::SetDbVersion { .. } => true,
        }
    }
}

/// What the store answered.
#[derive(Debug)]
pub enum Reply {
    /// Answer to `Request::BlockHash`: the hash found, if any.
    BlockHash(Option<H256>),
    /// Answer to `Request::DbVersion`: the recorded schema version.
    DbVersion(u8),
    /// Answer to any of the three writes: done, or the engine's report.
    Written(Result<(), StoreError>),
}

/// A reply as a mathematical value.
pub enum ReplyView {
    BlockHash(Option<Seq<u8>>),
    DbVersion(u8),
    Written(Result<(), Seq<char>>),
}

impl View for Reply {
    type V = ReplyView;

    open spec fn view(&self) -> ReplyView {
        match *self {
            Reply::BlockHash(Some(hash)) => ReplyView::BlockHash(Some(hash@)),
            Reply::BlockHash(None) => ReplyView::BlockHash(None),
            Reply::DbVersion(version) => ReplyView::DbVersion(version),
            Reply::Written(Ok(())) => ReplyView::Written(Ok(())),
            Reply::Written(Err(cause)) => ReplyView::Written(Err(cause@)),
        }
    }
}

} // verus!
