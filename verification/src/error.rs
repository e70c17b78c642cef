//! What can go wrong while a store is bootstrapped, and how each failure is
//! to be treated.

use vstd::prelude::*;

verus! {

/// Text reported when the store was built from another genesis block.
pub const INCOMPATIBLE_GENESIS_MESSAGE: &'static str =
    "Trying to open database with incompatible genesis block";

/// Text reported when the store was written with another schema version.
pub const INCOMPATIBLE_VERSION_MESSAGE: &'static str =
    "Incompatible database version. Please restart with empty database";

/// Text reported when the genesis block could not be inserted.
pub const INSERT_FAILED_MESSAGE: &'static str = "Failed to insert genesis block to the database";

/// Text reported when the genesis block could not be made canonical.
pub const CANONIZE_FAILED_MESSAGE: &'static str = "Failed to canonize genesis block";

/// What the storage engine said about a write that it could not do.
#[derive(Debug)]
pub struct StoreError {
    message: String,
}

impl View for StoreError {
    type V = Seq<char>;

    /// The text of the engine's report.
    closed spec fn view(&self) -> Seq<char> {
        self.message@
    }
}

impl Clone for StoreError {
    fn clone(&self) -> (copy: StoreError)
        ensures
            copy@ == self@,
    {
        StoreError { message: self.message.clone() }
    }
}

impl StoreError {
    /// A write failure with the given report.
    pub fn new(message: String) -> (error: StoreError)
        ensures
            error@ == message@,
    {
        StoreError { message }
    }

    /// The engine's report.
    pub fn message(&self) -> (text: &str)
        ensures
            text@ == self@,
    {
        self.message.as_str()
    }

    /// The engine's report, taken out of the error.
    pub fn into_message(self) -> (text: String)
        ensures
            text@ == self@,
    {
        self.message
    }
}

/// The three writes of a first run, in the order in which they are made.
#[derive(Clone, Copy, Debug, PartialEq, Eq, Structural)]
pub enum WriteStage {
    /// Adding the genesis block as a block record.
    Insert,
    /// Marking the genesis block as the head of the best chain.
    Canonize,
    /// Recording the schema version.
    StampVersion,
}

/// Why a bootstrap did not succeed.
#[derive(Debug)]
pub enum BootstrapError {
    /// The store holds another block at height 0 than the genesis block of the
    /// running software.
    IncompatibleGenesis,
    /// The store was written with another schema version than the running
    /// software understands.
    IncompatibleSchemaVersion,
    /// One of the writes of a first run failed.
    StoreWriteFailed { stage: WriteStage, cause: StoreError },
}

/// A bootstrap failure as a mathematical value.
pub enum BootstrapErrorView {
    IncompatibleGenesis,
    IncompatibleSchemaVersion,
    StoreWriteFailed { stage: WriteStage, cause: Seq<char> },
}

impl BootstrapErrorView {
    /// A failed insert or canonize leaves a half-initialized store behind, from
    /// which nothing here can recover: the process has to stop.  Every other
    /// failure is handed to the caller.
    pub open spec fn is_fatal(self) -> bool {
        self matches BootstrapErrorView::StoreWriteFailed { stage, .. } && stage
            != WriteStage::StampVersion
    }

    /// The text that describes the failure to an operator.  A failed version
    /// stamp is described by the engine's own report.
    pub open spec fn message(self) -> Seq<char> {
        match self {
            BootstrapErrorView::IncompatibleGenesis => INCOMPATIBLE_GENESIS_MESSAGE@,
            BootstrapErrorView::IncompatibleSchemaVersion => INCOMPATIBLE_VERSION_MESSAGE@,
            BootstrapErrorView::StoreWriteFailed { stage: WriteStage::Insert, .. } =>
                INSERT_FAILED_MESSAGE@,
            BootstrapErrorView::StoreWriteFailed { stage: WriteStage::Canonize, .. } =>
                CANONIZE_FAILED_MESSAGE@,
            BootstrapErrorView::StoreWriteFailed { stage: WriteStage::StampVersion, cause } =>
                cause,
        }
    }
}

impl View for BootstrapError {
    type V = BootstrapErrorView;

    open spec fn view(&self) -> BootstrapErrorView {
        match *self {
            BootstrapError::IncompatibleGenesis => BootstrapErrorView::IncompatibleGenesis,
            BootstrapError::IncompatibleSchemaVersion =>
                BootstrapErrorView::IncompatibleSchemaVersion,
            BootstrapError::StoreWriteFailed { stage, cause } =>
                BootstrapErrorView::StoreWriteFailed { stage, cause: cause@ },
        }
    }
}

impl Clone for BootstrapError {
    fn clone(&self) -> (copy: BootstrapError)
        ensures
            copy@ == self@,
    {
        match self {
            BootstrapError::IncompatibleGenesis => BootstrapError::IncompatibleGenesis,
            BootstrapError::IncompatibleSchemaVersion => BootstrapError::IncompatibleSchemaVersion,
            BootstrapError::StoreWriteFailed { stage, cause } => BootstrapError::StoreWriteFailed {
                stage: *stage,
                cause: cause.clone(),
            },
        }
    }
}

impl BootstrapError {
    /// Whether the process must stop rather than report the failure.
    pub fn is_fatal(&self) -> (fatal: bool)
        ensures
            fatal == self@.is_fatal(),
    {
        match self {
            BootstrapError::StoreWriteFailed { stage: WriteStage::Insert, .. } => true,
            BootstrapError::StoreWriteFailed { stage: WriteStage::Canonize, .. } => true,
            _ => false,
        }
    }

    /// The text that describes the failure to an operator.
    pub fn message(&self) -> (text: String)
        ensures
            text@ == self@.message(),
    {
        match self {
            BootstrapError::IncompatibleGenesis => INCOMPATIBLE_GENESIS_MESSAGE.to_owned(),
            BootstrapError::IncompatibleSchemaVersion => INCOMPATIBLE_VERSION_MESSAGE.to_owned(),
            BootstrapError::StoreWriteFailed { stage: WriteStage::Insert, .. } =>
                INSERT_FAILED_MESSAGE.to_owned(),
            BootstrapError::StoreWriteFailed { stage: WriteStage::Canonize, .. } =>
                CANONIZE_FAILED_MESSAGE.to_owned(),
            BootstrapError::StoreWriteFailed { stage: WriteStage::StampVersion, cause } =>
                cause.message.clone(),
        }
    }
}

} // verus!
