//! Where the files of a node are kept.
//!
//! A node keeps a directory for its blockchain database and one for its table
//! of peer addresses.  Both lie under the data directory that the operator
//! named, or, if none was named, under the per-user application data directory
//! of the platform.  This module decides which directory is meant; creating it
//! is left to the caller.

use vstd::prelude::*;

verus! {

/// Name of the directory that holds the blockchain database.
pub const DB_DIR: &'static str = "db";

/// Name of the directory that holds the table of peer addresses.
pub const P2P_DIR: &'static str = "p2p";

/// Name of the file, inside `P2P_DIR`, that is the table of peer addresses.
pub const NODE_TABLE_FILE: &'static str = "nodes.csv";

/// The parts of a node that keep files of their own.
#[derive(Clone, Copy, Debug, PartialEq, Eq, Structural)]
pub enum Subsystem {
    /// The blockchain database, which owns its whole directory.
    Database,
    /// The table of peer addresses, a single file in its directory.
    PeerTable,
}

impl Subsystem {
    /// The name of the subsystem's directory.
    pub open spec fn spec_dir_name(self) -> Seq<char> {
        match self {
            Subsystem::Database => DB_DIR@,
            Subsystem::PeerTable => P2P_DIR@,
        }
    }

    /// The name of the subsystem's file within its directory, if it keeps a
    /// single file there.
    pub open spec fn spec_file_name(self) -> Option<Seq<char>> {
        match self {
            Subsystem::Database => None,
            Subsystem::PeerTable => Some(NODE_TABLE_FILE@),
        }
    }

    /// The name of the subsystem's directory.
    pub fn dir_name(self) -> (name: &'static str)
        ensures
            name@ == self.spec_dir_name(),
    {
        match self {
            Subsystem::Database => DB_DIR,
            Subsystem::PeerTable => P2P_DIR,
        }
    }

    /// The name of the subsystem's file within its directory, if it keeps a
    /// single file there.
    pub fn file_name(self) -> (name: Option<&'static str>)
        ensures
            match name {
                Some(file) => self.spec_file_name() == Some(file@),
                None => self.spec_file_name() is None,
            },
    {
        match self {
            Subsystem::Database => None,
            Subsystem::PeerTable => Some(NODE_TABLE_FILE),
        }
    }
}

/// The place of a subsystem's files: a directory named after the subsystem,
/// below the operator's data directory if there is one, else below the
/// per-user application data directory.
#[derive(Debug)]
pub struct Location {
    /// The operator's data directory, if one was named.
    pub base: Option<String>,
    /// The subsystem whose files are kept there.
    pub subsystem: Subsystem,
}

/// A location as a mathematical value: the base directory, if any, the name of
/// the directory below it, and the name of the file in that directory, if the
/// location is that of a file.
pub struct LocationView {
    pub base: Option<Seq<char>>,
    pub dir: Seq<char>,
    pub file: Option<Seq<char>>,
}

impl View for Location {
    type V = LocationView;

    open spec fn view(&self) -> LocationView {
        LocationView {
            base: match self.base {
                Some(base) => Some(base@),
                None => None,
            },
            dir: self.subsystem.spec_dir_name(),
            file: self.subsystem.spec_file_name(),
        }
    }
}

impl Location {
    /// The place of the files of `subsystem`, given the data directory that the
    /// operator named, if any.
    pub fn resolve(data_dir: &Option<String>, subsystem: Subsystem) -> (location: Location)
        ensures
            location.subsystem == subsystem,
            match *data_dir {
                Some(base) => location@.base == Some(base@),
                None => location@.base is None,
            },
    {
        let base = match data_dir {
            Some(base) => Some(base.clone()),
            None => None,
        };
        Location { base, subsystem }
    }

    /// The place of the blockchain database: the directory `db`.
    pub fn database(data_dir: &Option<String>) -> (location: Location)
        ensures
            location.subsystem == Subsystem::Database,
            location@.dir == DB_DIR@,
            location@.file is None,
            match *data_dir {
                Some(base) => location@.base == Some(base@),
                None => location@.base is None,
            },
    {
        Location::resolve(data_dir, Subsystem::Database)
    }

    /// The place of the table of peer addresses: the file `nodes.csv` in the
    /// directory `p2p`.
    pub fn node_table(data_dir: &Option<String>) -> (location: Location)
        ensures
            location.subsystem == Subsystem::PeerTable,
            location@.dir == P2P_DIR@,
            location@.file == Some(NODE_TABLE_FILE@),
            match *data_dir {
                Some(base) => location@.base == Some(base@),
                None => location@.base is None,
            },
    {
        Location::resolve(data_dir, Subsystem::PeerTable)
    }
}

} // verus!
