//! Records of the local TAC database.

use vstd::prelude::*;

use crate::display::{age_label, age_label_of, elapsed, AgeLabel};

verus! {

/// One row of the TAC database: the device behind a Type Allocation Code.
#[derive(Debug, Clone)]
pub struct TacRecord {
    pub tac: String,
    pub brand: String,
    pub model: String,
    pub date: Option<String>,
    pub gsmarena: Option<String>,
    pub phonearena: Option<String>,
    pub phonedb: Option<String>,
}

/// The path type of the standard library, carried as an opaque value.
#[verifier::external_type_specification]
#[verifier::external_body]
pub struct ExPathBuf(std::path::PathBuf);

/// Metadata about the local database for the `info` command.
pub struct DbInfo {
    pub path: std::path::PathBuf,
    pub record_count: i64,
    /// When the file was last modified, in UNIX seconds, if known.
    pub last_updated: Option<u64>,
}

impl DbInfo {
    /// How long ago the database was updated, seen at `now` (UNIX seconds);
    /// `None` when that is not known ("never").
    pub fn updated_label(&self, now: u64) -> (l: Option<AgeLabel>)
        ensures
            l == (match self.last_updated {
                Some(ts) => Some(age_label_of(elapsed(now, ts))),
                None => None,
            }),
    {
        match self.last_updated {
            Some(ts) => Some(age_label(now, ts)),
            None => None,
        }
    }
}

} // verus!
