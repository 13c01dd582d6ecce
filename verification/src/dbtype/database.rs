//! Database meta-information.

use vstd::prelude::*;
use crate::dbtype::database_name::DatabaseName;
use crate::dbtype::fields::{required, FieldError};
use crate::numeric::{parse_u64, parse_u64_spec};
use crate::text::chars_of;

verus! {

/// Database meta-information, as returned from a command to GET a database.
///
/// Applications must not rely on how `Database` values are ordered.
#[derive(Clone, Debug, Eq, Hash, Ord, PartialEq, PartialOrd)]
pub struct Database {
    /// The name of the database.
    pub db_name: DatabaseName,
    /// The current number of updates to the database.
    pub update_seq: u64,
    /// The number of committed updates.
    pub committed_update_seq: u64,
    /// Timestamp of when the database was opened, expressed in microseconds
    /// since the epoch.
    pub instance_start_time: u64,
    /// The version of the physical format used for the data when it is stored
    /// on disk.
    pub disk_format_version: i32,
    /// Number of documents in the database.
    pub doc_count: u64,
    /// Number of deleted documents.
    pub doc_del_count: u64,
    /// Actual data size, in bytes, of the database data.
    pub data_size: u64,
    /// Size, in bytes, of the data as stored on the disk, view indexes not
    /// included.
    pub disk_size: u64,
    /// The number of purge operations on the database.
    pub purge_seq: u64,
    /// Whether the database compaction routine is operating on this database.
    pub compact_running: bool,
}

/// The names of the fields of database meta-information, as its JSON object
/// holds them.
pub const DATABASE_FIELDS: [&'static str; 11] = [
    "committed_update_seq",
    "compact_running",
    "db_name",
    "disk_format_version",
    "data_size",
    "disk_size",
    "doc_count",
    "doc_del_count",
    "instance_start_time",
    "purge_seq",
    "update_seq",
];

/// The fields of database meta-information as its JSON object held them, each
/// `None` where the object lacked it. The start time is held as the string
/// that the server sends.
pub struct DatabaseFields {
    /// `committed_update_seq`.
    pub committed_update_seq: Option<u64>,
    /// `compact_running`.
    pub compact_running: Option<bool>,
    /// `db_name`.
    pub db_name: Option<DatabaseName>,
    /// `disk_format_version`.
    pub disk_format_version: Option<i32>,
    /// `data_size`.
    pub data_size: Option<u64>,
    /// `disk_size`.
    pub disk_size: Option<u64>,
    /// `doc_count`.
    pub doc_count: Option<u64>,
    /// `doc_del_count`.
    pub doc_del_count: Option<u64>,
    /// `instance_start_time`, as the string the server sends.
    pub instance_start_time: Option<String>,
    /// `purge_seq`.
    pub purge_seq: Option<u64>,
    /// `update_seq`.
    pub update_seq: Option<u64>,
}

/// What the fields make: the first required field that is missing, in the
/// order of `DATABASE_FIELDS`, is an error; so is a start time that is not a
/// decimal number that fits in a `u64`, where it is reached in that order.
pub open spec fn database_from_fields(f: DatabaseFields) -> Result<Database, FieldError> {
    if f.committed_update_seq is None {
        Err(FieldError::MissingField("committed_update_seq"))
    } else if f.compact_running is None {
        Err(FieldError::MissingField("compact_running"))
    } else if f.db_name is None {
        Err(FieldError::MissingField("db_name"))
    } else if f.disk_format_version is None {
        Err(FieldError::MissingField("disk_format_version"))
    } else if f.data_size is None {
        Err(FieldError::MissingField("data_size"))
    } else if f.disk_size is None {
        Err(FieldError::MissingField("disk_size"))
    } else if f.doc_count is None {
        Err(FieldError::MissingField("doc_count"))
    } else if f.doc_del_count is None {
        Err(FieldError::MissingField("doc_del_count"))
    } else if f.instance_start_time is None {
        Err(FieldError::MissingField("instance_start_time"))
    } else if parse_u64_spec(f.instance_start_time->0@) is None {
        Err(FieldError::InvalidValue("instance_start_time"))
    } else if f.purge_seq is None {
        Err(FieldError::MissingField("purge_seq"))
    } else if f.update_seq is None {
        Err(FieldError::MissingField("update_seq"))
    } else {
        Ok(
            Database {
                db_name: f.db_name->0,
                update_seq: f.update_seq->0,
                committed_update_seq: f.committed_update_seq->0,
                instance_start_time: parse_u64_spec(f.instance_start_time->0@)->0,
                disk_format_version: f.disk_format_version->0,
                doc_count: f.doc_count->0,
                doc_del_count: f.doc_del_count->0,
                data_size: f.data_size->0,
                disk_size: f.disk_size->0,
                purge_seq: f.purge_seq->0,
                compact_running: f.compact_running->0,
            },
        )
    }
}

impl Database {
    /// Assembles database meta-information from the fields that its JSON
    /// object held.
    pub fn from_fields(f: DatabaseFields) -> (r: Result<Self, FieldError>)
        ensures
            r == database_from_fields(f),
    {
        let ghost g = f;
        let committed_update_seq = required(f.committed_update_seq, "committed_update_seq")?;
        let compact_running = required(f.compact_running, "compact_running")?;
        let db_name = required(f.db_name, "db_name")?;
        let disk_format_version = required(f.disk_format_version, "disk_format_version")?;
        let data_size = required(f.data_size, "data_size")?;
        let disk_size = required(f.disk_size, "disk_size")?;
        let doc_count = required(f.doc_count, "doc_count")?;
        let doc_del_count = required(f.doc_del_count, "doc_del_count")?;
        let start = required(f.instance_start_time, "instance_start_time")?;
        let v = chars_of(start.as_str());
        proof {
            assert(v@.subrange(0, v@.len() as int) =~= start@);
        }
        let instance_start_time = match parse_u64(&v, 0, v.len()) {
            Some(x) => x,
            None => {
                return Err(FieldError::InvalidValue("instance_start_time"));
            },
        };
        let purge_seq = required(f.purge_seq, "purge_seq")?;
        let update_seq = required(f.update_seq, "update_seq")?;
        Ok(
            Database {
                db_name,
                update_seq,
                committed_update_seq,
                instance_start_time,
                disk_format_version,
                doc_count,
                doc_del_count,
                data_size,
                disk_size,
                purge_seq,
                compact_running,
            },
        )
    }
}

} // verus!
