//! Records and queries shared by the recorder daemon and its command line
//! client.

use vstd::prelude::*;

verus! {

/// Path of the unix socket on which the daemon answers queries.
pub const SOCK_PATH: &'static str = "/run/user/1000/ofreg.sock";

/// Name of the table that holds the records.
pub const TABLE_NAME: &'static str = "ofreg";

/// Directory of the record database.
pub const DB_PATH: &'static str = "/var/db/ofreg";

/// One file-open event: the command that opened a file, the file, and the
/// time of the event in seconds since the unix epoch.
pub struct OfregData {
    pub cmd: String,
    pub op_file: String,
    pub time: u64,
}

/// A query for records: optional filters on the command, on the file path
/// prefix and on the time range, and the number of records wanted.
pub struct Query {
    pub cmd: Option<String>,
    pub file: Option<String>,
    pub time_begin: Option<u64>,
    pub time_end: Option<u64>,
    pub num: u32,
}

} // verus!
